//! The quiz as it is held in memory: title, background and questions.

use vstd::prelude::*;

verus! {

/// What kind of page a question asks for.
///
/// `Unset` is what a question has before a kind was given to it; content that
/// is meant to be shown never holds it. `TopicIntro` opens a section: it has a
/// page of its own, but no question number.
#[derive(Default, Debug, Clone, Copy, PartialEq, Eq)]
pub enum QuestionType {
    #[default]
    Unset,
    TopicIntro,
    Text,
    Audio,
    MultipleChoice,
}

/// What holds of the whole quiz.
#[derive(Default, Debug, Clone, PartialEq, Eq)]
pub struct Meta {
    pub title: String,
    pub background_image: Option<String>,
}

/// One entry of the quiz, in the order in which it is shown.
#[derive(Default, Debug, Clone, PartialEq, Eq)]
pub struct Question {
    pub topic: String,
    pub question: Option<String>,
    pub image: Option<String>,
    pub type_field: QuestionType,
    pub answer: Option<String>,
    pub source: Option<String>,
    pub options: Option<Vec<String>>,
}

/// The quiz: loaded once, read from then on.
#[derive(Default, Debug, Clone, PartialEq, Eq)]
pub struct Root {
    pub meta: Meta,
    pub questions: Vec<Question>,
}

/// The model of a [`Meta`].
pub struct MetaView {
    pub title: Seq<char>,
    pub background_image: Option<Seq<char>>,
}

/// The model of a [`Question`].
pub struct QuestionView {
    pub topic: Seq<char>,
    pub question: Option<Seq<char>>,
    pub image: Option<Seq<char>>,
    pub type_field: QuestionType,
    pub answer: Option<Seq<char>>,
    pub source: Option<Seq<char>>,
    pub options: Option<Seq<Seq<char>>>,
}

/// The model of a [`Root`]: the questions are addressed from 1 by the
/// visitor, so the question at position `p` is `questions[p - 1]`.
pub struct RootView {
    pub meta: MetaView,
    pub questions: Seq<QuestionView>,
}

impl View for Meta {
    type V = MetaView;

    open spec fn view(&self) -> MetaView {
        MetaView {
            title: self.title@,
            background_image: self.background_image.deep_view(),
        }
    }
}

impl View for Question {
    type V = QuestionView;

    open spec fn view(&self) -> QuestionView {
        QuestionView {
            topic: self.topic@,
            question: self.question.deep_view(),
            image: self.image.deep_view(),
            type_field: self.type_field,
            answer: self.answer.deep_view(),
            source: self.source.deep_view(),
            options: self.options.deep_view(),
        }
    }
}

impl View for Root {
    type V = RootView;

    open spec fn view(&self) -> RootView {
        RootView {
            meta: self.meta@,
            questions: self.questions@.map_values(|q: Question| q@),
        }
    }
}

impl QuestionType {
    /// Whether this kind opens a section.
    pub open spec fn introduces_topic(self) -> bool {
        self == QuestionType::TopicIntro
    }

    /// Whether this kind opens a section.
    pub fn is_topic_intro(&self) -> (intro: bool)
        ensures
            intro == self.introduces_topic(),
    {
        match self {
            QuestionType::TopicIntro => true,
            _ => false,
        }
    }
}

} // verus!
