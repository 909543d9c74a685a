//! From a position and a reveal flag to the page that is shown.
//!
//! The rules are spec functions over the models of the quiz and of the page;
//! each executable function returns a value whose model is what the rule says.

use vstd::prelude::*;
use crate::content::{Meta, MetaView, Question, QuestionView, Root, RootView};
use crate::page::{Link, LinkView, NavLinks, NavLinksView, PageView, PageViewModel};

verus! {

/// What is shown where the quiz names no text: the empty text.
pub open spec fn text_or_empty(text: Option<Seq<char>>) -> Seq<char> {
    match text {
        Some(t) => t,
        None => Seq::empty(),
    }
}

/// What is shown where a question names no options: the empty list.
pub open spec fn options_or_empty(options: Option<Seq<Seq<char>>>) -> Seq<Seq<char>> {
    match options {
        Some(o) => o,
        None => Seq::empty(),
    }
}

impl MetaView {
    /// The background of every page inside the quiz.
    pub open spec fn background(self) -> Seq<char> {
        text_or_empty(self.background_image)
    }
}

impl QuestionView {
    /// Whether this entry counts as a question: all do but the topic intros.
    pub open spec fn is_numbered(self) -> bool {
        !self.type_field.introduces_topic()
    }

    /// The answer as the page shows it: the recorded answer where it is asked
    /// for and there is one, else the empty text.
    pub open spec fn revealed_answer(self, reveal: bool) -> Seq<char> {
        if reveal {
            text_or_empty(self.answer)
        } else {
            Seq::empty()
        }
    }
}

impl RootView {
    /// Whether the quiz has a question at `position`. Positions start at 1.
    pub open spec fn has_question(self, position: nat) -> bool {
        1 <= position <= self.questions.len()
    }

    /// The question at `position`, where there is one.
    pub open spec fn question_at(self, position: nat) -> Option<QuestionView> {
        if self.has_question(position) {
            Some(self.questions[position - 1])
        } else {
            None
        }
    }

    /// The first `position` entries of the quiz, or all of them where it has
    /// fewer.
    pub open spec fn first_questions(self, position: nat) -> Seq<QuestionView> {
        if position <= self.questions.len() {
            self.questions.take(position as int)
        } else {
            self.questions
        }
    }

    /// The number that a visitor sees at `position`: how many of the first
    /// `position` entries are no topic intro. The entry at `position` itself
    /// is among them.
    pub open spec fn real_question_number(self, position: nat) -> nat {
        self.first_questions(position).filter(|q: QuestionView| q.is_numbered()).len()
    }

    /// The title page: it leads to the first position, answers hidden.
    pub open spec fn title_page(self) -> PageView {
        PageView::TitlePage { title: self.meta.title, start_link: LinkView::first_page(false) }
    }

    /// The end page: it leads back to the first position, answers shown.
    pub open spec fn end_page(self) -> PageView {
        PageView::EndPage { title: self.meta.title, restart_link: LinkView::first_page(true) }
    }

    /// The page that introduces the topic of `question`, which stands at
    /// `position`.
    pub open spec fn topic_page(self, question: QuestionView, position: nat, reveal: bool) -> PageView {
        PageView::TopicPage {
            topic: question.topic,
            image: question.image,
            nav_links: NavLinksView::at(position, reveal),
            background: self.meta.background(),
        }
    }

    /// The page that asks `question`, which stands at `position`.
    pub open spec fn asking_page(self, question: QuestionView, position: nat, reveal: bool) -> PageView {
        PageView::QuestionPage {
            nav_links: NavLinksView::at(position, reveal),
            background: self.meta.background(),
            number: self.real_question_number(position),
            topic: question.topic,
            text: question.question,
            image: text_or_empty(question.image),
            options: options_or_empty(question.options),
            revealed_answer: question.revealed_answer(reveal),
        }
    }

    /// The page at `position`: the end page where the quiz has no question
    /// there, a topic page for a topic intro, a question page for any other
    /// entry.
    pub open spec fn question_page(self, position: nat, reveal: bool) -> PageView {
        match self.question_at(position) {
            None => self.end_page(),
            Some(question) => if question.type_field.introduces_topic() {
                self.topic_page(question, position, reveal)
            } else {
                self.asking_page(question, position, reveal)
            },
        }
    }
}

/// Before the first entry nothing is counted.
pub proof fn lemma_number_starts_at_zero(quiz: RootView)
    ensures
        quiz.real_question_number(0) == 0,
{
    reveal(Seq::filter);
}

/// The number goes up by one at each entry that is no topic intro, and stays
/// where it is at a topic intro.
pub proof fn lemma_number_step(quiz: RootView, position: nat)
    requires
        position < quiz.questions.len(),
    ensures
        quiz.real_question_number(position + 1) == quiz.real_question_number(position) + (
        if quiz.questions[position as int].is_numbered() {
            1nat
        } else {
            0nat
        }),
{
    let longer = quiz.first_questions(position + 1);
    assert(longer.drop_last() =~= quiz.first_questions(position));
    assert(longer.last() == quiz.questions[position as int]);
    reveal(Seq::filter);
}

/// Past the last entry the number stays what it is at the last entry.
pub proof fn lemma_number_past_the_end(quiz: RootView, position: nat)
    requires
        position >= quiz.questions.len(),
    ensures
        quiz.real_question_number(position) == quiz.real_question_number(quiz.questions.len()),
{
    assert(quiz.questions.take(quiz.questions.len() as int) =~= quiz.questions);
}

/// A text of the quiz, or the empty text where the quiz names none.
fn owned_or_empty(text: &Option<String>) -> (out: String)
    ensures
        out@ == text_or_empty(text.deep_view()),
{
    match text {
        Some(t) => t.clone(),
        None => String::new(),
    }
}

/// A text of the quiz as the quiz has it, named or not.
fn owned_text(text: &Option<String>) -> (out: Option<String>)
    ensures
        out.deep_view() == text.deep_view(),
{
    match text {
        Some(t) => Some(t.clone()),
        None => None,
    }
}

/// The options of a question in their order, or the empty list where the
/// question names none.
fn owned_options(options: &Option<Vec<String>>) -> (out: Vec<String>)
    ensures
        out.deep_view() == options_or_empty(options.deep_view()),
{
    let mut out: Vec<String> = Vec::new();
    match options {
        Some(list) => {
            let mut next: usize = 0;
            while next < list.len()
                invariant
                    next <= list.len(),
                    out.len() == next,
                    forall|i: int| 0 <= i < next ==> out[i]@ == list[i]@,
                decreases list.len() - next,
            {
                out.push(list[next].clone());
                next = next + 1;
            }
            assert(out.deep_view() =~= list.deep_view());
        },
        None => {
            assert(out.deep_view() =~= Seq::<Seq<char>>::empty());
        },
    }
    out
}

impl Meta {
    /// The background of every page inside the quiz: the image that the
    /// quiz names, or the empty text.
    pub fn background(&self) -> (image: String)
        ensures
            image@ == self@.background(),
    {
        owned_or_empty(&self.background_image)
    }
}

impl Question {
    /// The answer as the page shows it: the recorded answer where it is asked
    /// for and there is one, else the empty text.
    pub fn revealed_answer(&self, reveal: bool) -> (answer: String)
        ensures
            answer@ == self@.revealed_answer(reveal),
    {
        if reveal {
            owned_or_empty(&self.answer)
        } else {
            String::new()
        }
    }
}

impl Root {
    /// The question at `position`, where there is one. Positions start at 1.
    pub fn question_at(&self, position: usize) -> (found: Option<&Question>)
        ensures
            match found {
                Some(question) => *question == self.questions@[position - 1]
                    && self@.question_at(position as nat) == Some(question@),
                None => self@.question_at(position as nat).is_none(),
            },
    {
        if 1 <= position && position <= self.questions.len() {
            Some(&self.questions[position - 1])
        } else {
            None
        }
    }

    /// The number that a visitor sees at `position`: how many of the first
    /// `position` entries are no topic intro.
    pub fn real_question_number(&self, position: usize) -> (number: usize)
        ensures
            number == self@.real_question_number(position as nat),
    {
        let count: usize = self.questions.len();
        let end: usize = if position <= count { position } else { count };
        let mut number: usize = 0;
        let mut seen: usize = 0;
        proof {
            lemma_number_starts_at_zero(self@);
        }
        while seen < end
            invariant
                seen <= end <= self.questions.len(),
                number <= seen,
                number == self@.real_question_number(seen as nat),
            decreases end - seen,
        {
            proof {
                lemma_number_step(self@, seen as nat);
            }
            if !self.questions[seen].type_field.is_topic_intro() {
                number = number + 1;
            }
            seen = seen + 1;
        }
        proof {
            if position > count {
                lemma_number_past_the_end(self@, position as nat);
            }
        }
        number
    }
    /// The title page: it shows the title of the quiz and leads to the first
    /// position with the answers hidden.
    pub fn resolve_title(&self) -> (page: PageViewModel)
        ensures
            page@ == self@.title_page(),
    {
        PageViewModel::TitlePage {
            title: self.meta.title.clone(),
            start_link: Link::first_page(false),
        }
    }

    /// The end page: it shows the title of the quiz and leads back to the
    /// first position with the answers shown.
    pub fn resolve_end(&self) -> (page: PageViewModel)
        ensures
            page@ == self@.end_page(),
    {
        PageViewModel::EndPage {
            title: self.meta.title.clone(),
            restart_link: Link::first_page(true),
        }
    }

    /// The page at `position`. Any position is a request that has an answer:
    /// where the quiz has no question there, 0 included, the answer is the
    /// end page. A topic intro gets a topic page, any other entry a question
    /// page with its number, its payload and, where `reveal` is set, its
    /// answer.
    ///
    /// A page inside the quiz links forward to the position after its own,
    /// so where the quiz has a question at `position`, the position after it
    /// has to be one that a `usize` can hold.
    pub fn resolve_question(&self, position: usize, reveal: bool) -> (page: PageViewModel)
        requires
            self@.has_question(position as nat) ==> position < usize::MAX,
        ensures
            page@ == self@.question_page(position as nat, reveal),
            page@ is EndPage <==> !self@.has_question(position as nat),
    {
        match self.question_at(position) {
            None => self.resolve_end(),
            Some(question) => {
                let nav_links = NavLinks::at(position, reveal);
                let background = self.meta.background();
                if question.type_field.is_topic_intro() {
                    PageViewModel::TopicPage {
                        topic: question.topic.clone(),
                        image: owned_text(&question.image),
                        nav_links,
                        background,
                    }
                } else {
                    PageViewModel::QuestionPage {
                        nav_links,
                        background,
                        number: self.real_question_number(position),
                        topic: question.topic.clone(),
                        text: owned_text(&question.question),
                        image: owned_or_empty(&question.image),
                        options: owned_options(&question.options),
                        revealed_answer: question.revealed_answer(reveal),
                    }
                }
            },
        }
    }
}

} // verus!
