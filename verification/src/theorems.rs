//! What holds of every quiz, every position and every reveal flag.
//!
//! Each statement is about the model of the page that
//! [`Root::resolve_question`](crate::content::Root::resolve_question)
//! returns, which is `RootView::question_page` of the model of the quiz.

use vstd::prelude::*;
use crate::content::{QuestionType, QuestionView, RootView};
use crate::page::{prev_position, LinkView, NavLinksView, PageView};
use crate::resolver::{lemma_number_starts_at_zero, lemma_number_step};

verus! {

/// The position before 0 is 0 itself; before any other position it is the
/// position less one.
pub proof fn theorem_prev_position_stops_at_zero(position: nat)
    ensures
        prev_position(0) == 0,
        position >= 1 ==> prev_position(position) == position - 1,
{
}

/// The number never goes down from one position to a later one, goes up by
/// at most one for each position between them, and is at most the position.
pub proof fn theorem_number_grows_slowly(quiz: RootView, earlier: nat, later: nat)
    requires
        earlier <= later <= quiz.questions.len(),
    ensures
        quiz.real_question_number(earlier) <= quiz.real_question_number(later),
        quiz.real_question_number(later) - quiz.real_question_number(earlier) <= later - earlier,
        quiz.real_question_number(later) <= later,
    decreases later,
{
    if later == 0 {
        lemma_number_starts_at_zero(quiz);
    } else {
        lemma_number_step(quiz, (later - 1) as nat);
        if earlier < later {
            theorem_number_grows_slowly(quiz, earlier, (later - 1) as nat);
        } else {
            theorem_number_grows_slowly(quiz, (later - 1) as nat, (later - 1) as nat);
        }
    }
}

/// Where the quiz has an entry that is no topic intro, the page is a
/// question page, and its number is the count of the entries that are no
/// topic intro among the first `position` entries. The entry itself is one
/// of them, so the number is at least 1, and one more than the number of the
/// position before.
pub proof fn theorem_question_page_number(quiz: RootView, position: nat, reveal: bool)
    requires
        1 <= position <= quiz.questions.len(),
        !quiz.questions[position - 1].type_field.introduces_topic(),
    ensures
        quiz.question_page(position, reveal) is QuestionPage,
        quiz.question_page(position, reveal)->number == quiz.questions.take(position as int).filter(
            |q: QuestionView| q.type_field != QuestionType::TopicIntro,
        ).len(),
        quiz.question_page(position, reveal)->number == quiz.real_question_number(
            (position - 1) as nat,
        ) + 1,
        1 <= quiz.question_page(position, reveal)->number <= position,
{
    lemma_number_step(quiz, (position - 1) as nat);
    theorem_number_grows_slowly(quiz, 0, position);
    let counted = |q: QuestionView| q.is_numbered();
    let no_intro = |q: QuestionView| q.type_field != QuestionType::TopicIntro;
    assert(counted =~= no_intro);
}

/// Where the quiz has a topic intro, the page is a topic page: the intro has
/// a position of its own, and the number does not go up there.
pub proof fn theorem_topic_intro_has_a_page_and_no_number(quiz: RootView, position: nat, reveal: bool)
    requires
        1 <= position <= quiz.questions.len(),
        quiz.questions[position - 1].type_field.introduces_topic(),
    ensures
        quiz.question_page(position, reveal) is TopicPage,
        quiz.question_page(position, reveal)->TopicPage_topic == quiz.questions[position - 1].topic,
        quiz.real_question_number(position) == quiz.real_question_number((position - 1) as nat),
{
    lemma_number_step(quiz, (position - 1) as nat);
}

/// At position 0 and at every position past the last entry the page is the
/// end page, with the title of the quiz and a link to the first position
/// with the answers shown. At no other position is the page an end page.
pub proof fn theorem_end_page_where_no_question(quiz: RootView, position: nat, reveal: bool)
    ensures
        position == 0 || position > quiz.questions.len() ==> quiz.question_page(position, reveal)
            == (PageView::EndPage {
            title: quiz.meta.title,
            restart_link: LinkView::Question { position: 1, reveal: true },
        }),
        1 <= position <= quiz.questions.len() ==> !(quiz.question_page(position, reveal) is EndPage),
{
}

/// The end page that a position without a question gets is the page that
/// the end of the quiz has, whatever the reveal flag.
pub proof fn theorem_end_page_is_the_same_everywhere(quiz: RootView, position: nat, reveal: bool)
    requires
        position == 0 || position > quiz.questions.len(),
    ensures
        quiz.question_page(position, reveal) == quiz.end_page(),
{
}

/// The link back from the first position leads to the title page, whatever
/// the reveal flag, and the first page of every quiz that has one carries that
/// link. An empty quiz has the end page at the first position, which has no
/// links.
pub proof fn theorem_first_page_leads_back_to_title(quiz: RootView, reveal: bool)
    ensures
        LinkView::back_from(1, reveal) == LinkView::Title,
        quiz.questions.len() >= 1 ==> quiz.question_page(1, reveal).nav_links() is Some
            && quiz.question_page(1, reveal).nav_links()->0.prev == LinkView::Title,
        quiz.questions.len() == 0 ==> quiz.question_page(1, reveal) == quiz.end_page(),
{
}

/// The links of every page inside the quiz: back to the position before
/// (to the title page from the first), forward to the position after, whether
/// or not the quiz has an entry there, both with the reveal flag of the page.
pub proof fn theorem_links_step_by_one(quiz: RootView, position: nat, reveal: bool)
    requires
        1 <= position <= quiz.questions.len(),
    ensures
        quiz.question_page(position, reveal).nav_links() == Some(
            NavLinksView {
                prev: if position == 1 {
                    LinkView::Title
                } else {
                    LinkView::Question { position: (position - 1) as nat, reveal }
                },
                next: LinkView::Question { position: position + 1, reveal },
            },
        ),
{
}

/// With the reveal flag off a question page shows no answer. With the flag
/// on it shows the recorded answer where the question has one, and no answer
/// where it has none.
pub proof fn theorem_answer_shown_only_on_request(quiz: RootView, position: nat)
    requires
        1 <= position <= quiz.questions.len(),
        !quiz.questions[position - 1].type_field.introduces_topic(),
    ensures
        quiz.question_page(position, false) is QuestionPage,
        quiz.question_page(position, true) is QuestionPage,
        quiz.question_page(position, false)->revealed_answer == Seq::<char>::empty(),
        match quiz.questions[position - 1].answer {
            Some(answer) => quiz.question_page(position, true)->revealed_answer == answer,
            None => quiz.question_page(position, true)->revealed_answer == Seq::<char>::empty(),
        },
{
}

/// The reveal flag changes nothing on a question page but the answer and
/// the flag that its links carry.
pub proof fn theorem_reveal_changes_the_answer_only(quiz: RootView, position: nat)
    requires
        1 <= position <= quiz.questions.len(),
        !quiz.questions[position - 1].type_field.introduces_topic(),
    ensures
        ({
            let hidden = quiz.question_page(position, false);
            let shown = quiz.question_page(position, true);
            &&& hidden->number == shown->number
            &&& hidden->QuestionPage_topic == shown->QuestionPage_topic
            &&& hidden->text == shown->text
            &&& hidden->QuestionPage_image == shown->QuestionPage_image
            &&& hidden->options == shown->options
            &&& hidden->QuestionPage_background == shown->QuestionPage_background
        }),
{
}

} // verus!
