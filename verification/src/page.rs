//! What the resolver hands to the renderer: one page, as plain data.

use vstd::prelude::*;

verus! {

/// Where a link on a page leads.
#[derive(Debug, Clone, Copy, PartialEq, Eq)]
pub enum Link {
    /// The title page.
    Title,
    /// The page at `position`, with the answer shown if `reveal` is set.
    Question { position: usize, reveal: bool },
}

/// The model of a [`Link`]: positions are natural numbers.
pub enum LinkView {
    Title,
    Question { position: nat, reveal: bool },
}

impl View for Link {
    type V = LinkView;

    open spec fn view(&self) -> LinkView {
        match *self {
            Link::Title => LinkView::Title,
            Link::Question { position, reveal } => LinkView::Question {
                position: position as nat,
                reveal,
            },
        }
    }
}

/// The position that the link back leads to: one less, and 0 stays 0.
pub open spec fn prev_position(position: nat) -> nat {
    (vstd::math::max(position as int, 1) - 1) as nat
}

/// The position that the link forward leads to, whether or not the quiz has
/// a question there.
pub open spec fn next_position(position: nat) -> nat {
    position + 1
}

impl LinkView {
    /// Where a quiz starts: the first position.
    pub open spec fn first_page(reveal: bool) -> LinkView {
        LinkView::Question { position: 1, reveal }
    }

    /// The link back: from the first page to the title page, from any other
    /// page to the position before it, with the same reveal flag.
    pub open spec fn back_from(position: nat, reveal: bool) -> LinkView {
        if position == 1 {
            LinkView::Title
        } else {
            LinkView::Question { position: prev_position(position), reveal }
        }
    }

    /// The link forward: to the next position, with the same reveal flag.
    pub open spec fn forward_from(position: nat, reveal: bool) -> LinkView {
        LinkView::Question { position: next_position(position), reveal }
    }
}

impl Link {
    /// Where a quiz starts: the first position.
    pub fn first_page(reveal: bool) -> (link: Link)
        ensures
            link@ == LinkView::first_page(reveal),
    {
        Link::Question { position: 1, reveal }
    }

    /// The link back from `position`.
    pub fn back_from(position: usize, reveal: bool) -> (link: Link)
        ensures
            link@ == LinkView::back_from(position as nat, reveal),
    {
        if position == 1 {
            Link::Title
        } else {
            let at_least_one: usize = if position >= 1 { position } else { 1 };
            Link::Question { position: at_least_one - 1, reveal }
        }
    }

    /// The link forward from `position`. The next position has to be one
    /// that a `usize` can hold.
    pub fn forward_from(position: usize, reveal: bool) -> (link: Link)
        requires
            position < usize::MAX,
        ensures
            link@ == LinkView::forward_from(position as nat, reveal),
    {
        Link::Question { position: position + 1, reveal }
    }
}

/// The two links of a page inside the quiz.
#[derive(Debug, Clone, Copy, PartialEq, Eq)]
pub struct NavLinks {
    pub prev: Link,
    pub next: Link,
}

/// The model of a [`NavLinks`].
pub struct NavLinksView {
    pub prev: LinkView,
    pub next: LinkView,
}

impl View for NavLinks {
    type V = NavLinksView;

    open spec fn view(&self) -> NavLinksView {
        NavLinksView { prev: self.prev@, next: self.next@ }
    }
}

impl NavLinksView {
    /// Both links of the page at `position`.
    pub open spec fn at(position: nat, reveal: bool) -> NavLinksView {
        NavLinksView {
            prev: LinkView::back_from(position, reveal),
            next: LinkView::forward_from(position, reveal),
        }
    }
}

impl NavLinks {
    /// Both links of the page at `position`.
    pub fn at(position: usize, reveal: bool) -> (links: NavLinks)
        requires
            position < usize::MAX,
        ensures
            links@ == NavLinksView::at(position as nat, reveal),
    {
        NavLinks {
            prev: Link::back_from(position, reveal),
            next: Link::forward_from(position, reveal),
        }
    }
}

/// A page, ready to be rendered. Every field has a value: what the quiz
/// leaves out is an empty text or an empty list, but for the two fields that
/// the renderer tells apart from an empty text (`image` of a topic page,
/// `text` of a question page).
#[allow(inconsistent_fields)]
#[derive(Debug, Clone, PartialEq, Eq)]
pub enum PageViewModel {
    TitlePage { title: String, start_link: Link },
    TopicPage { topic: String, image: Option<String>, nav_links: NavLinks, background: String },
    QuestionPage {
        nav_links: NavLinks,
        background: String,
        number: usize,
        topic: String,
        text: Option<String>,
        image: String,
        options: Vec<String>,
        revealed_answer: String,
    },
    EndPage { title: String, restart_link: Link },
}

/// The model of a [`PageViewModel`].
#[allow(inconsistent_fields)]
pub enum PageView {
    TitlePage { title: Seq<char>, start_link: LinkView },
    TopicPage {
        topic: Seq<char>,
        image: Option<Seq<char>>,
        nav_links: NavLinksView,
        background: Seq<char>,
    },
    QuestionPage {
        nav_links: NavLinksView,
        background: Seq<char>,
        number: nat,
        topic: Seq<char>,
        text: Option<Seq<char>>,
        image: Seq<char>,
        options: Seq<Seq<char>>,
        revealed_answer: Seq<char>,
    },
    EndPage { title: Seq<char>, restart_link: LinkView },
}

impl View for PageViewModel {
    type V = PageView;

    open spec fn view(&self) -> PageView {
        match self {
            PageViewModel::TitlePage { title, start_link } => PageView::TitlePage {
                title: title@,
                start_link: start_link@,
            },
            PageViewModel::TopicPage { topic, image, nav_links, background } => PageView::TopicPage {
                topic: topic@,
                image: image.deep_view(),
                nav_links: nav_links@,
                background: background@,
            },
            PageViewModel::QuestionPage {
                nav_links,
                background,
                number,
                topic,
                text,
                image,
                options,
                revealed_answer,
            } => PageView::QuestionPage {
                nav_links: nav_links@,
                background: background@,
                number: *number as nat,
                topic: topic@,
                text: text.deep_view(),
                image: image@,
                options: options.deep_view(),
                revealed_answer: revealed_answer@,
            },
            PageViewModel::EndPage { title, restart_link } => PageView::EndPage {
                title: title@,
                restart_link: restart_link@,
            },
        }
    }
}

impl PageView {
    /// The links of a page inside the quiz; the title page and the end page
    /// have none.
    pub open spec fn nav_links(self) -> Option<NavLinksView> {
        match self {
            PageView::TopicPage { nav_links, .. } => Some(nav_links),
            PageView::QuestionPage { nav_links, .. } => Some(nav_links),
            _ => None,
        }
    }

    /// The name of the template that shows this page.
    pub open spec fn template_name(self) -> Seq<char> {
        match self {
            PageView::TitlePage { .. } => "title"@,
            PageView::TopicPage { .. } => "topic"@,
            PageView::QuestionPage { .. } => "home"@,
            PageView::EndPage { .. } => "end"@,
        }
    }
}

impl PageViewModel {
    /// The links of a page inside the quiz; the title page and the end page
    /// have none.
    pub fn nav_links(&self) -> (links: Option<NavLinks>)
        ensures
            match links {
                Some(l) => self@.nav_links() == Some(l@),
                None => self@.nav_links().is_none(),
            },
    {
        match self {
            PageViewModel::TopicPage { nav_links, .. } => Some(*nav_links),
            PageViewModel::QuestionPage { nav_links, .. } => Some(*nav_links),
            _ => None,
        }
    }

    /// The name of the template that shows this page.
    pub fn template_name(&self) -> (name: &'static str)
        ensures
            name@ == self@.template_name(),
    {
        match self {
            PageViewModel::TitlePage { .. } => "title",
            PageViewModel::TopicPage { .. } => "topic",
            PageViewModel::QuestionPage { .. } => "home",
            PageViewModel::EndPage { .. } => "end",
        }
    }
}

} // verus!
