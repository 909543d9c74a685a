//! Page routing for a multi-step quiz.
//!
//! A quiz is a title, an optional background image and an ordered list of
//! questions. A visitor walks through the list one page at a time; the
//! position of the page travels in the request. This crate decides, for a
//! position and a reveal flag, which page is shown, what its links are, which
//! number the question carries and what is handed to the renderer. Every
//! function is verified against a mathematical model of the quiz and of the
//! page.

pub mod content;
pub mod page;
pub mod resolver;
pub mod theorems;

pub use content::{Meta, Question, QuestionType, Root};
pub use page::{Link, NavLinks, PageViewModel};
