//! The macros built on the framework.
pub mod edoc;
pub mod megamac;
pub mod seanum;
pub mod wrap;
