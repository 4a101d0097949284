//! Verified core of a meta-macro framework: diagnostics, execution
//! environments, implementation-file resolution, field documentation
//! extraction and rendering, and macro-kind dispatch, together with the
//! decisions of the macros built on it.
mod case;
pub mod doc;
pub mod extract;
pub mod fs;
pub mod impls;
pub mod iso;
pub mod logr;
pub mod megamac;
pub mod resolve;
pub mod syntax;
pub mod text;
