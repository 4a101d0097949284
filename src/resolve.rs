//! Locating and loading the source file that implements a macro.
use vstd::prelude::*;
use crate::fs::FsPath;
use crate::logr::{Diagnostic, Severity, tagged};
use crate::megamac::ExecEnv;
use crate::syntax::SourceFile;

verus! {

/// What came of reading and parsing an implementation file.
#[derive(Debug)]
pub enum ImplSource {
    /// The file could not be read.
    Missing,
    /// The file was read but did not parse; the parser's message.
    Unparsable(String),
    Parsed(SourceFile),
}

/// `<dir>/<implementations module>/<name>.rs`, as components.
pub open spec fn impl_file_parts(
    dir: Seq<Seq<char>>,
    implementations_mod: Seq<char>,
    name: Seq<char>,
) -> Seq<Seq<char>> {
    dir.push(implementations_mod).push(name + ".rs"@)
}

pub open spec fn missing_msg(name: Seq<char>, path: Seq<char>) -> Seq<char> {
    "Failed to get macro_impl_src of "@ + name + " at `"@ + path + "`"@
}

pub open spec fn unparsable_msg(name: Seq<char>, err: Seq<char>) -> Seq<char> {
    "Failed to parse macro_impl_src "@ + name
        + ", this may happen for no real reason in your IDE, check that your project still build with cargo: "@
        + err
}

/// The file that must hold the implementation of the macro `name`:
/// `<src_dir>/<implementations module of env>/<name>.rs`.
pub fn impl_file_path(src_dir: &FsPath, name: &str, env: &ExecEnv) -> (r: FsPath)
    ensures
        r.absolute == src_dir.absolute,
        r.parts_view() =~= impl_file_parts(
            src_dir.parts_view(),
            env.implementations_mod_ident@,
            name@,
        ),
{
    let file = String::from_str(name).concat(".rs");
    src_dir.join(env.implementations_mod_ident.as_str()).join(file.as_str())
}

/// The parsed implementation file of the macro `name`, found at `path`.
/// A file that cannot be read or parsed aborts the expansion.
pub fn get_macro_impl_file_ast(source: ImplSource, path: &FsPath, name: &str, env: &ExecEnv) -> (r:
    Result<SourceFile, Diagnostic>)
    ensures
        match source {
            ImplSource::Missing => r matches Err(g) && g.severity == Severity::Abort && g.message@
                == tagged(env.logr.prefix@, missing_msg(name@, path.text())),
            ImplSource::Unparsable(e) => r matches Err(g) && g.severity == Severity::Abort
                && g.message@ == tagged(env.logr.prefix@, unparsable_msg(name@, e@)),
            ImplSource::Parsed(f) => r == Ok::<SourceFile, Diagnostic>(f),
        },
{
    match source {
        ImplSource::Missing => {
            let msg = String::from_str("Failed to get macro_impl_src of ").concat(name).concat(
                " at `",
            );
            let shown = path.to_text();
            let msg = msg.concat(shown.as_str()).concat("`");
            Err(env.logr.abort_call_site(msg.as_str()))
        },
        ImplSource::Unparsable(e) => {
            let msg = String::from_str("Failed to parse macro_impl_src ").concat(name).concat(
                ", this may happen for no real reason in your IDE, check that your project still build with cargo: ",
            ).concat(e.as_str());
            Err(env.logr.abort_call_site(msg.as_str()))
        },
        ImplSource::Parsed(f) => Ok(f),
    }
}

} // verus!
