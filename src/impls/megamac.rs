//! The meta-macro: declares a procedural macro of a chosen kind, with its
//! parameters documented from the implementation's configuration record.
use vstd::prelude::*;
use crate::case::{pascal_case, pascal_of};
use crate::doc::{bullet, lemma_render_lists_every_entry, lines_view, render_doc, render_spec};
use crate::extract::{FieldDoc, FieldDocView, docs_view, extract_error_msg, extract_spec, get_args_fields_doc};
use crate::fs::FsPath;
use crate::logr::{Diagnostic, Severity, tagged};
use crate::megamac::ExecEnv;
use crate::resolve::{ImplSource, get_macro_impl_file_ast, missing_msg, unparsable_msg};

verus! {

/// The kind of procedural macro to declare.
#[derive(Clone, Copy, Debug, PartialEq, Eq, Structural)]
pub enum MacroKind {
    /// Function-like: `my_macro!(..)`.
    Func,
    /// Attribute: `#[my_macro(..)]`.
    Attr,
    /// Derive: `#[derive(MyMacro)]`.
    Derive,
}

/// The kind that an identifier names: `Func`, `Attr` or `Derive`.
pub open spec fn kind_of(s: Seq<char>) -> Option<MacroKind> {
    if s == "Func"@ {
        Some(MacroKind::Func)
    } else if s == "Attr"@ {
        Some(MacroKind::Attr)
    } else if s == "Derive"@ {
        Some(MacroKind::Derive)
    } else {
        None
    }
}

impl MacroKind {
    /// The kind named by `s`; `None` for any other identifier.
    pub fn from_ident(s: &str) -> (r: Option<MacroKind>)
        ensures
            r == kind_of(s@),
    {
        let s = String::from_str(s);
        if s == String::from_str("Func") {
            Some(MacroKind::Func)
        } else if s == String::from_str("Attr") {
            Some(MacroKind::Attr)
        } else if s == String::from_str("Derive") {
            Some(MacroKind::Derive)
        } else {
            None
        }
    }
}

/// The configuration of one macro declaration.
#[derive(Debug)]
pub struct Args {
    /// The kind of macro, as an identifier: `Func`, `Attr` or `Derive`.
    pub kind: String,
    /// The name of the macro.
    pub name: String,
    /// The syntax node type an attribute macro decorates.
    pub receiver: Option<String>,
}

/// The entry point a declaration registers.
#[derive(Debug)]
pub enum EntryPoint {
    /// `pub fn <name>(args)`, registered as a function-like macro.
    Func { name: String },
    /// `pub fn <name>(attr, item)`, registered as an attribute; the item
    /// parses as `syn::<receiver>`.
    Attr { name: String, receiver: String },
    /// `pub fn <name>(item)`, registered as the derive `<derive_name>`.
    Derive { name: String, derive_name: String },
}

pub enum EntryView {
    Func { name: Seq<char> },
    Attr { name: Seq<char>, receiver: Seq<char> },
    Derive { name: Seq<char>, derive_name: Seq<char> },
}

impl View for EntryPoint {
    type V = EntryView;

    open spec fn view(&self) -> EntryView {
        match self {
            EntryPoint::Func { name } => EntryView::Func { name: name@ },
            EntryPoint::Attr { name, receiver } => EntryView::Attr {
                name: name@,
                receiver: receiver@,
            },
            EntryPoint::Derive { name, derive_name } => EntryView::Derive {
                name: name@,
                derive_name: derive_name@,
            },
        }
    }
}

/// A generated macro declaration: its documentation lines and its entry
/// point.
#[derive(Debug)]
pub struct Declaration {
    pub doc: Vec<String>,
    pub entry: EntryPoint,
}

pub struct DeclarationView {
    pub doc: Seq<Seq<char>>,
    pub entry: EntryView,
}

impl View for Declaration {
    type V = DeclarationView;

    open spec fn view(&self) -> DeclarationView {
        DeclarationView { doc: lines_view(self.doc@), entry: self.entry@ }
    }
}

pub open spec fn result_view(r: Result<Declaration, Diagnostic>) -> Result<
    DeclarationView,
    (Severity, Seq<char>),
> {
    match r {
        Ok(d) => Ok(d@),
        Err(g) => Err(g@),
    }
}

pub open spec fn unsupported_kind_msg(kind: Seq<char>) -> Seq<char> {
    "Unsupported MacroKind `"@ + kind + "`, expected `Func`, `Attr` or `Derive`"@
}

pub open spec fn missing_receiver_msg(name: Seq<char>) -> Seq<char> {
    "Attribute macro `"@ + name + "` needs a `receiver`"@
}

pub open spec fn receiver_view(r: Option<String>) -> Option<Seq<char>> {
    match r {
        Some(s) => Some(s@),
        None => None,
    }
}

/// The entry point registered for `kind`, `name` and `receiver`, or the
/// message of the configuration error.
pub open spec fn entry_spec(kind: Seq<char>, name: Seq<char>, receiver: Option<Seq<char>>) -> Result<
    EntryView,
    Seq<char>,
> {
    match kind_of(kind) {
        None => Err(unsupported_kind_msg(kind)),
        Some(MacroKind::Func) => Ok(EntryView::Func { name }),
        Some(MacroKind::Attr) => match receiver {
            Some(r) => Ok(EntryView::Attr { name, receiver: r }),
            None => Err(missing_receiver_msg(name)),
        },
        Some(MacroKind::Derive) => Ok(EntryView::Derive { name, derive_name: pascal_of(name) }),
    }
}

/// The declaration for the configuration `(kind, name, receiver)` with
/// the documentation entries `docs`; a configuration error is reported
/// under `prefix` as a recoverable error.
pub open spec fn dispatch_spec(
    kind: Seq<char>,
    name: Seq<char>,
    receiver: Option<Seq<char>>,
    docs: Seq<FieldDocView>,
    prefix: Seq<char>,
) -> Result<DeclarationView, (Severity, Seq<char>)> {
    match entry_spec(kind, name, receiver) {
        Ok(entry) => Ok(DeclarationView { doc: render_spec(name, kind, docs), entry }),
        Err(msg) => Err((Severity::Error, tagged(prefix, msg))),
    }
}

/// The whole expansion: load the implementation file, extract its
/// configuration record's documentation, then dispatch on the kind.
pub open spec fn exec_spec(args: Args, env: ExecEnv, source: ImplSource, path: Seq<char>) -> Result<
    DeclarationView,
    (Severity, Seq<char>),
> {
    let prefix = env.logr.prefix@;
    match source {
        ImplSource::Missing => Err((Severity::Abort, tagged(prefix, missing_msg(args.name@, path)))),
        ImplSource::Unparsable(e) => Err(
            (Severity::Abort, tagged(prefix, unparsable_msg(args.name@, e@))),
        ),
        ImplSource::Parsed(f) => match extract_spec(f.items@, env.exec_args_ident@) {
            Err(e) => Err(
                (
                    Severity::Abort,
                    tagged(prefix, extract_error_msg(e, env.exec_args_ident@, args.name@)),
                ),
            ),
            Ok(docs) => dispatch_spec(
                args.kind@,
                args.name@,
                receiver_view(args.receiver),
                docs,
                prefix,
            ),
        },
    }
}

/// The declaration of the macro configured by `args`, documented by `docs`.
pub fn dispatch(args: &Args, docs: &Vec<FieldDoc>, env: &ExecEnv) -> (r: Result<
    Declaration,
    Diagnostic,
>)
    ensures
        result_view(r) == dispatch_spec(
            args.kind@,
            args.name@,
            receiver_view(args.receiver),
            docs_view(docs@),
            env.logr.prefix@,
        ),
{
    let entry = match MacroKind::from_ident(args.kind.as_str()) {
        None => {
            let msg = String::from_str("Unsupported MacroKind `").concat(args.kind.as_str()).concat(
                "`, expected `Func`, `Attr` or `Derive`",
            );
            return Err(env.logr.emit_call_site_error(msg.as_str()));
        },
        Some(MacroKind::Func) => EntryPoint::Func { name: args.name.clone() },
        Some(MacroKind::Attr) => match &args.receiver {
            Some(receiver) => EntryPoint::Attr { name: args.name.clone(), receiver: receiver.clone() },
            None => {
                let msg = String::from_str("Attribute macro `").concat(args.name.as_str()).concat(
                    "` needs a `receiver`",
                );
                return Err(env.logr.emit_call_site_error(msg.as_str()));
            },
        },
        Some(MacroKind::Derive) => EntryPoint::Derive {
            name: args.name.clone(),
            derive_name: pascal_case(args.name.as_str()),
        },
    };
    let doc = render_doc(args.name.as_str(), args.kind.as_str(), docs);
    Ok(Declaration { doc, entry })
}

/// Expands the meta-macro: `source` is what came of reading `path`, the
/// implementation file of the declared macro.
pub fn exec(args: &Args, env: &ExecEnv, source: ImplSource, path: &FsPath) -> (r: Result<
    Declaration,
    Diagnostic,
>)
    ensures
        result_view(r) == exec_spec(*args, *env, source, path.text()),
{
    let file = match get_macro_impl_file_ast(source, path, args.name.as_str(), env) {
        Ok(f) => f,
        Err(g) => {
            return Err(g);
        },
    };
    let docs = match get_args_fields_doc(&file, args.name.as_str(), env) {
        Ok(d) => d,
        Err(g) => {
            return Err(g);
        },
    };
    dispatch(args, &docs, env)
}

} // verus!

verus! {

/// The kind of macro an entry point registers.
pub open spec fn entry_kind(e: EntryView) -> MacroKind {
    match e {
        EntryView::Func { .. } => MacroKind::Func,
        EntryView::Attr { .. } => MacroKind::Attr,
        EntryView::Derive { .. } => MacroKind::Derive,
    }
}

/// The name of the function an entry point declares.
pub open spec fn entry_name(e: EntryView) -> Seq<char> {
    match e {
        EntryView::Func { name } => name,
        EntryView::Attr { name, .. } => name,
        EntryView::Derive { name, .. } => name,
    }
}

/// Every valid registration (a known kind, with a receiver when it is an
/// attribute) declares exactly one entry point, of the requested kind and
/// name, documented by one bullet per configuration entry in order.
pub proof fn lemma_dispatch_valid(
    kind: Seq<char>,
    name: Seq<char>,
    receiver: Option<Seq<char>>,
    docs: Seq<FieldDocView>,
    prefix: Seq<char>,
)
    requires
        kind_of(kind) is Some,
        kind_of(kind) == Some(MacroKind::Attr) ==> receiver is Some,
    ensures
        dispatch_spec(kind, name, receiver, docs, prefix) matches Ok(d) && entry_kind(d.entry)
            == kind_of(kind)->0 && entry_name(d.entry) == name && d.doc == render_spec(
            name,
            kind,
            docs,
        ) && d.doc.len() == docs.len() + 3 && forall|i: int|
            0 <= i < docs.len() ==> d.doc[i + 2] == bullet(#[trigger] docs[i]),
{
    lemma_render_lists_every_entry(name, kind, docs);
}

} // verus!
