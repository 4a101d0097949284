//! The `edoc` macro: documentation assembled from string literals and
//! the string, boolean or byte-string constants of a source file.
use vstd::prelude::*;
use crate::fs::FsPath;
use crate::logr::{Diagnostic, Severity, tagged};
use crate::megamac::ExecEnv;
use syn::{Expr, ExprLit, ItemConst, Lit};
use crate::text::{bytes_text, has_prefix, show_bytes, trim, trimmed_of};

verus! {

/// The initializer of a constant item.
#[derive(Debug)]
pub enum ConstInit {
    Str(String),
    Bool(bool),
    ByteStr(Vec<u8>),
    /// Any other expression, written out for the user.
    Other(String),
}

pub enum ConstInitView {
    Str(Seq<char>),
    Bool(bool),
    ByteStr(Seq<u8>),
    /// Any other expression; how it is written out is not part of the view.
    Other,
}

impl View for ConstInit {
    type V = ConstInitView;

    open spec fn view(&self) -> ConstInitView {
        match self {
            ConstInit::Str(s) => ConstInitView::Str(s@),
            ConstInit::Bool(b) => ConstInitView::Bool(*b),
            ConstInit::ByteStr(v) => ConstInitView::ByteStr(v@),
            ConstInit::Other(_) => ConstInitView::Other,
        }
    }
}

/// A constant item: its name and initializer.
#[derive(Debug)]
pub struct ConstDecl {
    pub name: String,
    pub init: ConstInit,
}

pub struct ConstDeclView {
    pub name: Seq<char>,
    pub init: ConstInitView,
}

impl View for ConstDecl {
    type V = ConstDeclView;

    open spec fn view(&self) -> ConstDeclView {
        ConstDeclView { name: self.name@, init: self.init@ }
    }
}

/// What `syn` parses out of `line` as a constant item, if it is one: its
/// name, and the value of its initializer when that is a string, boolean
/// or byte-string literal.
pub uninterp spec fn const_item_of(line: Seq<char>) -> Option<ConstDeclView>;

/// Relies on `syn::parse_str::<syn::ItemConst>`: parses one line as a
/// constant item. Whether it parses, the name, and which literal the
/// initializer is depend on the line alone; the text written out for any
/// other initializer may carry the compiler's span details and is left
/// unconstrained.
#[verifier::external_body]
fn parse_const_item(line: &str) -> (r: Option<ConstDecl>)
    ensures
        match r {
            Some(d) => const_item_of(line@) == Some(d@),
            None => const_item_of(line@) is None,
        },
{
    let item = syn::parse_str::<ItemConst>(line).ok()?;
    let init = match *item.expr {
        Expr::Lit(ExprLit { lit: Lit::Str(l), .. }) => ConstInit::Str(l.value()),
        Expr::Lit(ExprLit { lit: Lit::Bool(l), .. }) => ConstInit::Bool(l.value),
        Expr::Lit(ExprLit { lit: Lit::ByteStr(l), .. }) => ConstInit::ByteStr(l.value()),
        x => ConstInit::Other(format!("{x:?}")),
    };
    Some(ConstDecl { name: item.ident.to_string(), init })
}

/// The text a constant stands for: a string as it is, a boolean as
/// `true` or `false`, a byte string as its list of bytes; `None` for
/// any other initializer.
pub open spec fn const_text(init: ConstInitView) -> Option<Seq<char>> {
    match init {
        ConstInitView::Str(s) => Some(s),
        ConstInitView::Bool(b) => Some(if b { "true"@ } else { "false"@ }),
        ConstInitView::ByteStr(v) => Some(bytes_text(v)),
        ConstInitView::Other => None,
    }
}

/// The text a constant's initializer stands for.
pub fn const_value(init: &ConstInit) -> (r: Option<String>)
    ensures
        match const_text(init@) {
            Some(t) => r matches Some(s) && s@ == t,
            None => r is None,
        },
{
    match init {
        ConstInit::Str(s) => Some(s.clone()),
        ConstInit::Bool(b) => Some(
            if *b {
                String::from_str("true")
            } else {
                String::from_str("false")
            },
        ),
        ConstInit::ByteStr(v) => Some(show_bytes(v)),
        ConstInit::Other(_) => None,
    }
}

/// Whether a line declares a constant: once trimmed, it begins with `const`.
pub open spec fn is_const_line(line: Seq<char>) -> bool {
    "const"@.is_prefix_of(trimmed_of(line))
}

pub open spec fn unparsable_const_msg(line: Seq<char>) -> Seq<char> {
    "Failed to parse const item at `"@ + line + "`"@
}

pub open spec fn unsupported_const_msg(expr: Seq<char>, line: Seq<char>) -> Seq<char> {
    "Unexpected const item expression here, expected literal or `concat!` (NOT YET SUPPORTED) invocation, received: `"@
        + expr + "` at `"@ + line + "`"@
}

/// Why a line's constant cannot be resolved, with the line.
pub enum ResolveFailure {
    /// The line begins with `const` but is no constant item.
    Unparsable(Seq<char>),
    /// The constant's initializer is not a supported literal.
    Unsupported(Seq<char>),
}

/// `msg` reports `f` under `prefix`. For an unsupported initializer the
/// message shows the expression as the parser writes it out, which is
/// not fixed here.
pub open spec fn resolve_failure_reported(f: ResolveFailure, prefix: Seq<char>, msg: Seq<char>) -> bool {
    match f {
        ResolveFailure::Unparsable(line) => msg == tagged(prefix, unparsable_const_msg(line)),
        ResolveFailure::Unsupported(line) => reports_unsupported(prefix, line, msg),
    }
}

/// `msg` reports, under `prefix`, an unsupported initializer of `line`,
/// however the parser wrote the initializer out.
pub open spec fn reports_unsupported(prefix: Seq<char>, line: Seq<char>, msg: Seq<char>) -> bool {
    exists|x: Seq<char>| #[trigger] shows_unsupported(prefix, x, line, msg)
}

/// `msg` reports, under `prefix`, the unsupported initializer `x` of `line`.
pub open spec fn shows_unsupported(prefix: Seq<char>, x: Seq<char>, line: Seq<char>, msg: Seq<char>) -> bool {
    msg == tagged(prefix, unsupported_const_msg(x, line))
}

/// The constants of `lines`, read in order, a later one of a name
/// replacing an earlier one; or the failure of the first line that
/// declares a constant this cannot resolve.
pub open spec fn resolve_spec(lines: Seq<Seq<char>>) -> Result<
    Map<Seq<char>, Seq<char>>,
    ResolveFailure,
>
    decreases lines.len(),
{
    if lines.len() == 0 {
        Ok(Map::empty())
    } else {
        match resolve_spec(lines.drop_last()) {
            Err(e) => Err(e),
            Ok(m) => resolve_line(m, lines.last()),
        }
    }
}

/// One line's effect on the constants resolved so far.
pub open spec fn resolve_line(m: Map<Seq<char>, Seq<char>>, line: Seq<char>) -> Result<
    Map<Seq<char>, Seq<char>>,
    ResolveFailure,
> {
    if !is_const_line(line) {
        Ok(m)
    } else {
        match const_item_of(line) {
            None => Err(ResolveFailure::Unparsable(line)),
            Some(d) => match const_text(d.init) {
                Some(t) => Ok(m.insert(d.name, t)),
                None => Err(ResolveFailure::Unsupported(line)),
            },
        }
    }
}

/// A constant's name and the text it stands for.
#[derive(Debug)]
pub struct ConstEntry {
    pub name: String,
    pub value: String,
}

/// Resolved constants, one entry per name.
#[derive(Debug)]
pub struct ConstTable {
    pub entries: Vec<ConstEntry>,
}

impl ConstTable {
    /// No two entries share a name.
    pub open spec fn wf(&self) -> bool {
        forall|i: int, j: int|
            0 <= i < j < self.entries@.len() ==> #[trigger] self.entries@[i].name@
                != #[trigger] self.entries@[j].name@
    }

    /// Each name and the text it stands for.
    pub open spec fn view(&self) -> Map<Seq<char>, Seq<char>> {
        Map::new(
            |k: Seq<char>| exists|i: int| 0 <= i < self.entries@.len() && self.entries@[i].name@ == k,
            |k: Seq<char>|
                self.entries@[choose|i: int|
                    0 <= i < self.entries@.len() && self.entries@[i].name@ == k].value@,
        )
    }

    pub fn new() -> (r: ConstTable)
        ensures
            r.wf(),
            r.view() =~= Map::<Seq<char>, Seq<char>>::empty(),
    {
        ConstTable { entries: Vec::new() }
    }

    /// The position of the entry named `name`.
    fn position(&self, name: &String) -> (r: Option<usize>)
        requires
            self.wf(),
        ensures
            match r {
                Some(i) => i < self.entries@.len() && self.entries@[i as int].name@ == name@,
                None => forall|j: int|
                    0 <= j < self.entries@.len() ==> #[trigger] self.entries@[j].name@ != name@,
            },
    {
        let n = self.entries.len();
        let mut i: usize = 0;
        while i < n
            invariant
                n == self.entries@.len(),
                i <= n,
                forall|j: int| 0 <= j < i ==> #[trigger] self.entries@[j].name@ != name@,
            decreases n - i,
        {
            if self.entries[i].name == *name {
                return Some(i);
            }
            i = i + 1;
        }
        None
    }

    /// The text of the constant `name`.
    pub fn get(&self, name: &String) -> (r: Option<String>)
        requires
            self.wf(),
        ensures
            match r {
                Some(v) => self.view().contains_key(name@) && self.view()[name@] == v@,
                None => !self.view().contains_key(name@),
            },
    {
        match self.position(name) {
            Some(i) => {
                proof {
                    let c = choose|c: int|
                        0 <= c < self.entries@.len() && self.entries@[c].name@ == name@;
                    if c != i as int {
                        if c < i {
                            assert(self.entries@[c].name@ != self.entries@[i as int].name@);
                        } else {
                            assert(self.entries@[i as int].name@ != self.entries@[c].name@);
                        }
                    }
                }
                Some(self.entries[i].value.clone())
            },
            None => None,
        }
    }

    /// Binds `name` to `value`, replacing an earlier binding of `name`.
    pub fn insert(&mut self, name: String, value: String)
        requires
            old(self).wf(),
        ensures
            final(self).wf(),
            final(self).view() =~= old(self).view().insert(name@, value@),
    {
        let ghost prev = self.view();
        match self.position(&name) {
            Some(i) => {
                self.entries.set(i, ConstEntry { name, value });
                proof {
                    assert forall|k: Seq<char>| #[trigger] self.view().contains_key(k)
                        == prev.insert(name@, value@).contains_key(k) by {
                        if exists|j: int| 0 <= j < self.entries@.len() && self.entries@[j].name@ == k {
                            let j = choose|j: int| 0 <= j < self.entries@.len() && self.entries@[j].name@ == k;
                            if j != i as int {
                                assert(old(self).entries@[j].name@ == k);
                            }
                        }
                        if exists|j: int| 0 <= j < old(self).entries@.len() && old(self).entries@[j].name@ == k {
                            let j = choose|j: int| 0 <= j < old(self).entries@.len() && old(self).entries@[j].name@ == k;
                            assert(self.entries@[j].name@ == k);
                        }
                    }
                    assert forall|k: Seq<char>| #[trigger] self.view().contains_key(k)
                        implies self.view()[k] == prev.insert(name@, value@)[k] by {
                        let c = choose|c: int| 0 <= c < self.entries@.len() && self.entries@[c].name@ == k;
                        if k == name@ {
                            if c != i as int {
                                if c < i {
                                    assert(self.entries@[c].name@ != self.entries@[i as int].name@);
                                } else {
                                    assert(self.entries@[i as int].name@ != self.entries@[c].name@);
                                }
                            }
                        } else {
                            assert(c != i as int);
                            assert(old(self).entries@[c].name@ == k);
                            let d = choose|d: int| 0 <= d < old(self).entries@.len() && old(self).entries@[d].name@ == k;
                            if c != d {
                                if c < d {
                                    assert(old(self).entries@[c].name@ != old(self).entries@[d].name@);
                                } else {
                                    assert(old(self).entries@[d].name@ != old(self).entries@[c].name@);
                                }
                            }
                        }
                    }
                }
            },
            None => {
                let ghost nm = name@;
                let ghost vl = value@;
                self.entries.push(ConstEntry { name, value });
                proof {
                    let n = old(self).entries@.len();
                    assert(self.entries@[n as int].name@ == nm);
                    assert forall|k: Seq<char>| #[trigger] self.view().contains_key(k)
                        == prev.insert(nm, vl).contains_key(k) by {
                        if k == nm {
                            assert(self.entries@[n as int].name@ == k);
                        }
                        if exists|j: int| 0 <= j < old(self).entries@.len() && old(self).entries@[j].name@ == k {
                            let j = choose|j: int| 0 <= j < old(self).entries@.len() && old(self).entries@[j].name@ == k;
                            assert(self.entries@[j].name@ == k);
                        }
                        if exists|j: int| 0 <= j < self.entries@.len() && self.entries@[j].name@ == k {
                            let j = choose|j: int| 0 <= j < self.entries@.len() && self.entries@[j].name@ == k;
                            if j < n {
                                assert(old(self).entries@[j].name@ == k);
                            }
                        }
                    }
                    assert forall|k: Seq<char>| #[trigger] self.view().contains_key(k)
                        implies self.view()[k] == prev.insert(nm, vl)[k] by {
                        let c = choose|c: int| 0 <= c < self.entries@.len() && self.entries@[c].name@ == k;
                        if k == nm {
                            assert(c == n);
                        } else {
                            assert(c < n);
                            assert(old(self).entries@[c].name@ == k);
                            let d = choose|d: int| 0 <= d < old(self).entries@.len() && old(self).entries@[d].name@ == k;
                            if c != d {
                                if c < d {
                                    assert(old(self).entries@[c].name@ != old(self).entries@[d].name@);
                                } else {
                                    assert(old(self).entries@[d].name@ != old(self).entries@[c].name@);
                                }
                            }
                        }
                    }
                }
            },
        }
    }
}

} // verus!

verus! {

pub open spec fn lines_of(v: Seq<String>) -> Seq<Seq<char>> {
    v.map_values(|s: String| s@)
}

proof fn lemma_resolve_err_sticks(lines: Seq<Seq<char>>, i: int)
    requires
        0 <= i <= lines.len(),
        resolve_spec(lines.take(i)) is Err,
    ensures
        resolve_spec(lines) == resolve_spec(lines.take(i)),
    decreases lines.len(),
{
    if lines.len() == i {
        assert(lines.take(i) =~= lines);
    } else {
        assert(lines.drop_last().take(i) =~= lines.take(i));
        lemma_resolve_err_sticks(lines.drop_last(), i);
    }
}

/// The constants declared in `lines`, the lines of a source file. A line
/// that declares a constant that cannot be parsed, or whose initializer is
/// not a string, boolean or byte-string literal, aborts the expansion.
pub fn resolve_consts(lines: &Vec<String>, env: &ExecEnv) -> (r: Result<ConstTable, Diagnostic>)
    ensures
        match resolve_spec(lines_of(lines@)) {
            Ok(m) => r matches Ok(t) && t.wf() && t.view() == m,
            Err(f) => r matches Err(g) && g.severity == Severity::Abort && resolve_failure_reported(
                f,
                env.logr.prefix@,
                g.message@,
            ),
        },
{
    let mut table = ConstTable::new();
    let ghost all = lines_of(lines@);
    let n = lines.len();
    let mut i: usize = 0;
    while i < n
        invariant
            n == lines@.len(),
            i <= n,
            all == lines_of(lines@),
            table.wf(),
            resolve_spec(all.take(i as int)) == Ok::<Map<Seq<char>, Seq<char>>, ResolveFailure>(
                table.view(),
            ),
        decreases n - i,
    {
        let line = &lines[i];
        proof {
            assert(all.take(i + 1).drop_last() =~= all.take(i as int));
            assert(all.take(i + 1).last() == line@);
        }
        let trimmed = trim(line.as_str());
        if has_prefix(trimmed.as_str(), "const") {
            match parse_const_item(line.as_str()) {
                None => {
                    let msg = String::from_str("Failed to parse const item at `").concat(
                        line.as_str(),
                    ).concat("`");
                    proof {
                        lemma_resolve_err_sticks(all, i + 1);
                    }
                    return Err(env.logr.abort_call_site(msg.as_str()));
                },
                Some(d) => match const_value(&d.init) {
                    Some(v) => {
                        table.insert(d.name, v);
                    },
                    None => {
                        let shown = match &d.init {
                            ConstInit::Other(x) => x.clone(),
                            _ => String::new(),
                        };
                        let msg = String::from_str(
                            "Unexpected const item expression here, expected literal or `concat!` (NOT YET SUPPORTED) invocation, received: `",
                        ).concat(shown.as_str()).concat("` at `").concat(line.as_str()).concat(
                            "`",
                        );
                        let g = env.logr.abort_call_site(msg.as_str());
                        proof {
                            lemma_resolve_err_sticks(all, i + 1);
                            assert(shows_unsupported(env.logr.prefix@, shown@, line@, g.message@));
                            assert(all.take(i + 1).last() == line@);
                            assert(resolve_spec(all) == Err::<Map<Seq<char>, Seq<char>>, ResolveFailure>(
                                ResolveFailure::Unsupported(line@),
                            ));
                            assert(resolve_failure_reported(
                                ResolveFailure::Unsupported(line@),
                                env.logr.prefix@,
                                g.message@,
                            ));
                        }
                        return Err(g);
                    },
                },
            }
        }
        i = i + 1;
    }
    proof {
        assert(all.take(n as int) =~= all);
    }
    Ok(table)
}

} // verus!

verus! {

/// An element of an `edoc` concatenation tuple.
#[derive(Debug)]
pub enum ConcatElem {
    /// A string literal, by its value.
    Lit(String),
    /// A path, by its first segment: the name of a constant.
    Ident(String),
    Other,
}

/// The expression given to `edoc`.
#[derive(Debug)]
pub enum ConcatExpr {
    Tuple(Vec<ConcatElem>),
    Other,
}

/// The text of a concatenation, and the constant names it could not resolve.
#[derive(Debug)]
pub struct Evaluated {
    pub text: String,
    pub unresolved: Vec<String>,
}

/// The concatenation of `elems` under the constants `m`: literals as they
/// are, a known constant as its text, an unknown one skipped and
/// recorded; `None` when an element is neither.
pub open spec fn eval_elems(elems: Seq<ConcatElem>, m: Map<Seq<char>, Seq<char>>) -> Option<
    (Seq<char>, Seq<Seq<char>>),
>
    decreases elems.len(),
{
    if elems.len() == 0 {
        Some((Seq::empty(), Seq::empty()))
    } else {
        match eval_elems(elems.drop_last(), m) {
            None => None,
            Some((t, u)) => match elems.last() {
                ConcatElem::Lit(s) => Some((t + s@, u)),
                ConcatElem::Ident(x) => if m.contains_key(x@) {
                    Some((t + m[x@], u))
                } else {
                    Some((t, u.push(x@)))
                },
                ConcatElem::Other => None,
            },
        }
    }
}

pub open spec fn unsupported_elem_msg() -> Seq<char> {
    "Unsupported tuple element, only string literal or ident of a const string"@
}

pub open spec fn not_tuple_msg() -> Seq<char> {
    "Only Tuple supported, maybe you are missing a second element"@
}

pub open spec fn unresolved_msg(name: Seq<char>) -> Seq<char> {
    "Unresolved const ident `"@ + name + "`"@
}

/// What a concatenation evaluates to, or the message that aborts it.
pub open spec fn eval_spec(expr: ConcatExpr, m: Map<Seq<char>, Seq<char>>) -> Result<
    (Seq<char>, Seq<Seq<char>>),
    Seq<char>,
> {
    match expr {
        ConcatExpr::Tuple(elems) => match eval_elems(elems@, m) {
            Some(p) => Ok(p),
            None => Err(unsupported_elem_msg()),
        },
        ConcatExpr::Other => Err(not_tuple_msg()),
    }
}

proof fn lemma_eval_none_sticks(elems: Seq<ConcatElem>, m: Map<Seq<char>, Seq<char>>, i: int)
    requires
        0 <= i <= elems.len(),
        eval_elems(elems.take(i), m) is None,
    ensures
        eval_elems(elems, m) is None,
    decreases elems.len(),
{
    if elems.len() == i {
        assert(elems.take(i) =~= elems);
    } else {
        assert(elems.drop_last().take(i) =~= elems.take(i));
        lemma_eval_none_sticks(elems.drop_last(), m, i);
    }
}

/// Evaluates an `edoc` concatenation under the constants of `table`.
/// Anything but a tuple, or a tuple element that is neither a string
/// literal nor a constant's name, aborts the expansion.
pub fn evaluate_concat(expr: &ConcatExpr, table: &ConstTable, env: &ExecEnv) -> (r: Result<
    Evaluated,
    Diagnostic,
>)
    requires
        table.wf(),
    ensures
        match eval_spec(*expr, table.view()) {
            Ok((t, u)) => r matches Ok(e) && e.text@ == t && e.unresolved@.map_values(
                |s: String| s@,
            ) == u,
            Err(msg) => r matches Err(g) && g@ == (Severity::Abort, tagged(env.logr.prefix@, msg)),
        },
{
    let elems = match expr {
        ConcatExpr::Tuple(elems) => elems,
        ConcatExpr::Other => {
            return Err(
                env.logr.abort_call_site(
                    "Only Tuple supported, maybe you are missing a second element",
                ),
            );
        },
    };
    let ghost m = table.view();
    let mut text = String::new();
    let mut unresolved: Vec<String> = Vec::new();
    let n = elems.len();
    let mut i: usize = 0;
    while i < n
        invariant
            n == elems@.len(),
            i <= n,
            m == table.view(),
            table.wf(),
            *expr matches ConcatExpr::Tuple(es) && es@ == elems@,
            eval_elems(elems@.take(i as int), m) == Some(
                (text@, unresolved@.map_values(|s: String| s@)),
            ),
        decreases n - i,
    {
        proof {
            assert(elems@.take(i + 1).drop_last() =~= elems@.take(i as int));
            assert(elems@.take(i + 1).last() == elems@[i as int]);
        }
        let ghost u0 = unresolved@;
        match &elems[i] {
            ConcatElem::Lit(s) => {
                text.append(s.as_str());
            },
            ConcatElem::Ident(x) => match table.get(x) {
                Some(v) => {
                    text.append(v.as_str());
                },
                None => {
                    unresolved.push(x.clone());
                    proof {
                        assert(unresolved@.map_values(|s: String| s@) =~= u0.map_values(
                            |s: String| s@,
                        ).push(x@));
                    }
                },
            },
            ConcatElem::Other => {
                proof {
                    assert(elems@.take(i + 1).last() is Other);
                    assert(eval_elems(elems@.take(i + 1), m) is None);
                    lemma_eval_none_sticks(elems@, m, i + 1);
                    assert(eval_elems(elems@, m) is None);
                }
                return Err(
                    env.logr.abort_call_site(
                        "Unsupported tuple element, only string literal or ident of a const string",
                    ),
                );
            },
        }
        i = i + 1;
    }
    proof {
        assert(elems@.take(n as int) =~= elems@);
    }
    Ok(Evaluated { text, unresolved })
}

/// The recoverable error for a constant name that no line declares.
pub fn unresolved_error(name: &str, env: &ExecEnv) -> (r: Diagnostic)
    ensures
        r@ == (Severity::Error, tagged(env.logr.prefix@, unresolved_msg(name@))),
{
    let msg = String::from_str("Unresolved const ident `").concat(name).concat("`");
    env.logr.emit_call_site_error(msg.as_str())
}

} // verus!

verus! {

/// The file of the module named by `segments` under `src_dir`:
/// `<src_dir>/<seg>/.../<last seg>.rs`; `None` for an empty path.
pub open spec fn call_site_parts(src_dir: Seq<Seq<char>>, segments: Seq<Seq<char>>) -> Option<
    Seq<Seq<char>>,
> {
    if segments.len() == 0 {
        None
    } else {
        Some(src_dir + segments.drop_last().push(segments.last() + ".rs"@))
    }
}

/// The source file of the module `a::b::c` under `src_dir`:
/// `<src_dir>/a/b/c.rs`.
pub fn call_site_file_path_from_syn_path(src_dir: &FsPath, segments: &Vec<String>) -> (r: Option<
    FsPath,
>)
    ensures
        match call_site_parts(src_dir.parts_view(), segments@.map_values(|s: String| s@)) {
            Some(p) => r matches Some(f) && f.absolute == src_dir.absolute && f.parts_view() == p,
            None => r is None,
        },
{
    let n = segments.len();
    if n == 0 {
        return None;
    }
    let ghost segs = segments@.map_values(|s: String| s@);
    let mut path = FsPath { absolute: src_dir.absolute, parts: src_dir.parts.clone() };
    let mut i: usize = 0;
    while i + 1 < n
        invariant
            n == segments@.len(),
            n > 0,
            i < n,
            segs == segments@.map_values(|s: String| s@),
            path.absolute == src_dir.absolute,
            path.parts_view() =~= src_dir.parts_view() + segs.take(i as int),
        decreases n - i,
    {
        path = path.join(segments[i].as_str());
        proof {
            assert(segs.take(i + 1) =~= segs.take(i as int).push(segs[i as int]));
        }
        i = i + 1;
    }
    let file = segments[n - 1].clone().concat(".rs");
    let r = path.join(file.as_str());
    proof {
        assert(segs.drop_last() =~= segs.take(i as int));
        assert(r.parts_view() =~= src_dir.parts_view() + segs.drop_last().push(segs.last() + ".rs"@));
    }
    Some(r)
}

} // verus!

verus! {

/// An attribute of a field, as far as `edoc` reads it: a list-style
/// attribute `#[name(..)]` by its first path segment, or anything else.
#[derive(Debug)]
pub enum AttrHead {
    List(String),
    Other,
}

pub open spec fn is_list_named(a: AttrHead, name: Seq<char>) -> bool {
    match a {
        AttrHead::List(n) => n@ == name,
        AttrHead::Other => false,
    }
}

/// The position of the first `#[name(..)]` attribute among `attrs`.
pub open spec fn first_list_named(attrs: Seq<AttrHead>, name: Seq<char>) -> Option<int> {
    if exists|i: int|
        0 <= i < attrs.len() && is_list_named(#[trigger] attrs[i], name) && forall|j: int|
            0 <= j < i ==> !is_list_named(attrs[j], name) {
        Some(
            choose|i: int|
                0 <= i < attrs.len() && is_list_named(#[trigger] attrs[i], name) && forall|j: int|
                    0 <= j < i ==> !is_list_named(attrs[j], name),
        )
    } else {
        None
    }
}

/// The position of the first `#[name(..)]` attribute among `attrs`.
pub fn find_list_attr(attrs: &Vec<AttrHead>, name: &String) -> (r: Option<usize>)
    ensures
        match r {
            Some(i) => first_list_named(attrs@, name@) == Some(i as int),
            None => first_list_named(attrs@, name@) is None,
        },
{
    let n = attrs.len();
    let mut i: usize = 0;
    while i < n
        invariant
            n == attrs@.len(),
            i <= n,
            forall|j: int| 0 <= j < i ==> !is_list_named(#[trigger] attrs@[j], name@),
        decreases n - i,
    {
        let hit = match &attrs[i] {
            AttrHead::List(n) => *n == *name,
            AttrHead::Other => false,
        };
        if hit {
            proof {
                let k = i as int;
                let c = choose|c: int|
                    0 <= c < attrs@.len() && is_list_named(#[trigger] attrs@[c], name@) && forall|
                        j: int,
                    | 0 <= j < c ==> !is_list_named(attrs@[j], name@);
                if c > k {
                    assert(!is_list_named(attrs@[k], name@));
                }
            }
            return Some(i);
        }
        i = i + 1;
    }
    None
}

/// Which attribute of each field becomes a `#[doc]` attribute, with which
/// text: the first `#[edoc(..)]` of each field that has one, the fields
/// taken in order and given the texts `docs` in order; also how many texts
/// were used. `None` when the texts run out.
pub open spec fn replacement_plan(fields: Seq<Seq<AttrHead>>, docs: Seq<Seq<char>>) -> Option<
    (Seq<Option<(int, Seq<char>)>>, int),
>
    decreases fields.len(),
{
    if fields.len() == 0 {
        Some((Seq::empty(), 0))
    } else {
        match replacement_plan(fields.drop_last(), docs) {
            None => None,
            Some((p, k)) => match first_list_named(fields.last(), "edoc"@) {
                None => Some((p.push(None), k)),
                Some(pos) => if 0 <= k < docs.len() {
                    Some((p.push(Some((pos, docs[k]))), k + 1))
                } else {
                    None
                },
            },
        }
    }
}

pub open spec fn plan_view(v: Seq<Option<(usize, String)>>) -> Seq<Option<(int, Seq<char>)>> {
    v.map_values(
        |o: Option<(usize, String)>|
            match o {
                Some((i, s)) => Some((i as int, s@)),
                None => None,
            },
    )
}

pub open spec fn missing_doc_msg() -> Seq<char> {
    "No evaluated documentation left for an `edoc` attribute"@
}

proof fn lemma_plan_none_sticks(fields: Seq<Seq<AttrHead>>, docs: Seq<Seq<char>>, i: int)
    requires
        0 <= i <= fields.len(),
        replacement_plan(fields.take(i), docs) is None,
    ensures
        replacement_plan(fields, docs) is None,
    decreases fields.len(),
{
    if fields.len() == i {
        assert(fields.take(i) =~= fields);
    } else {
        assert(fields.drop_last().take(i) =~= fields.take(i));
        lemma_plan_none_sticks(fields.drop_last(), docs, i);
    }
}

/// For each field, the position of the `#[edoc(..)]` attribute to replace
/// by a `#[doc]` attribute and the text of that attribute. Running out of
/// texts aborts the expansion.
pub fn rm_item_fields_attrs(fields: &Vec<Vec<AttrHead>>, docs: &Vec<String>, env: &ExecEnv) -> (r:
    Result<Vec<Option<(usize, String)>>, Diagnostic>)
    ensures
        match replacement_plan(
            fields@.map_values(|v: Vec<AttrHead>| v@),
            docs@.map_values(|s: String| s@),
        ) {
            Some((p, _)) => r matches Ok(v) && plan_view(v@) == p,
            None => r matches Err(g) && g@ == (
                Severity::Abort,
                tagged(env.logr.prefix@, missing_doc_msg()),
            ),
        },
{
    let ghost dv = docs@.map_values(|s: String| s@);
    let ghost fv = fields@.map_values(|v: Vec<AttrHead>| v@);
    let edoc = String::from_str("edoc");
    let mut plan: Vec<Option<(usize, String)>> = Vec::new();
    let mut used: usize = 0;
    let n = fields.len();
    let mut i: usize = 0;
    while i < n
        invariant
            n == fields@.len(),
            i <= n,
            edoc@ == "edoc"@,
            dv == docs@.map_values(|s: String| s@),
            fv == fields@.map_values(|v: Vec<AttrHead>| v@),
            used <= docs@.len(),
            replacement_plan(fv.take(i as int), dv) == Some(
                (plan_view(plan@), used as int),
            ),
        decreases n - i,
    {
        proof {
            assert(fv.take(i + 1).drop_last() =~= fv.take(i as int));
            assert(fv.take(i + 1).last() == fields@[i as int]@);
        }
        let ghost before = plan@;
        match find_list_attr(&fields[i], &edoc) {
            None => {
                plan.push(None);
                proof {
                    assert(plan@ =~= before.push(None));
                    assert(plan_view(plan@) =~= plan_view(before).push(None));
                }
            },
            Some(pos) => {
                if used >= docs.len() {
                    proof {
                        lemma_plan_none_sticks(fv, dv, i + 1);
                    }
                    return Err(
                        env.logr.abort_call_site(
                            "No evaluated documentation left for an `edoc` attribute",
                        ),
                    );
                }
                let entry = Some((pos, docs[used].clone()));
                plan.push(entry);
                proof {
                    assert(plan@ =~= before.push(entry));
                    assert(plan_view(plan@) =~= plan_view(before).push(
                        Some((pos as int, dv[used as int])),
                    ));
                }
                used = used + 1;
            },
        }
        i = i + 1;
    }
    proof {
        assert(fv.take(n as int) =~= fv);
    }
    Ok(plan)
}

} // verus!

verus! {

/// A field of the struct `edoc` decorates: its attributes, and the
/// expression of its first `#[edoc(expr = ..)]` attribute if it has one.
#[derive(Debug)]
pub struct EdocField {
    pub attrs: Vec<AttrHead>,
    pub concat: Option<ConcatExpr>,
}

/// The texts of the fields' concatenations, in field order, with the
/// unresolved constant names met on the way; or the message that aborts.
pub open spec fn eval_fields(fields: Seq<EdocField>, m: Map<Seq<char>, Seq<char>>) -> Result<
    (Seq<Seq<char>>, Seq<Seq<char>>),
    Seq<char>,
>
    decreases fields.len(),
{
    if fields.len() == 0 {
        Ok((Seq::empty(), Seq::empty()))
    } else {
        match eval_fields(fields.drop_last(), m) {
            Err(e) => Err(e),
            Ok((texts, unresolved)) => match fields.last().concat {
                None => Ok((texts, unresolved)),
                Some(expr) => match eval_spec(expr, m) {
                    Err(e) => Err(e),
                    Ok((t, u)) => Ok((texts.push(t), unresolved + u)),
                },
            },
        }
    }
}

/// What `edoc` does with the fields once the constants `m` are resolved:
/// the replacement plan and the unresolved names, or the aborting message.
pub open spec fn edoc_spec(m: Map<Seq<char>, Seq<char>>, fields: Seq<EdocField>) -> Result<
    (Seq<Option<(int, Seq<char>)>>, Seq<Seq<char>>),
    Seq<char>,
> {
    match eval_fields(fields, m) {
        Err(e) => Err(e),
        Ok((texts, unresolved)) => match replacement_plan(
            fields.map_values(|f: EdocField| f.attrs@),
            texts,
        ) {
            None => Err(missing_doc_msg()),
            Some((p, _)) => Ok((p, unresolved)),
        },
    }
}

/// What `edoc` decided: which attribute of each field becomes which
/// `#[doc]`, and the constant names it could not resolve.
#[derive(Debug)]
pub struct EdocOutcome {
    pub plan: Vec<Option<(usize, String)>>,
    pub unresolved: Vec<String>,
}

proof fn lemma_eval_fields_err_sticks(fields: Seq<EdocField>, m: Map<Seq<char>, Seq<char>>, i: int)
    requires
        0 <= i <= fields.len(),
        eval_fields(fields.take(i), m) is Err,
    ensures
        eval_fields(fields, m) == eval_fields(fields.take(i), m),
    decreases fields.len(),
{
    if fields.len() == i {
        assert(fields.take(i) =~= fields);
    } else {
        assert(fields.drop_last().take(i) =~= fields.take(i));
        lemma_eval_fields_err_sticks(fields.drop_last(), m, i);
    }
}

/// Expands `edoc`: resolves the constants declared in `lines`, evaluates
/// each field's concatenation, and plans the `#[doc]` attributes that
/// replace the `#[edoc]` ones. Any failure aborts the expansion.
pub fn exec(lines: &Vec<String>, fields: &Vec<EdocField>, env: &ExecEnv) -> (r: Result<
    EdocOutcome,
    Diagnostic,
>)
    ensures
        match resolve_spec(lines_of(lines@)) {
            Err(f) => r matches Err(g) && g.severity == Severity::Abort && resolve_failure_reported(
                f,
                env.logr.prefix@,
                g.message@,
            ),
            Ok(m) => match edoc_spec(m, fields@) {
                Ok((p, u)) => r matches Ok(o) && plan_view(o.plan@) == p
                    && o.unresolved@.map_values(|s: String| s@) == u,
                Err(e) => r matches Err(g) && g@ == (Severity::Abort, tagged(env.logr.prefix@, e)),
            },
        },
{
    let table = match resolve_consts(lines, env) {
        Ok(t) => t,
        Err(g) => {
            return Err(g);
        },
    };
    let ghost m = table.view();
    let mut texts: Vec<String> = Vec::new();
    let mut unresolved: Vec<String> = Vec::new();
    let mut heads: Vec<Vec<AttrHead>> = Vec::new();
    let n = fields.len();
    let mut i: usize = 0;
    proof {
        assert(fields@.take(0) =~= Seq::<EdocField>::empty());
        assert(texts@.map_values(|s: String| s@) =~= Seq::<Seq<char>>::empty());
        assert(unresolved@.map_values(|s: String| s@) =~= Seq::<Seq<char>>::empty());
        assert(heads@.map_values(|v: Vec<AttrHead>| v@) =~= Seq::<Seq<AttrHead>>::empty());
    }
    while i < n
        invariant
            n == fields@.len(),
            i <= n,
            table.wf(),
            m == table.view(),
            resolve_spec(lines_of(lines@)) == Ok::<Map<Seq<char>, Seq<char>>, ResolveFailure>(m),
            heads@.map_values(|v: Vec<AttrHead>| v@) == fields@.take(i as int).map_values(
                |f: EdocField| f.attrs@,
            ),
            eval_fields(fields@.take(i as int), m) == Ok::<
                (Seq<Seq<char>>, Seq<Seq<char>>),
                Seq<char>,
            >((texts@.map_values(|s: String| s@), unresolved@.map_values(|s: String| s@))),
        decreases n - i,
    {
        proof {
            assert(fields@.take(i + 1).drop_last() =~= fields@.take(i as int));
            assert(fields@.take(i + 1).last() == fields@[i as int]);
        }
        let field = &fields[i];
        let ghost t0 = texts@;
        let ghost u0 = unresolved@;
        match &field.concat {
            None => {},
            Some(expr) => match evaluate_concat(expr, &table, env) {
                Err(g) => {
                    proof {
                        lemma_eval_fields_err_sticks(fields@, m, i + 1);
                    }
                    return Err(g);
                },
                Ok(ev) => {
                    let ghost ev_u = ev.unresolved@;
                    let Evaluated { text, unresolved: mut more } = ev;
                    texts.push(text);
                    unresolved.append(&mut more);
                    proof {
                        assert(texts@.map_values(|s: String| s@) =~= t0.map_values(|s: String| s@).push(text@));
                        assert(unresolved@ =~= u0 + ev_u);
                        assert(unresolved@.map_values(|s: String| s@) =~= u0.map_values(|s: String| s@)
                            + ev_u.map_values(|s: String| s@));
                    }
                },
            },
        }
        let ghost h0 = heads@;
        let copied = clone_heads(&field.attrs);
        heads.push(copied);
        proof {
            assert(heads@ =~= h0.push(copied));
            assert(heads@.map_values(|v: Vec<AttrHead>| v@) =~= h0.map_values(|v: Vec<AttrHead>| v@).push(copied@));
            assert(fields@.take(i + 1).map_values(|f: EdocField| f.attrs@) =~= fields@.take(
                i as int,
            ).map_values(|f: EdocField| f.attrs@).push(fields@[i as int].attrs@));
        }
        i = i + 1;
    }
    proof {
        assert(fields@.take(n as int) =~= fields@);
    }
    match rm_item_fields_attrs(&heads, &texts, env) {
        Ok(plan) => Ok(EdocOutcome { plan, unresolved }),
        Err(g) => Err(g),
    }
}

fn clone_heads(attrs: &Vec<AttrHead>) -> (r: Vec<AttrHead>)
    ensures
        r@ == attrs@,
{
    let mut r: Vec<AttrHead> = Vec::new();
    let n = attrs.len();
    let mut i: usize = 0;
    while i < n
        invariant
            n == attrs@.len(),
            i <= n,
            r@ == attrs@.take(i as int),
        decreases n - i,
    {
        let h = match &attrs[i] {
            AttrHead::List(s) => AttrHead::List(s.clone()),
            AttrHead::Other => AttrHead::Other,
        };
        r.push(h);
        proof {
            assert(attrs@.take(i + 1) =~= attrs@.take(i as int).push(attrs@[i as int]));
        }
        i = i + 1;
    }
    proof {
        assert(attrs@.take(n as int) =~= attrs@);
    }
    r
}

} // verus!
