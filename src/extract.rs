//! Extraction of per-field documentation from a configuration record.
use vstd::prelude::*;
use crate::doc::{bullet, without_spaces};
use crate::logr::{Diagnostic, Severity, tagged};
use crate::megamac::ExecEnv;
use crate::syntax::{
    FieldModel, FieldsModel, ItemModel, SourceFile, collect_doc_values, doc_values,
    find_struct, first_struct_named,
};

verus! {

/// One documentation entry of a configuration field.
#[derive(Debug)]
pub struct FieldDoc {
    pub ident: String,
    pub doc: Option<String>,
    pub ty: String,
}

/// What a [`FieldDoc`] says, as sequences of characters.
pub struct FieldDocView {
    pub ident: Seq<char>,
    pub doc: Option<Seq<char>>,
    pub ty: Seq<char>,
}

impl View for FieldDoc {
    type V = FieldDocView;

    open spec fn view(&self) -> FieldDocView {
        FieldDocView {
            ident: self.ident@,
            doc: match self.doc {
                Some(d) => Some(d@),
                None => None,
            },
            ty: self.ty@,
        }
    }
}

pub open spec fn docs_view(v: Seq<FieldDoc>) -> Seq<FieldDocView> {
    v.map_values(|d: FieldDoc| d@)
}

/// The name of a field; empty for a positional one.
pub open spec fn field_name(f: FieldModel) -> Seq<char> {
    match f.ident {
        Some(i) => i@,
        None => Seq::empty(),
    }
}

/// The entries of one field: one per `doc` attribute, in order, or a
/// single undocumented entry when it has none.
pub open spec fn field_entries(f: FieldModel) -> Seq<FieldDocView> {
    let docs = doc_values(f.attrs@);
    if docs.len() == 0 {
        seq![FieldDocView { ident: field_name(f), doc: None, ty: f.ty@ }]
    } else {
        docs.map_values(|d: Seq<char>| FieldDocView { ident: field_name(f), doc: Some(d), ty: f.ty@ })
    }
}

/// The entries of all fields, in declaration order.
pub open spec fn fields_entries(fields: Seq<FieldModel>) -> Seq<FieldDocView>
    decreases fields.len(),
{
    if fields.len() == 0 {
        Seq::empty()
    } else {
        fields_entries(fields.drop_last()) + field_entries(fields.last())
    }
}

/// Why a configuration record yields no documentation.
#[derive(Clone, Copy, Debug, PartialEq, Eq, Structural)]
pub enum ExtractError {
    /// No struct of that name among the file's top-level items.
    MissingRecord,
    /// The struct has positional fields.
    PositionalFields,
}

/// The documentation entries of the struct `record` among `items`.
pub open spec fn extract_spec(items: Seq<ItemModel>, record: Seq<char>) -> Result<
    Seq<FieldDocView>,
    ExtractError,
> {
    match first_struct_named(items, record) {
        None => Err(ExtractError::MissingRecord),
        Some(i) => match items[i] {
            ItemModel::Struct { fields, .. } => match fields {
                FieldsModel::Named(fs) => Ok(fields_entries(fs@)),
                FieldsModel::Unnamed(_) => Err(ExtractError::PositionalFields),
                FieldsModel::Unit => Ok(Seq::empty()),
            },
            ItemModel::Other => Err(ExtractError::MissingRecord),
        },
    }
}

/// The message that reports an extraction failure.
pub open spec fn extract_error_msg(e: ExtractError, record: Seq<char>, macro_name: Seq<char>) -> Seq<
    char,
> {
    match e {
        ExtractError::MissingRecord => "Failed to find `"@ + record + "` struct in `"@ + macro_name
            + "` module"@,
        ExtractError::PositionalFields => "Only named fields supported: `"@ + record
            + "` struct in `"@ + macro_name + "` module has positional fields"@,
    }
}

fn push_field_entries(f: &FieldModel, out: &mut Vec<FieldDoc>)
    ensures
        docs_view(final(out)@) =~= docs_view(old(out)@) + field_entries(*f),
{
    let ident = match &f.ident {
        Some(i) => i.clone(),
        None => String::new(),
    };
    let docs = collect_doc_values(&f.attrs);
    let ghost start = out@;
    if docs.len() == 0 {
        out.push(FieldDoc { ident, doc: None, ty: f.ty.clone() });
        return;
    }
    let ghost dv = doc_values(f.attrs@);
    let n = docs.len();
    let mut i: usize = 0;
    while i < n
        invariant
            n == docs@.len(),
            i <= n,
            ident@ == field_name(*f),
            docs@.map_values(|s: String| s@) == dv,
            dv == doc_values(f.attrs@),
            docs_view(out@) =~= docs_view(start) + dv.take(i as int).map_values(
                |d: Seq<char>| FieldDocView { ident: field_name(*f), doc: Some(d), ty: f.ty@ },
            ),
        decreases n - i,
    {
        let ghost before = out@;
        let entry = FieldDoc { ident: ident.clone(), doc: Some(docs[i].clone()), ty: f.ty.clone() };
        proof {
            assert(docs@.map_values(|s: String| s@)[i as int] == docs@[i as int]@);
            assert(entry@ == FieldDocView { ident: field_name(*f), doc: Some(dv[i as int]), ty: f.ty@ });
        }
        out.push(entry);
        proof {
            let mk = |d: Seq<char>| FieldDocView { ident: field_name(*f), doc: Some(d), ty: f.ty@ };
            assert(dv.take(i + 1) =~= dv.take(i as int).push(dv[i as int]));
            assert(dv.take(i + 1).map_values(mk) =~= dv.take(i as int).map_values(mk).push(mk(dv[i as int])));
            assert(out@ =~= before.push(entry));
            assert(docs_view(out@) =~= docs_view(before).push(entry@));
        }
        i = i + 1;
    }
    proof {
        assert(dv.take(n as int) =~= dv);
    }
}

/// The documentation entries of `fields`, in declaration order.
pub fn collect_fields_entries(fields: &Vec<FieldModel>) -> (r: Vec<FieldDoc>)
    ensures
        docs_view(r@) == fields_entries(fields@),
{
    let mut r: Vec<FieldDoc> = Vec::new();
    let n = fields.len();
    let mut i: usize = 0;
    while i < n
        invariant
            n == fields@.len(),
            i <= n,
            docs_view(r@) == fields_entries(fields@.take(i as int)),
        decreases n - i,
    {
        proof {
            assert(fields@.take(i + 1).drop_last() =~= fields@.take(i as int));
        }
        push_field_entries(&fields[i], &mut r);
        i = i + 1;
    }
    proof {
        assert(fields@.take(n as int) =~= fields@);
    }
    r
}

/// The documentation entries of the configuration record of `env`
/// (`exec_args_ident`) in the implementation file of `macro_name`.
/// A missing record, or one with positional fields, aborts.
pub fn get_args_fields_doc(file: &SourceFile, macro_name: &str, env: &ExecEnv) -> (r: Result<
    Vec<FieldDoc>,
    Diagnostic,
>)
    ensures
        match extract_spec(file.items@, env.exec_args_ident@) {
            Ok(d) => r matches Ok(v) && docs_view(v@) == d,
            Err(e) => r matches Err(g) && g.severity == Severity::Abort && g.message@ == tagged(
                env.logr.prefix@,
                extract_error_msg(e, env.exec_args_ident@, macro_name@),
            ),
        },
{
    let record = &env.exec_args_ident;
    match find_struct(&file.items, record) {
        None => {
            let msg = String::from_str("Failed to find `").concat(record.as_str()).concat(
                "` struct in `",
            ).concat(macro_name).concat("` module");
            Err(env.logr.abort_call_site(msg.as_str()))
        },
        Some(i) => match &file.items[i] {
            ItemModel::Struct { fields, .. } => match fields {
                FieldsModel::Named(fs) => Ok(collect_fields_entries(fs)),
                FieldsModel::Unnamed(_) => {
                    let msg = String::from_str("Only named fields supported: `").concat(
                        record.as_str(),
                    ).concat("` struct in `").concat(macro_name).concat(
                        "` module has positional fields",
                    );
                    Err(env.logr.abort_call_site(msg.as_str()))
                },
                FieldsModel::Unit => Ok(Vec::new()),
            },
            ItemModel::Other => {
                proof {
                    assert(false);
                }
                Ok(Vec::new())
            },
        },
    }
}

} // verus!

verus! {

/// Extraction depends on the file's items alone: the same unchanged file
/// read twice gives the same entries (or the same failure).
pub proof fn lemma_extract_idempotent(a: SourceFile, b: SourceFile, record: Seq<char>)
    requires
        a.items@ == b.items@,
    ensures
        extract_spec(a.items@, record) == extract_spec(b.items@, record),
{
}

/// A record with no fields yields no entries.
pub proof fn lemma_extract_no_fields(items: Seq<ItemModel>, record: Seq<char>, i: int)
    requires
        first_struct_named(items, record) == Some(i),
        items[i] matches ItemModel::Struct { fields, .. } && (fields matches FieldsModel::Unit || (
        fields matches FieldsModel::Named(fs) && fs@.len() == 0)),
    ensures
        extract_spec(items, record) == Ok::<Seq<FieldDocView>, ExtractError>(Seq::empty()),
{
    if let ItemModel::Struct { fields, .. } = items[i] {
        if let FieldsModel::Named(fs) = fields {
            assert(fields_entries(fs@) =~= Seq::<FieldDocView>::empty());
        }
    }
}

/// A field without a `doc` attribute gives one entry, with no
/// documentation, which renders as `Not documented`.
pub proof fn lemma_undocumented_field(f: FieldModel)
    requires
        doc_values(f.attrs@).len() == 0,
    ensures
        field_entries(f) == seq![FieldDocView { ident: field_name(f), doc: None, ty: f.ty@ }],
        bullet(field_entries(f)[0]) == "* `"@ + field_name(f) + "` - "@ + "Not documented"@
            + "\n  + type: [`"@ + without_spaces(f.ty@) + "`]"@,
{
}

/// A record with positional fields is refused, never skipped.
pub proof fn lemma_positional_fields_refused(items: Seq<ItemModel>, record: Seq<char>, i: int)
    requires
        first_struct_named(items, record) == Some(i),
        items[i] matches ItemModel::Struct { fields, .. } && fields matches FieldsModel::Unnamed(_),
    ensures
        extract_spec(items, record) == Err::<Seq<FieldDocView>, ExtractError>(
            ExtractError::PositionalFields,
        ),
{
}

} // verus!

verus! {

/// The entries among `es` named `name`, in order.
pub open spec fn entries_named(es: Seq<FieldDocView>, name: Seq<char>) -> Seq<FieldDocView>
    decreases es.len(),
{
    if es.len() == 0 {
        Seq::empty()
    } else {
        let rest = entries_named(es.drop_last(), name);
        if es.last().ident == name {
            rest.push(es.last())
        } else {
            rest
        }
    }
}

proof fn lemma_entries_named_add(a: Seq<FieldDocView>, b: Seq<FieldDocView>, name: Seq<char>)
    ensures
        entries_named(a + b, name) == entries_named(a, name) + entries_named(b, name),
    decreases b.len(),
{
    if b.len() == 0 {
        assert(a + b =~= a);
        assert(entries_named(a, name) + entries_named(b, name) =~= entries_named(a, name));
    } else {
        assert((a + b).drop_last() =~= a + b.drop_last());
        lemma_entries_named_add(a, b.drop_last(), name);
        if b.last().ident == name {
            assert(entries_named(a, name) + entries_named(b.drop_last(), name).push(b.last())
                =~= (entries_named(a, name) + entries_named(b.drop_last(), name)).push(b.last()));
        }
    }
}

proof fn lemma_entries_named_none(es: Seq<FieldDocView>, name: Seq<char>)
    requires
        forall|i: int| 0 <= i < es.len() ==> (#[trigger] es[i]).ident != name,
    ensures
        entries_named(es, name) == Seq::<FieldDocView>::empty(),
    decreases es.len(),
{
    if es.len() > 0 {
        lemma_entries_named_none(es.drop_last(), name);
    }
}

proof fn lemma_field_entries_named(f: FieldModel)
    ensures
        forall|i: int|
            0 <= i < field_entries(f).len() ==> (#[trigger] field_entries(f)[i]).ident
                == field_name(f),
{
}

proof fn lemma_other_fields_absent(fs: Seq<FieldModel>, name: Seq<char>)
    requires
        forall|i: int| 0 <= i < fs.len() ==> field_name(#[trigger] fs[i]) != name,
    ensures
        entries_named(fields_entries(fs), name) == Seq::<FieldDocView>::empty(),
    decreases fs.len(),
{
    if fs.len() > 0 {
        lemma_other_fields_absent(fs.drop_last(), name);
        lemma_field_entries_named(fs.last());
        lemma_entries_named_none(field_entries(fs.last()), name);
        lemma_entries_named_add(fields_entries(fs.drop_last()), field_entries(fs.last()), name);
        assert(Seq::<FieldDocView>::empty() + Seq::<FieldDocView>::empty() =~= Seq::<
            FieldDocView,
        >::empty());
    }
}

/// Among fields with distinct names, a field without a `doc` attribute
/// has exactly one entry: undocumented, with its declared type, so it
/// renders as `Not documented`.
pub proof fn lemma_undocumented_field_once(fs: Seq<FieldModel>, k: int)
    requires
        0 <= k < fs.len(),
        forall|i: int, j: int|
            0 <= i < j < fs.len() ==> field_name(#[trigger] fs[i]) != field_name(#[trigger] fs[j]),
        doc_values(fs[k].attrs@).len() == 0,
    ensures
        entries_named(fields_entries(fs), field_name(fs[k])) == seq![
            FieldDocView { ident: field_name(fs[k]), doc: None, ty: fs[k].ty@ },
        ],
    decreases fs.len(),
{
    let name = field_name(fs[k]);
    let last = fs.last();
    let init = fs.drop_last();
    lemma_entries_named_add(fields_entries(init), field_entries(last), name);
    if k == fs.len() - 1 {
        assert forall|i: int| 0 <= i < init.len() implies field_name(#[trigger] init[i]) != name by {
            assert(init[i] == fs[i]);
        }
        lemma_other_fields_absent(init, name);
        let e = FieldDocView { ident: name, doc: None, ty: last.ty@ };
        assert(field_entries(last) == seq![e]);
        assert(seq![e].drop_last() =~= Seq::<FieldDocView>::empty());
        assert(seq![e].last() == e);
        assert(entries_named(Seq::<FieldDocView>::empty(), name) == Seq::<FieldDocView>::empty());
        assert(entries_named(seq![e].drop_last(), name) == Seq::<FieldDocView>::empty());
        assert(entries_named(seq![e], name) =~= seq![e]);
        assert(Seq::<FieldDocView>::empty() + seq![e] =~= seq![e]);
    } else {
        assert(init[k] == fs[k]);
        assert forall|i: int, j: int| 0 <= i < j < init.len() implies field_name(
            #[trigger] init[i],
        ) != field_name(#[trigger] init[j]) by {
            assert(init[i] == fs[i] && init[j] == fs[j]);
        }
        lemma_undocumented_field_once(init, k);
        assert(field_name(last) != name);
        lemma_field_entries_named(last);
        lemma_entries_named_none(field_entries(last), name);
        let e = FieldDocView { ident: name, doc: None, ty: fs[k].ty@ };
        assert(seq![e] + Seq::<FieldDocView>::empty() =~= seq![e]);
    }
}

} // verus!

verus! {

/// In a record with named, distinctly named fields, a field without a
/// `doc` attribute yields exactly one entry, which renders as
/// `Not documented` with the field's type.
pub proof fn lemma_record_undocumented_field(
    items: Seq<ItemModel>,
    record: Seq<char>,
    i: int,
    fs: Vec<FieldModel>,
    k: int,
)
    requires
        first_struct_named(items, record) == Some(i),
        items[i] matches ItemModel::Struct { fields, .. } && fields == FieldsModel::Named(fs),
        0 <= k < fs@.len(),
        forall|a: int, b: int|
            0 <= a < b < fs@.len() ==> field_name(#[trigger] fs@[a]) != field_name(
                #[trigger] fs@[b],
            ),
        doc_values(fs@[k].attrs@).len() == 0,
    ensures
        extract_spec(items, record) matches Ok(d) && entries_named(d, field_name(fs@[k])) == seq![
            FieldDocView { ident: field_name(fs@[k]), doc: None, ty: fs@[k].ty@ },
        ] && bullet(FieldDocView { ident: field_name(fs@[k]), doc: None, ty: fs@[k].ty@ })
            == "* `"@ + field_name(fs@[k]) + "` - "@ + "Not documented"@ + "\n  + type: [`"@
            + without_spaces(fs@[k].ty@) + "`]"@,
{
    lemma_undocumented_field_once(fs@, k);
}

} // verus!
