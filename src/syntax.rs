//! What the framework reads of a parsed source file, as plain values.
use vstd::prelude::*;

verus! {

/// An attribute: `#[path = "value"]` with a string literal, or anything else.
#[derive(Debug)]
pub enum AttrModel {
    /// `path` is the first segment of the attribute's path.
    NameValueStr { path: String, value: String },
    Other,
}

/// A struct field: its name (none for a positional field), attributes and
/// declared type written out as tokens.
#[derive(Debug)]
pub struct FieldModel {
    pub ident: Option<String>,
    pub attrs: Vec<AttrModel>,
    pub ty: String,
}

/// The field list of a struct.
#[derive(Debug)]
pub enum FieldsModel {
    Named(Vec<FieldModel>),
    Unnamed(Vec<FieldModel>),
    Unit,
}

/// A top-level item of a file: a struct with its name and fields, or
/// anything else.
#[derive(Debug)]
pub enum ItemModel {
    Struct { ident: String, fields: FieldsModel },
    Other,
}

/// The top-level items of a source file, in order.
#[derive(Debug)]
pub struct SourceFile {
    pub items: Vec<ItemModel>,
}

/// The text of a `doc` attribute; `None` for any other attribute.
pub open spec fn doc_value(a: AttrModel) -> Option<Seq<char>> {
    match a {
        AttrModel::NameValueStr { path, value } => if path@ == "doc"@ {
            Some(value@)
        } else {
            None
        },
        AttrModel::Other => None,
    }
}

/// The texts of the `doc` attributes among `attrs`, in order.
pub open spec fn doc_values(attrs: Seq<AttrModel>) -> Seq<Seq<char>>
    decreases attrs.len(),
{
    if attrs.len() == 0 {
        Seq::empty()
    } else {
        let rest = doc_values(attrs.drop_last());
        match doc_value(attrs.last()) {
            Some(d) => rest.push(d),
            None => rest,
        }
    }
}

/// Whether `item` is a struct named `name`.
pub open spec fn is_struct_named(item: ItemModel, name: Seq<char>) -> bool {
    match item {
        ItemModel::Struct { ident, .. } => ident@ == name,
        ItemModel::Other => false,
    }
}

/// The first position in `items` of a struct named `name`.
pub open spec fn first_struct_named(items: Seq<ItemModel>, name: Seq<char>) -> Option<int> {
    if exists|i: int|
        0 <= i < items.len() && is_struct_named(#[trigger] items[i], name) && forall|j: int|
            0 <= j < i ==> !is_struct_named(items[j], name) {
        Some(
            choose|i: int|
                0 <= i < items.len() && is_struct_named(#[trigger] items[i], name) && forall|j: int|
                    0 <= j < i ==> !is_struct_named(items[j], name),
        )
    } else {
        None
    }
}

/// The texts of the `doc` attributes of `attrs`, in order.
pub fn collect_doc_values(attrs: &Vec<AttrModel>) -> (r: Vec<String>)
    ensures
        r@.map_values(|s: String| s@) == doc_values(attrs@),
{
    let doc = String::from_str("doc");
    let mut r: Vec<String> = Vec::new();
    let n = attrs.len();
    let mut i: usize = 0;
    while i < n
        invariant
            n == attrs@.len(),
            i <= n,
            doc@ == "doc"@,
            r@.map_values(|s: String| s@) == doc_values(attrs@.take(i as int)),
        decreases n - i,
    {
        proof {
            assert(attrs@.take(i + 1).drop_last() =~= attrs@.take(i as int));
        }
        match &attrs[i] {
            AttrModel::NameValueStr { path, value } => {
                if *path == doc {
                    r.push(value.clone());
                    proof {
                        assert(r@.map_values(|s: String| s@) =~= doc_values(
                            attrs@.take(i as int),
                        ).push(value@));
                    }
                }
            },
            AttrModel::Other => {},
        }
        i = i + 1;
    }
    proof {
        assert(attrs@.take(n as int) =~= attrs@);
    }
    r
}

/// The position of the first struct named `name` among `items`.
pub fn find_struct(items: &Vec<ItemModel>, name: &String) -> (r: Option<usize>)
    ensures
        r matches Some(i) ==> first_struct_named(items@, name@) == Some(i as int),
        r is None ==> first_struct_named(items@, name@) is None,
{
    let n = items.len();
    let mut i: usize = 0;
    while i < n
        invariant
            n == items@.len(),
            i <= n,
            forall|j: int| 0 <= j < i ==> !is_struct_named(#[trigger] items@[j], name@),
        decreases n - i,
    {
        let hit = match &items[i] {
            ItemModel::Struct { ident, .. } => *ident == *name,
            ItemModel::Other => false,
        };
        if hit {
            proof {
                let k = i as int;
                assert(is_struct_named(items@[k], name@));
                let c = choose|c: int|
                    0 <= c < items@.len() && is_struct_named(#[trigger] items@[c], name@)
                        && forall|j: int| 0 <= j < c ==> !is_struct_named(items@[j], name@);
                if c < k {
                } else if c > k {
                    assert(!is_struct_named(items@[k], name@));
                }
            }
            return Some(i);
        }
        i = i + 1;
    }
    None
}

} // verus!
