//! Rendering of a macro's documentation block from its field entries.
use vstd::prelude::*;
use crate::extract::{FieldDoc, FieldDocView, docs_view};

verus! {

/// `s` with every space removed.
pub open spec fn without_spaces(s: Seq<char>) -> Seq<char> {
    s.filter(|c: char| c != ' ')
}

/// The documentation shown for a field.
pub open spec fn doc_or_placeholder(doc: Option<Seq<char>>) -> Seq<char> {
    match doc {
        Some(d) => d,
        None => "Not documented"@,
    }
}

/// The bullet of one field: name, documentation and type reference.
pub open spec fn bullet(d: FieldDocView) -> Seq<char> {
    "* `"@ + d.ident + "` - "@ + doc_or_placeholder(d.doc) + "\n  + type: [`"@ + without_spaces(
        d.ty,
    ) + "`]"@
}

/// The first line of the block.
pub open spec fn summary(name: Seq<char>, kind: Seq<char>) -> Seq<char> {
    name + " procedural macro ("@ + kind + ")."@
}

/// The documentation block, one line per element: the summary, the
/// parameters heading, one bullet per entry in order, the examples heading.
pub open spec fn render_spec(name: Seq<char>, kind: Seq<char>, docs: Seq<FieldDocView>) -> Seq<
    Seq<char>,
> {
    seq![summary(name, kind), "# Parameters"@] + docs.map_values(|d: FieldDocView| bullet(d))
        + seq!["# Examples"@]
}

pub open spec fn lines_view(v: Seq<String>) -> Seq<Seq<char>> {
    v.map_values(|s: String| s@)
}

/// `s` with every space removed, so that a type written out as tokens
/// reads as in source.
pub fn strip_spaces(s: &str) -> (r: String)
    ensures
        r@ == without_spaces(s@),
{
    let mut r = String::new();
    let n = s.unicode_len();
    let mut i: usize = 0;
    while i < n
        invariant
            n == s@.len(),
            i <= n,
            r@ == without_spaces(s@.take(i as int)),
        decreases n - i,
    {
        let c = s.get_char(i);
        proof {
            assert(s@.take(i + 1) =~= s@.take(i as int).push(c));
            assert(s@.take(i + 1).drop_last() =~= s@.take(i as int));
            reveal(Seq::filter);
        }
        if c != ' ' {
            let piece = s.substring_char(i, i + 1);
            proof {
                assert(piece@ =~= seq![c]);
            }
            r.append(piece);
            proof {
                assert(r@ =~= without_spaces(s@.take(i as int)).push(c));
            }
        }
        i = i + 1;
    }
    proof {
        assert(s@.take(n as int) =~= s@);
        if n == 0 {
            reveal(Seq::filter);
        }
    }
    r
}

/// The bullet line of one field.
pub fn render_bullet(d: &FieldDoc) -> (r: String)
    ensures
        r@ == bullet(d@),
{
    let r = String::from_str("* `").concat(d.ident.as_str()).concat("` - ");
    let r = match &d.doc {
        Some(text) => r.concat(text.as_str()),
        None => r.concat("Not documented"),
    };
    let ty = strip_spaces(d.ty.as_str());
    r.concat("\n  + type: [`").concat(ty.as_str()).concat("`]")
}

/// The documentation block of the macro `name` of kind `kind`.
pub fn render_doc(name: &str, kind: &str, docs: &Vec<FieldDoc>) -> (r: Vec<String>)
    ensures
        lines_view(r@) == render_spec(name@, kind@, docs_view(docs@)),
{
    let mut r: Vec<String> = Vec::new();
    r.push(String::from_str(name).concat(" procedural macro (").concat(kind).concat(")."));
    r.push(String::from_str("# Parameters"));
    let ghost head = lines_view(r@);
    let n = docs.len();
    let mut i: usize = 0;
    while i < n
        invariant
            n == docs@.len(),
            i <= n,
            head == seq![summary(name@, kind@), "# Parameters"@],
            lines_view(r@) =~= head + docs_view(docs@).take(i as int).map_values(
                |d: FieldDocView| bullet(d),
            ),
        decreases n - i,
    {
        let ghost before = r@;
        let b = render_bullet(&docs[i]);
        r.push(b);
        proof {
            let dv = docs_view(docs@);
            assert(dv[i as int] == docs@[i as int]@);
            assert(dv.take(i + 1) =~= dv.take(i as int).push(dv[i as int]));
            assert(r@ =~= before.push(b));
            assert(lines_view(r@) =~= lines_view(before).push(b@));
            assert(dv.take(i + 1).map_values(|d: FieldDocView| bullet(d)) =~= dv.take(
                i as int,
            ).map_values(|d: FieldDocView| bullet(d)).push(bullet(dv[i as int])));
        }
        i = i + 1;
    }
    let ghost before = r@;
    let last = String::from_str("# Examples");
    r.push(last);
    proof {
        assert(docs_view(docs@).take(n as int) =~= docs_view(docs@));
        assert(r@ =~= before.push(last));
        assert(lines_view(r@) =~= lines_view(before).push(last@));
    }
    r
}

} // verus!

verus! {

/// Rendering is a function of the entries' contents: two entry lists that
/// say the same give the same block, line for line.
pub proof fn lemma_render_deterministic(
    name: Seq<char>,
    kind: Seq<char>,
    a: Seq<FieldDoc>,
    b: Seq<FieldDoc>,
)
    requires
        docs_view(a) == docs_view(b),
    ensures
        render_spec(name, kind, docs_view(a)) == render_spec(name, kind, docs_view(b)),
{
}

/// With no entries the block is the summary, the `# Parameters` heading
/// and the `# Examples` heading, and nothing else.
pub proof fn lemma_render_no_fields(name: Seq<char>, kind: Seq<char>)
    ensures
        render_spec(name, kind, Seq::empty()) == seq![
            summary(name, kind),
            "# Parameters"@,
            "# Examples"@,
        ],
{
    assert(render_spec(name, kind, Seq::empty()) =~= seq![
        summary(name, kind),
        "# Parameters"@,
        "# Examples"@,
    ]);
}

/// The block has one bullet per entry, in the entries' order, between
/// the `# Parameters` and `# Examples` headings.
pub proof fn lemma_render_lists_every_entry(name: Seq<char>, kind: Seq<char>, docs: Seq<FieldDocView>)
    ensures
        render_spec(name, kind, docs).len() == docs.len() + 3,
        render_spec(name, kind, docs)[0] == summary(name, kind),
        render_spec(name, kind, docs)[1] == "# Parameters"@,
        forall|i: int| 0 <= i < docs.len() ==> render_spec(name, kind, docs)[i + 2] == bullet(
            #[trigger] docs[i],
        ),
        render_spec(name, kind, docs)[docs.len() as int + 2] == "# Examples"@,
{
}

} // verus!
