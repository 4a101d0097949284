//! A struct that mirrors a flat folder of modules: one field per module
//! file, typed by the module's own PascalCase type.
use vstd::prelude::*;
use crate::case::{pascal_case_with_sep, pascal_sep_of};

verus! {

/// One field of the mirroring struct: `<module>: crate::<folder>::<module>::<ty_name>`.
#[derive(Debug)]
pub struct IsoField {
    pub module: String,
    pub ty_name: String,
}

/// The fields for the file stems `stems`, in order, skipping `mod`.
pub open spec fn iso_fields_spec(stems: Seq<Seq<char>>) -> Seq<(Seq<char>, Seq<char>)>
    decreases stems.len(),
{
    if stems.len() == 0 {
        Seq::empty()
    } else {
        let rest = iso_fields_spec(stems.drop_last());
        let s = stems.last();
        if s == "mod"@ {
            rest
        } else {
            rest.push((s, pascal_sep_of(s, "_"@)))
        }
    }
}

pub open spec fn iso_view(v: Seq<IsoField>) -> Seq<(Seq<char>, Seq<char>)> {
    v.map_values(|f: IsoField| (f.module@, f.ty_name@))
}

/// The fields mirroring a folder whose files have the stems `stems`.
pub fn iso_fields(stems: &Vec<String>) -> (r: Vec<IsoField>)
    ensures
        iso_view(r@) == iso_fields_spec(stems@.map_values(|s: String| s@)),
{
    let ghost all = stems@.map_values(|s: String| s@);
    let skip = String::from_str("mod");
    let mut r: Vec<IsoField> = Vec::new();
    let n = stems.len();
    let mut i: usize = 0;
    while i < n
        invariant
            n == stems@.len(),
            i <= n,
            skip@ == "mod"@,
            all == stems@.map_values(|s: String| s@),
            iso_view(r@) == iso_fields_spec(all.take(i as int)),
        decreases n - i,
    {
        proof {
            assert(all.take(i + 1).drop_last() =~= all.take(i as int));
            assert(all.take(i + 1).last() == stems@[i as int]@);
        }
        let stem = &stems[i];
        if *stem != skip {
            let ghost before = r@;
            let field = IsoField {
                module: stem.clone(),
                ty_name: pascal_case_with_sep(stem.as_str(), "_"),
            };
            r.push(field);
            proof {
                assert(r@ =~= before.push(field));
                assert(iso_view(r@) =~= iso_view(before).push((field.module@, field.ty_name@)));
            }
        }
        i = i + 1;
    }
    proof {
        assert(all.take(n as int) =~= all);
    }
    r
}

} // verus!
