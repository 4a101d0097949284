//! File-system paths as plain values, and where macro sources live.
use vstd::prelude::*;

verus! {

/// `parts` joined by `/`.
pub open spec fn joined(parts: Seq<Seq<char>>) -> Seq<char>
    decreases parts.len(),
{
    if parts.len() == 0 {
        Seq::empty()
    } else if parts.len() == 1 {
        parts[0]
    } else {
        joined(parts.drop_last()) + "/"@ + parts.last()
    }
}

/// The text of a path: its parts joined by `/`, after a leading `/` when
/// it is absolute.
pub open spec fn path_text(absolute: bool, parts: Seq<Seq<char>>) -> Seq<char> {
    if absolute {
        "/"@ + joined(parts)
    } else {
        joined(parts)
    }
}

/// A path given by its components.
#[derive(Debug)]
pub struct FsPath {
    pub absolute: bool,
    pub parts: Vec<String>,
}

impl FsPath {
    pub open spec fn parts_view(&self) -> Seq<Seq<char>> {
        self.parts@.map_values(|p: String| p@)
    }

    pub open spec fn text(&self) -> Seq<char> {
        path_text(self.absolute, self.parts_view())
    }

    /// The path without its last component; `None` when it has none.
    pub fn parent(&self) -> (r: Option<FsPath>)
        ensures
            r is None <==> self.parts@.len() == 0,
            r matches Some(p) ==> p.absolute == self.absolute && p.parts_view()
                =~= self.parts_view().drop_last(),
    {
        if self.parts.len() == 0 {
            None
        } else {
            let mut parts = self.parts.clone();
            parts.pop();
            proof {
                assert(parts@ =~= self.parts@.drop_last());
            }
            Some(FsPath { absolute: self.absolute, parts })
        }
    }

    /// The path with one more component.
    pub fn join(&self, part: &str) -> (r: FsPath)
        ensures
            r.absolute == self.absolute,
            r.parts_view() =~= self.parts_view().push(part@),
    {
        let mut parts = self.parts.clone();
        parts.push(String::from_str(part));
        FsPath { absolute: self.absolute, parts }
    }

    /// The path as text, components separated by `/`.
    pub fn to_text(&self) -> (r: String)
        ensures
            r@ == self.text(),
    {
        let mut s = if self.absolute {
            String::from_str("/")
        } else {
            String::new()
        };
        let ghost head = s@;
        let n = self.parts.len();
        let mut i: usize = 0;
        while i < n
            invariant
                n == self.parts@.len(),
                i <= n,
                head == (if self.absolute { "/"@ } else { Seq::<char>::empty() }),
                s@ == head + joined(self.parts_view().take(i as int)),
            decreases n - i,
        {
            let ghost prev = self.parts_view().take(i as int);
            if i > 0 {
                s.append("/");
            }
            s.append(self.parts[i].as_str());
            proof {
                let next = self.parts_view().take(i + 1);
                assert(next.drop_last() =~= prev);
                if i == 0 {
                    assert(prev =~= Seq::<Seq<char>>::empty());
                }
            }
            i = i + 1;
        }
        proof {
            assert(self.parts_view().take(n as int) =~= self.parts_view());
            if !self.absolute {
                assert(s@ =~= joined(self.parts_view()));
            }
        }
        s
    }
}

/// The directory of the calling crate, five levels above the build
/// output directory, which must be at least that deep.
pub fn calling_crate_dir(out_dir: &FsPath) -> (r: FsPath)
    requires
        out_dir.parts@.len() >= 5,
    ensures
        r.absolute == out_dir.absolute,
        r.parts_view() =~= out_dir.parts_view().take(out_dir.parts@.len() - 5),
{
    let mut dir = FsPath { absolute: out_dir.absolute, parts: out_dir.parts.clone() };
    let mut k: usize = 0;
    while k < 5
        invariant
            k <= 5,
            out_dir.parts@.len() >= 5,
            dir.absolute == out_dir.absolute,
            dir.parts_view() =~= out_dir.parts_view().take(out_dir.parts@.len() - k),
        decreases 5 - k,
    {
        dir = match dir.parent() {
            Some(p) => p,
            None => {
                proof {
                    assert(dir.parts_view().len() == dir.parts@.len());
                    assert(false);
                }
                dir
            },
        };
        k = k + 1;
    }
    dir
}

} // verus!
