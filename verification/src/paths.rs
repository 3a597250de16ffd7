//! Project-relative paths.
//!
//! Paths that the project bookkeeping reasons about are sequences of
//! components, not opaque platform strings; conversion from and to the
//! platform's path type happens at the application edge.  Stripping the
//! project root off an entry path is the check behind the
//! `PathNotUnderProject` error.

use vstd::prelude::*;
use vstd::string::StringExecFns;
use crate::errors::SplitError;

verus! {

/// A filesystem path as an ordered list of components.
#[derive(Debug, PartialEq, Eq)]
pub struct ProjPath {
    pub segments: Vec<String>,
}

impl View for ProjPath {
    type V = Seq<Seq<char>>;

    open spec fn view(&self) -> Seq<Seq<char>> {
        self.segments.deep_view()
    }
}

/// `base` is a (component-wise) prefix of `path`.
pub open spec fn is_path_prefix(base: Seq<Seq<char>>, path: Seq<Seq<char>>) -> bool {
    base.len() <= path.len() && path.subrange(0, base.len() as int) == base
}

impl ProjPath {
    /// The empty path, with no components.
    pub fn new() -> (r: ProjPath)
        ensures
            r@ == Seq::<Seq<char>>::empty(),
    {
        let r = ProjPath { segments: Vec::new() };
        proof {
            assert(r@ =~= Seq::<Seq<char>>::empty());
        }
        r
    }

    /// Appends one component.
    pub fn push(&mut self, segment: String)
        ensures
            final(self)@ == old(self)@.push(segment@),
    {
        let ghost prev = self@;
        let ghost seg = segment@;
        self.segments.push(segment);
        proof {
            assert forall|k: int| 0 <= k < self@.len() implies self@[k] == prev.push(seg)[k] by {
                assert(self@[k] == self.segments@[k]@);
            }
            assert(self@ =~= prev.push(seg));
        }
    }

    /// A copy of this path.
    pub fn duplicate(&self) -> (r: ProjPath)
        ensures
            r@ == self@,
    {
        let mut segments: Vec<String> = Vec::new();
        let n: usize = self.segments.len();
        let mut i: usize = 0;
        while i < n
            invariant
                i <= n,
                n == self.segments@.len(),
                segments@.len() == i as int,
                forall|k: int| 0 <= k < i as int ==> (#[trigger] segments@[k])@
                    == self.segments@[k]@,
            decreases n - i,
        {
            let seg: String = self.segments[i].clone();
            segments.push(seg);
            i = i + 1;
        }
        let r = ProjPath { segments };
        proof {
            assert forall|k: int| 0 <= k < r@.len() implies r@[k] == self@[k] by {
                assert(r@[k] == r.segments@[k]@);
                assert(self@[k] == self.segments@[k]@);
            }
            assert(r@ =~= self@);
        }
        r
    }

    /// This path extended by one more component.
    pub fn join(&self, segment: String) -> (r: ProjPath)
        ensures
            r@ == self@.push(segment@),
    {
        let mut r = self.duplicate();
        r.push(segment);
        r
    }

    /// The directory the generated outputs for `stem` are written into:
    /// `output/awc/.packs/<stem>` under this (project) directory.  The
    /// split results of an entry go here, named after the entry's file
    /// stem, as does a pack's generated audio, named after the pack.
    pub fn split_output_dir(&self, stem: &str) -> (r: ProjPath)
        ensures
            r@ == self@ + seq!["output"@, "awc"@, ".packs"@, stem@],
    {
        let mut r = self.duplicate();
        r.push(String::from_str("output"));
        r.push(String::from_str("awc"));
        r.push(String::from_str(".packs"));
        r.push(String::from_str(stem));
        proof {
            assert(r@ =~= self@ + seq!["output"@, "awc"@, ".packs"@, stem@]);
        }
        r
    }

    /// The file a pack's descriptor document is written to:
    /// `output/awc/.packs/<pack_name>.xml` under this (project) directory.
    pub fn pack_descriptor_path(&self, pack_name: &str) -> (r: ProjPath)
        ensures
            r@ == self@ + seq!["output"@, "awc"@, ".packs"@, pack_name@ + ".xml"@],
    {
        let mut r = self.duplicate();
        r.push(String::from_str("output"));
        r.push(String::from_str("awc"));
        r.push(String::from_str(".packs"));
        r.push(String::from_str(pack_name).concat(".xml"));
        proof {
            assert(r@ =~= self@ + seq!["output"@, "awc"@, ".packs"@, pack_name@ + ".xml"@]);
        }
        r
    }

    /// Strips `base` off the front of this path.  Succeeds with the
    /// remaining components exactly when this path lies under `base`;
    /// otherwise the path is outside the project directory.
    pub fn strip_prefix(&self, base: &ProjPath) -> (r: Result<ProjPath, SplitError>)
        ensures
            match r {
                Ok(rest) => is_path_prefix(base@, self@) && self@ == base@ + rest@,
                Err(e) => e == SplitError::PathNotUnderProject && !is_path_prefix(base@, self@),
            },
    {
        let base_len: usize = base.segments.len();
        let own_len: usize = self.segments.len();
        if base_len > own_len {
            proof {
                assert(!is_path_prefix(base@, self@));
            }
            return Err(SplitError::PathNotUnderProject);
        }
        let mut i: usize = 0;
        while i < base_len
            invariant
                i <= base_len <= own_len,
                base_len == base.segments@.len(),
                own_len == self.segments@.len(),
                forall|k: int| 0 <= k < i as int ==> self@[k] == base@[k],
            decreases base_len - i,
        {
            if !(self.segments[i] == base.segments[i]) {
                proof {
                    assert(self@[i as int] == self.segments@[i as int]@);
                    assert(base@[i as int] == base.segments@[i as int]@);
                    assert(self@[i as int] != base@[i as int]);
                    assert(!is_path_prefix(base@, self@)) by {
                        if is_path_prefix(base@, self@) {
                            assert(self@.subrange(0, base_len as int)[i as int] == base@[i as int]);
                        }
                    }
                }
                return Err(SplitError::PathNotUnderProject);
            }
            proof {
                assert(self@[i as int] == self.segments@[i as int]@);
                assert(base@[i as int] == base.segments@[i as int]@);
            }
            i = i + 1;
        }
        let mut rest: Vec<String> = Vec::new();
        let mut j: usize = base_len;
        while j < own_len
            invariant
                base_len <= j <= own_len,
                own_len == self.segments@.len(),
                rest@.len() == j - base_len,
                forall|k: int| 0 <= k < rest@.len() ==> (#[trigger] rest@[k])@
                    == self.segments@[base_len as int + k]@,
            decreases own_len - j,
        {
            let seg: String = self.segments[j].clone();
            rest.push(seg);
            j = j + 1;
        }
        let r = ProjPath { segments: rest };
        proof {
            assert(self@.subrange(0, base_len as int) =~= base@);
            assert forall|k: int| 0 <= k < r@.len() implies r@[k]
                == self@[base_len as int + k] by {
                assert(r@[k] == r.segments@[k]@);
                assert(self@[base_len as int + k] == self.segments@[base_len as int + k]@);
            }
            assert(self@ =~= base@ + r@);
        }
        Ok(r)
    }
}

} // verus!
