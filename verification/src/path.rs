//! Absolute filesystem paths, modelled as their ordered segments.

use vstd::prelude::*;

verus! {

/// `String::push_str` has no specification in vstd.
/// Relies on `String::push_str`: it appends the slice to the string.
pub assume_specification[ String::push_str ](s: &mut String, other: &str)
    ensures
        final(s)@ == old(s)@ + other@,
;

/// An absolute filesystem path, kept as its ordered segments (no separators).
/// The empty segment sequence stands for the filesystem root.
#[derive(Debug)]
pub struct FsPath {
    pub segments: Vec<String>,
}

impl View for FsPath {
    type V = Seq<Seq<char>>;

    open spec fn view(&self) -> Seq<Seq<char>> {
        self.segments.deep_view()
    }
}

impl DeepView for FsPath {
    type V = Seq<Seq<char>>;

    open spec fn deep_view(&self) -> Seq<Seq<char>> {
        self@
    }
}

/// The text form of a path: each segment preceded by a separator.
pub open spec fn rendered_path(segments: Seq<Seq<char>>) -> Seq<char>
    decreases segments.len(),
{
    if segments.len() == 0 {
        Seq::empty()
    } else {
        rendered_path(segments.drop_last()) + "/"@ + segments.last()
    }
}

impl FsPath {
    /// The root path, with no segments.
    pub fn root() -> (r: FsPath)
        ensures
            r@ == Seq::<Seq<char>>::empty(),
    {
        let r = FsPath { segments: Vec::new() };
        proof {
            assert(r@ =~= Seq::<Seq<char>>::empty());
        }
        r
    }

    /// A path made of the given segments, in order.
    pub fn from_segments(segments: Vec<String>) -> (r: FsPath)
        ensures
            r@ == segments.deep_view(),
    {
        FsPath { segments }
    }

    pub fn segment_count(&self) -> (r: usize)
        ensures
            r == self@.len(),
    {
        self.segments.len()
    }

    /// An owned copy of the path.
    pub fn duplicate(&self) -> (r: FsPath)
        ensures
            r@ == self@,
    {
        let mut segments: Vec<String> = Vec::new();
        proof {
            assert(segments.deep_view() =~= self@.take(0));
        }
        let mut i: usize = 0;
        while i < self.segments.len()
            invariant
                i <= self.segments.len(),
                segments.deep_view() == self@.take(i as int),
            decreases self.segments.len() - i,
        {
            let seg = self.segments[i].clone();
            proof {
                assert(seg == self.segments@[i as int]);
            }
            let ghost pre = segments.deep_view();
            let ghost pre_v = segments@;
            segments.push(seg);
            proof {
                assert(self@.len() == self.segments@.len());
                assert(pre.len() == i);
                assert(pre_v.len() == i);
                assert forall|j: int| 0 <= j < i + 1 implies segments.deep_view()[j] == self@.take(
                    i + 1,
                )[j] by {
                    assert(segments.deep_view()[j] == segments@[j].deep_view());
                    if j < i {
                        assert(segments@[j] == pre_v[j]);
                        assert(pre[j] == pre_v[j].deep_view());
                        assert(pre[j] == self@.take(i as int)[j]);
                    } else {
                        assert(segments@[j] == seg);
                    }
                }
                assert(segments.deep_view() =~= self@.take(i + 1));
            }
            i = i + 1;
        }
        let r = FsPath { segments };
        proof {
            assert(self@.take(self.segments.len() as int) =~= self@);
        }
        r
    }

    /// The path extended with one more segment.
    pub fn join(&self, segment: &str) -> (r: FsPath)
        ensures
            r@ == self@.push(segment@),
    {
        let mut r = self.duplicate();
        r.segments.push(segment.to_owned());
        proof {
            assert(r@ =~= self@.push(segment@));
        }
        r
    }

    /// Whether the two paths have the same segments.
    pub fn path_eq(&self, other: &FsPath) -> (r: bool)
        ensures
            r == (self@ == other@),
    {
        if self.segments.len() != other.segments.len() {
            proof {
                assert(self@.len() != other@.len());
            }
            return false;
        }
        let mut i: usize = 0;
        while i < self.segments.len()
            invariant
                i <= self.segments.len(),
                self.segments.len() == other.segments.len(),
                forall|j: int| 0 <= j < i ==> self@[j] == other@[j],
            decreases self.segments.len() - i,
        {
            if !(self.segments[i] == other.segments[i]) {
                proof {
                    assert(self@[i as int] == self.segments@[i as int]@);
                    assert(other@[i as int] == other.segments@[i as int]@);
                }
                return false;
            }
            i = i + 1;
        }
        proof {
            assert(self@ =~= other@);
        }
        true
    }

    /// Whether `prefix` is an initial run of this path's segments.
    pub fn starts_with(&self, prefix: &FsPath) -> (r: bool)
        ensures
            r == prefix@.is_prefix_of(self@),
    {
        if prefix.segments.len() > self.segments.len() {
            proof {
                assert(prefix@.len() > self@.len());
            }
            return false;
        }
        let mut i: usize = 0;
        while i < prefix.segments.len()
            invariant
                i <= prefix.segments.len(),
                prefix.segments.len() <= self.segments.len(),
                forall|j: int| 0 <= j < i ==> prefix@[j] == self@[j],
            decreases prefix.segments.len() - i,
        {
            if !(prefix.segments[i] == self.segments[i]) {
                proof {
                    assert(prefix@[i as int] == prefix.segments@[i as int]@);
                    assert(self@[i as int] == self.segments@[i as int]@);
                    assert(!prefix@.is_prefix_of(self@)) by {
                        if prefix@.is_prefix_of(self@) {
                            assert(prefix@[i as int] == self@.subrange(
                                0,
                                prefix@.len() as int,
                            )[i as int]);
                        }
                    }
                }
                return false;
            }
            i = i + 1;
        }
        proof {
            assert(prefix@ =~= self@.subrange(0, prefix@.len() as int));
        }
        true
    }

    /// The path as text, each segment preceded by a separator.
    pub fn display_string(&self) -> (r: String)
        ensures
            r@ == rendered_path(self@),
    {
        let mut out = String::new();
        let mut i: usize = 0;
        while i < self.segments.len()
            invariant
                i <= self.segments.len(),
                out@ == rendered_path(self@.take(i as int)),
            decreases self.segments.len() - i,
        {
            out.push_str("/");
            out.push_str(self.segments[i].as_str());
            proof {
                let taken = self@.take(i + 1 as int);
                assert(taken.drop_last() =~= self@.take(i as int));
                assert(taken.last() == self@[i as int]);
            }
            i = i + 1;
        }
        proof {
            assert(self@.take(self.segments.len() as int) =~= self@);
        }
        out
    }
}

} // verus!
