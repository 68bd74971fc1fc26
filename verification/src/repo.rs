//! Repository discovery: the upward search from a starting directory for
//! the sentinel configuration file, and the repository handle built from
//! the loaded configuration.
//!
//! The search walks plain path segments (each a byte string, as in
//! [`crate::local`]); the caller probes the filesystem at the directory
//! the search currently names and reports back what it found there.

use vstd::prelude::*;

verus! {

/// An opaque configuration record for one section of the configuration
/// document. Traversal never reads it; it only rides along.
pub struct Config {}

/// A repository handle, built from the loaded configuration options.
pub struct Repo {}

impl Repo {
    /// Builds a repository handle from the per-section configuration
    /// options. The handle keeps no traversal state: the options are an
    /// opaque input here.
    #[allow(unused_variables)]
    pub fn from_options(options: std::collections::HashMap<String, Config>) -> Repo {
        Repo {}
    }
}

/// The name of the sentinel configuration file looked for at each level
/// of the upward search.
pub fn config_file_name() -> (n: &'static str)
    ensures
        n@ == spec_config_file_name(),
{
    "rmeta.toml"
}

/// Specification-level value of the sentinel file name.
pub open spec fn spec_config_file_name() -> Seq<char> {
    "rmeta.toml"@
}

/// The path segments of a segment vector, as byte sequences.
pub open spec fn seg_view(v: Seq<Vec<u8>>) -> Seq<Seq<u8>> {
    v.map_values(|s: Vec<u8>| s@)
}

/// What the caller found when probing for the sentinel file in the
/// directory the search currently names.
#[derive(Clone, Copy, PartialEq, Eq, Structural, Debug)]
pub enum ProbeResult {
    /// No sentinel path exists there.
    Absent,
    /// The sentinel path exists and is a regular file.
    File,
    /// The sentinel path exists but is not a regular file.
    NotFile,
}

/// The outcome of one step of the upward search.
pub enum SearchStep {
    /// The sentinel was found: the repository root's segments, and the
    /// residual segments originally descended below it, shallowest
    /// first, ready to be re-applied under the root.
    Found { root: Vec<Vec<u8>>, residual: Vec<Vec<u8>> },
    /// Nothing here: the search moved one level up; probe again.
    Continue(RootSearch),
    /// A sentinel path exists at the probed directory but is not a
    /// regular file.
    NotAFile,
    /// The filesystem root was passed without finding the sentinel.
    Exhausted,
}

/// The upward linear search for the sentinel configuration file: from a
/// starting directory, try each ancestor in turn, collecting the
/// segments descended through so that the caller can re-apply them under
/// the discovered root.
pub struct RootSearch {
    current: Vec<Vec<u8>>,
    collected: Vec<Vec<u8>>,
}

impl RootSearch {
    /// The segments of the directory the search currently probes.
    pub closed spec fn current_segments(&self) -> Seq<Seq<u8>> {
        seg_view(self.current@)
    }

    /// The segments stripped off so far, deepest first.
    pub closed spec fn collected_segments(&self) -> Seq<Seq<u8>> {
        seg_view(self.collected@)
    }

    /// The starting path this search was created from, re-assembled from
    /// the current directory and the segments stripped off so far.
    pub open spec fn origin(&self) -> Seq<Seq<u8>> {
        self.current_segments() + self.collected_segments().reverse()
    }

    /// Starts the search at a directory given by its path segments.
    pub fn new(start: Vec<Vec<u8>>) -> (s: RootSearch)
        ensures
            s.current_segments() == seg_view(start@),
            s.collected_segments() == Seq::<Seq<u8>>::empty(),
    {
        let s = RootSearch { current: start, collected: Vec::new() };
        proof {
            assert(s.collected_segments() =~= Seq::<Seq<u8>>::empty());
        }
        s
    }

    /// The directory the search currently probes: the caller looks for
    /// the sentinel file in it and reports a [`ProbeResult`].
    pub fn probe_dir(&self) -> (p: &Vec<Vec<u8>>)
        ensures
            seg_view(p@) == self.current_segments(),
    {
        &self.current
    }

    /// One step of the upward search, driven by what the caller found at
    /// the probed directory:
    ///
    /// - a regular sentinel file ends the search: the probed directory
    ///   is the repository root, and the collected segments come back
    ///   reversed — shallowest first — so that root + residual re-forms
    ///   the starting path;
    /// - a sentinel that is not a regular file is an error;
    /// - an absent sentinel moves the search one level up, remembering
    ///   the segment stripped off, or ends with `Exhausted` when no
    ///   level is left.
    pub fn step(self, probe: ProbeResult) -> (r: SearchStep)
        ensures
            probe == ProbeResult::File ==> (r matches SearchStep::Found { root, residual }
                && seg_view(root@) == self.current_segments() && seg_view(residual@)
                == self.collected_segments().reverse() && seg_view(root@) + seg_view(residual@)
                == self.origin()),
            probe == ProbeResult::NotFile ==> r is NotAFile,
            probe == ProbeResult::Absent && self.current_segments().len() == 0 ==> r is Exhausted,
            probe == ProbeResult::Absent && self.current_segments().len() > 0 ==> (r matches
                SearchStep::Continue(s) && s.current_segments()
                == self.current_segments().drop_last() && s.collected_segments()
                == self.collected_segments().push(self.current_segments().last()) && s.origin()
                == self.origin()),
    {
        match probe {
            ProbeResult::File => {
                let ghost orig = self;
                let residual = reverse_segments(self.collected);
                proof {
                    lemma_seg_view_reverse(orig.collected@);
                }
                SearchStep::Found { root: self.current, residual }
            },
            ProbeResult::NotFile => SearchStep::NotAFile,
            ProbeResult::Absent => {
                let mut s = self;
                let popped = s.current.pop();
                match popped {
                    Some(seg) => {
                        s.collected.push(seg);
                        proof {
                            assert(s.current_segments() =~= self.current_segments().drop_last());
                            assert(s.collected_segments() =~= self.collected_segments().push(
                                self.current_segments().last(),
                            ));
                            assert(s.origin() =~= self.origin());
                        }
                        SearchStep::Continue(s)
                    },
                    None => SearchStep::Exhausted,
                }
            },
        }
    }
}

/// Reversing a segment vector commutes with taking the segments' views.
proof fn lemma_seg_view_reverse(v: Seq<Vec<u8>>)
    ensures
        seg_view(v.reverse()) == seg_view(v).reverse(),
{
    assert(seg_view(v.reverse()) =~= seg_view(v).reverse());
}

/// Reverses a segment vector.
fn reverse_segments(v: Vec<Vec<u8>>) -> (r: Vec<Vec<u8>>)
    ensures
        r@ == v@.reverse(),
{
    let ghost orig = v@;
    let mut src = v;
    let mut out: Vec<Vec<u8>> = Vec::new();
    proof {
        assert(src@ + out@.reverse() =~= orig);
    }
    while src.len() > 0
        invariant
            src@ + out@.reverse() == orig,
        decreases src@.len(),
    {
        let ghost src0 = src@;
        let ghost out0 = out@;
        let popped = src.pop();
        match popped {
            Some(seg) => {
                out.push(seg);
                proof {
                    assert(out@.reverse() =~= seq![src0.last()] + out0.reverse());
                    assert(src@ + out@.reverse() =~= orig);
                }
            },
            None => {
                proof {
                    assert(false);
                }
            },
        }
    }
    proof {
        assert(out@.reverse() =~= orig);
        assert(out@ =~= orig.reverse());
    }
    out
}

} // verus!
