//! Local filesystem paths built by joining segments.
//!
//! A `LocalPath` is a plain sequence of characters composed by joining a
//! base segment with a further path fragment. Joining follows the host
//! convention for Unix-style paths: an absolute fragment (one that starts
//! with `/`) replaces the base; anything else is appended after a `/`
//! separator. No normalization of `.` or `..` is performed.

use vstd::prelude::*;
use vstd::string::StrSliceExecFns;
use vstd::string::StringExecFns;

verus! {

/// The sequence obtained by joining `base` with the fragment `seg`:
/// `seg` itself when it is absolute, otherwise `base`, a `/` separator,
/// and `seg`, in that order.
pub open spec fn join_segs(base: Seq<char>, seg: Seq<char>) -> Seq<char> {
    if seg.len() > 0 && seg[0] == '/' {
        seg
    } else {
        base + seq!['/'] + seg
    }
}

/// A local filesystem path. Equality is by the character sequence; no
/// normalization is ever applied.
#[derive(Debug)]
pub struct LocalPath {
    chars: String,
}

impl View for LocalPath {
    type V = Seq<char>;

    closed spec fn view(&self) -> Seq<char> {
        self.chars@
    }
}

impl LocalPath {
    /// Join `base` with the fragment `seg`, replacing `base` when `seg`
    /// is absolute.
    pub fn join_under(base: &str, seg: &str) -> (r: LocalPath)
        ensures
            r@ == join_segs(base@, seg@),
    {
        if seg.unicode_len() > 0 && seg.get_char(0) == '/' {
            LocalPath { chars: seg.to_owned() }
        } else {
            let mut joined = String::from_str(base);
            joined.append("/");
            joined.append(seg);
            proof {
                reveal_strlit("/");
                assert(joined@ =~= base@ + seq!['/'] + seg@);
            }
            LocalPath { chars: joined }
        }
    }

    /// The path as a string slice.
    pub fn as_str(&self) -> (r: &str)
        ensures
            r@ == self@,
    {
        self.chars.as_str()
    }
}

impl PartialEq for LocalPath {
    fn eq(&self, other: &LocalPath) -> (r: bool) {
        self.chars == other.chars
    }
}

impl vstd::std_specs::cmp::PartialEqSpecImpl for LocalPath {
    open spec fn obeys_eq_spec() -> bool {
        true
    }

    open spec fn eq_spec(&self, other: &LocalPath) -> bool {
        self@ == other@
    }
}

} // verus!
