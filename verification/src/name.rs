//! The repository short-name rule for Git URLs.
//!
//! The short name of a Git URL is its final path segment with an optional
//! trailing `.git` removed: the run of characters after the last `/`, once
//! a `.git` suffix has been stripped from the end of the URL. The run must
//! be non-empty and must not contain `.`; otherwise no name can be derived.
//! The rule is anchored at the end of the URL, so a trailing `/` or a final
//! segment that looks like a file name (`index.html`) yields no name.

use vstd::prelude::*;
use vstd::string::StrSliceExecFns;

verus! {

/// The four characters of the optional `.git` suffix.
pub open spec fn dot_git() -> Seq<char> {
    seq!['.', 'g', 'i', 't']
}

/// Whether `u` ends with the literal suffix `.git`.
pub open spec fn ends_with_dot_git(u: Seq<char>) -> bool {
    u.len() >= 4 && u.subrange(u.len() - 4, u.len() as int) == dot_git()
}

/// `u` with one trailing `.git` removed, when present.
pub open spec fn strip_dot_git(u: Seq<char>) -> Seq<char> {
    if ends_with_dot_git(u) {
        u.subrange(0, u.len() - 4)
    } else {
        u
    }
}

/// The index of the last `/` in `s`, or `-1` when `s` has none.
pub open spec fn last_slash(s: Seq<char>) -> int
    decreases s.len(),
{
    if s.len() == 0 {
        -1
    } else if s[s.len() - 1] == '/' {
        s.len() - 1
    } else {
        last_slash(s.drop_last())
    }
}

/// Whether `n` can serve as a repository short name: non-empty, with no
/// `/` and no `.` among its characters.
pub open spec fn is_repo_name(n: Seq<char>) -> bool {
    n.len() > 0 && forall|i: int| 0 <= i < n.len() ==> n[i] != '/' && n[i] != '.'
}

/// The short name derived from the URL `u`, when the rule matches: strip
/// an optional trailing `.git`, take everything after the last `/`, and
/// require that run to be a repository name.
pub open spec fn short_name_of(u: Seq<char>) -> Option<Seq<char>> {
    let core = strip_dot_git(u);
    let k = last_slash(core);
    if k >= 0 {
        let name = core.subrange(k + 1, core.len() as int);
        if is_repo_name(name) {
            Some(name)
        } else {
            None
        }
    } else {
        None
    }
}

/// The rule stated as a decomposition of the whole URL: `u` consists of an
/// arbitrary prefix, a `/`, the name, and an optional `.git` suffix, and
/// the name is non-empty with no `/` and no `.`.
pub open spec fn matches_name_rule(u: Seq<char>, name: Seq<char>) -> bool {
    &&& is_repo_name(name)
    &&& exists|p: Seq<char>| u == p + seq!['/'] + name || u == p + seq!['/'] + name + dot_git()
}

proof fn lemma_last_slash_none(s: Seq<char>)
    requires
        forall|j: int| 0 <= j < s.len() ==> s[j] != '/',
    ensures
        last_slash(s) == -1,
    decreases s.len(),
{
    if s.len() > 0 {
        assert forall|j: int| 0 <= j < s.drop_last().len() implies s.drop_last()[j] != '/' by {
            assert(s.drop_last()[j] == s[j]);
        }
        lemma_last_slash_none(s.drop_last());
    }
}

proof fn lemma_last_slash_at(s: Seq<char>, k: int)
    requires
        0 <= k < s.len(),
        s[k] == '/',
        forall|j: int| k < j < s.len() ==> s[j] != '/',
    ensures
        last_slash(s) == k,
    decreases s.len(),
{
    if k < s.len() - 1 {
        assert forall|j: int| k < j < s.drop_last().len() implies s.drop_last()[j] != '/' by {
            assert(s.drop_last()[j] == s[j]);
        }
        assert(s.drop_last()[k] == s[k]);
        lemma_last_slash_at(s.drop_last(), k);
    }
}

proof fn lemma_last_slash_props(s: Seq<char>)
    ensures
        -1 <= last_slash(s) < s.len(),
        last_slash(s) >= 0 ==> s[last_slash(s)] == '/',
        forall|j: int| last_slash(s) < j < s.len() ==> s[j] != '/',
    decreases s.len(),
{
    if s.len() > 0 && s[s.len() - 1] != '/' {
        lemma_last_slash_props(s.drop_last());
        assert forall|j: int| last_slash(s) < j < s.len() implies s[j] != '/' by {
            if j < s.len() - 1 {
                assert(s.drop_last()[j] == s[j]);
            }
        }
    }
}

/// Soundness of the extraction: whenever a short name is derived, the URL
/// decomposes as the rule demands, into a prefix, `/`, the name, and an
/// optional `.git`.
pub proof fn lemma_short_name_sound(u: Seq<char>, name: Seq<char>)
    requires
        short_name_of(u) == Some(name),
    ensures
        matches_name_rule(u, name),
{
    let core = strip_dot_git(u);
    let k = last_slash(core);
    lemma_last_slash_props(core);
    let p = core.subrange(0, k);
    assert(core =~= p + seq!['/'] + name);
    if ends_with_dot_git(u) {
        assert(u =~= p + seq!['/'] + name + dot_git());
    } else {
        assert(u =~= p + seq!['/'] + name);
    }
}

/// Completeness of the extraction: any URL that decomposes as the rule
/// demands yields exactly the name of that decomposition.
pub proof fn lemma_short_name_complete(u: Seq<char>, name: Seq<char>)
    requires
        matches_name_rule(u, name),
    ensures
        short_name_of(u) == Some(name),
{
    let p = choose|p: Seq<char>|
        u == p + seq!['/'] + name || u == p + seq!['/'] + name + dot_git();
    if u == p + seq!['/'] + name + dot_git() {
        assert(ends_with_dot_git(u)) by {
            assert(u.subrange(u.len() - 4, u.len() as int) =~= dot_git());
        }
        assert(strip_dot_git(u) =~= p + seq!['/'] + name);
    } else {
        let w = p + seq!['/'] + name;
        assert(u == w);
        assert(!ends_with_dot_git(u)) by {
            if ends_with_dot_git(u) {
                // The character four places from the end would be '.', yet it
                // is either the '/', a character of the name, or one of the
                // last three characters of the name — never '.'.
                assert(u[u.len() - 4] == dot_git()[0]);
                assert(dot_git()[0] == '.');
                if name.len() >= 4 {
                    assert(w[w.len() - 4] == name[name.len() - 4]);
                } else if name.len() == 3 {
                    assert(w[w.len() - 4] == '/');
                } else {
                    // The suffix ".git" would have to end with the name's
                    // characters preceded by 'g', 'i' or 't' at the position
                    // of the '/'.
                    assert(u[u.len() - 1] == dot_git()[3]);
                    assert(u[u.len() - 2] == dot_git()[2]);
                    assert(u[u.len() - 3] == dot_git()[1]);
                    if name.len() == 2 {
                        assert(w[w.len() - 3] == '/');
                    } else {
                        assert(w[w.len() - 2] == '/');
                    }
                }
            }
        }
    }
    let core = strip_dot_git(u);
    assert(core == p + seq!['/'] + name);
    assert(core[p.len() as int] == '/');
    assert forall|j: int| p.len() < j < core.len() implies core[j] != '/' by {
        assert(core[j] == name[j - (p.len() + 1)]);
    }
    lemma_last_slash_at(core, p.len() as int);
    assert(core.subrange(p.len() as int + 1, core.len() as int) =~= name);
}

/// Extract the repository short name from the URL `u`, when the rule
/// matches.
pub fn short_name(u: &str) -> (r: Option<String>)
    ensures
        match r {
            Some(n) => short_name_of(u@) == Some(n@),
            None => short_name_of(u@) is None,
        },
{
    let len = u.unicode_len();
    let core_end: usize = if len >= 4 && u.get_char(len - 4) == '.' && u.get_char(len - 3) == 'g'
        && u.get_char(len - 2) == 'i' && u.get_char(len - 1) == 't' {
        len - 4
    } else {
        len
    };
    proof {
        if core_end < len {
            assert(u@.subrange(u@.len() - 4, u@.len() as int) =~= dot_git());
        } else if ends_with_dot_git(u@) {
            assert(u@[u@.len() - 4] == dot_git()[0]);
            assert(u@[u@.len() - 3] == dot_git()[1]);
            assert(u@[u@.len() - 2] == dot_git()[2]);
            assert(u@[u@.len() - 1] == dot_git()[3]);
        }
        assert(strip_dot_git(u@) =~= u@.subrange(0, core_end as int));
    }
    let ghost core = strip_dot_git(u@);
    let mut i: usize = core_end;
    while i > 0 && u.get_char(i - 1) != '/'
        invariant
            i <= core_end <= len,
            len == u@.len(),
            core == strip_dot_git(u@),
            core == u@.subrange(0, core_end as int),
            forall|j: int| i <= j < core_end ==> u@[j] != '/',
        decreases i,
    {
        i = i - 1;
    }
    if i == 0 {
        proof {
            assert forall|j: int| 0 <= j < core.len() implies core[j] != '/' by {
                assert(core[j] == u@[j]);
            }
            lemma_last_slash_none(core);
        }
        return None;
    }
    proof {
        assert(core[i - 1] == u@[i - 1]);
        assert forall|j: int| i - 1 < j < core.len() implies core[j] != '/' by {
            assert(core[j] == u@[j]);
        }
        lemma_last_slash_at(core, i - 1);
    }
    if i == core_end {
        proof {
            assert(core.subrange(i as int, core.len() as int).len() == 0);
        }
        return None;
    }
    let ghost cand = core.subrange(i as int, core.len() as int);
    let mut j: usize = i;
    while j < core_end
        invariant
            0 < i <= j <= core_end <= len,
            len == u@.len(),
            core == strip_dot_git(u@),
            core == u@.subrange(0, core_end as int),
            cand == core.subrange(i as int, core.len() as int),
            last_slash(core) == i - 1,
            forall|m: int| i <= m < j ==> u@[m] != '.',
        decreases core_end - j,
    {
        if u.get_char(j) == '.' {
            proof {
                assert(cand[j - i] == u@[j as int]);
                assert(!is_repo_name(cand));
            }
            return None;
        }
        j = j + 1;
    }
    let run = u.substring_char(i, core_end);
    proof {
        lemma_last_slash_props(core);
        assert forall|m: int| 0 <= m < cand.len() implies cand[m] != '/' && cand[m] != '.' by {
            assert(cand[m] == u@[i + m]);
        }
        assert(is_repo_name(cand));
        assert(run@ =~= cand);
    }
    Some(run.to_owned())
}

} // verus!
