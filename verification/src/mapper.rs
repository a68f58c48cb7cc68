//! The context mapper: from a build context to a local directory path.
//!
//! Directory contexts are interpreted relative to the `pods` directory that
//! houses the main compose documents; Git URLs are mapped to a checkout
//! directory under `src` named after the repository's short name.

use vstd::prelude::*;
use crate::context::BuildContext;
use crate::context::ContextModel;
use crate::context::Error;
use crate::context::ErrorModel;
use crate::name::matches_name_rule;
use crate::name::short_name;
use crate::name::short_name_of;
use crate::name::lemma_short_name_sound;
use crate::name::lemma_short_name_complete;
use crate::path::LocalPath;
use crate::path::join_segs;

verus! {

/// The fixed prefix under which directory contexts are resolved.
pub open spec fn pods_prefix() -> Seq<char> {
    seq!['p', 'o', 'd', 's']
}

/// The fixed prefix under which Git checkouts are resolved.
pub open spec fn src_prefix() -> Seq<char> {
    seq!['s', 'r', 'c']
}

/// What the mapper returns for each context: `pods` joined with a
/// directory fragment; `src` joined with the short name of a Git URL that
/// has one; and `CannotDeriveName`, carrying the URL, otherwise.
pub open spec fn spec_git_to_local(c: ContextModel) -> Result<Seq<char>, ErrorModel> {
    match c {
        ContextModel::Dir(d) => Ok(join_segs(pods_prefix(), d)),
        ContextModel::GitUrl(u) => match short_name_of(u) {
            Some(n) => Ok(join_segs(src_prefix(), n)),
            None => Err(ErrorModel::CannotDeriveName(u)),
        },
    }
}

/// The model of a mapping result: the path's or the error's character
/// content.
pub open spec fn result_model(r: Result<LocalPath, Error>) -> Result<Seq<char>, ErrorModel> {
    match r {
        Ok(p) => Ok(p@),
        Err(e) => Err(e@),
    }
}

/// Map a build context to the local directory where the service's source
/// is expected to live. Pure: the filesystem is neither consulted nor
/// touched, and no normalization is applied to the result.
pub fn git_to_local(ctx: &BuildContext) -> (r: Result<LocalPath, Error>)
    ensures
        result_model(r) == spec_git_to_local(ctx@),
{
    match ctx {
        BuildContext::Dir(dir) => {
            let p = LocalPath::join_under("pods", dir.as_str());
            proof {
                reveal_strlit("pods");
                assert("pods"@ =~= pods_prefix());
            }
            Ok(p)
        },
        BuildContext::GitUrl(url) => {
            match short_name(url.as_str()) {
                Some(n) => {
                    let p = LocalPath::join_under("src", n.as_str());
                    proof {
                        reveal_strlit("src");
                        assert("src"@ =~= src_prefix());
                    }
                    Ok(p)
                },
                None => Err(Error::CannotDeriveName(url.clone())),
            }
        },
    }
}

/// Every directory context maps successfully, to `pods` joined with the
/// directory fragment.
pub proof fn lemma_dir_mapped(d: Seq<char>)
    ensures
        spec_git_to_local(ContextModel::Dir(d)) == Ok::<Seq<char>, ErrorModel>(
            join_segs(pods_prefix(), d),
        ),
{
}

/// Mapping the same directory context twice yields equal paths: the
/// mapper's result is a function of the fragment alone, so any two results
/// for the same fragment succeed and agree.
pub proof fn lemma_dir_mapping_idempotent(
    d: Seq<char>,
    r1: Result<LocalPath, Error>,
    r2: Result<LocalPath, Error>,
)
    requires
        result_model(r1) == spec_git_to_local(ContextModel::Dir(d)),
        result_model(r2) == spec_git_to_local(ContextModel::Dir(d)),
    ensures
        r1 is Ok,
        r2 is Ok,
        r1->Ok_0@ == r2->Ok_0@,
{
}

/// Every Git URL that ends with `/`, a non-empty run of characters other
/// than `/` and `.`, and an optional `.git` suffix maps successfully: the
/// result is `src` joined with that run, so its last segment is the run
/// and the segment before it is `src`.
pub proof fn lemma_git_url_mapped(u: Seq<char>, n: Seq<char>)
    requires
        matches_name_rule(u, n),
    ensures
        spec_git_to_local(ContextModel::GitUrl(u)) == Ok::<Seq<char>, ErrorModel>(
            src_prefix() + seq!['/'] + n,
        ),
{
    lemma_short_name_complete(u, n);
}

/// Every Git URL that matches the rule for no name maps to
/// `CannotDeriveName` carrying that URL.
pub proof fn lemma_git_url_rejected(u: Seq<char>)
    requires
        forall|n: Seq<char>| !matches_name_rule(u, n),
    ensures
        spec_git_to_local(ContextModel::GitUrl(u)) == Err::<Seq<char>, ErrorModel>(
            ErrorModel::CannotDeriveName(u),
        ),
{
    if short_name_of(u) is Some {
        let n = short_name_of(u)->Some_0;
        lemma_short_name_sound(u, n);
    }
}

} // verus!
