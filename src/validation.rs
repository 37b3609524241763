//! Checks on the arguments of an import.

use crate::error::{ErrorView, NutError};
use crate::text::owned;
use vstd::prelude::*;
use vstd::string::*;

verus! {

/// Checks the import arguments: exactly one of a search query and a list of
/// repository names must be given.
pub fn validate_import_args(query: &Option<String>, full_repository_names: &[String]) -> (r: Result<(), NutError>)
    ensures
        query is Some && full_repository_names@.len() > 0 <==> (r matches Err(e) && e@ == ErrorView::QueryAndPositionalArgsConflict),
        query is None && full_repository_names@.len() == 0 <==> (r matches Err(e) && e@ == ErrorView::InvalidArgumentCombination),
        r is Ok <==> (query is Some) != (full_repository_names@.len() > 0),
{
    if query.is_some() && full_repository_names.len() > 0 {
        return Err(NutError::QueryAndPositionalArgsConflict);
    }
    if query.is_none() && full_repository_names.len() == 0 {
        return Err(NutError::InvalidArgumentCombination);
    }
    Ok(())
}

/// `s` holds exactly one `/`, at position `i`.
pub open spec fn single_slash_at(s: Seq<char>, i: int) -> bool {
    0 <= i < s.len() && s[i] == '/' && forall|j: int| 0 <= j < s.len() && j != i ==> s[j] != '/'
}

/// `s` has the shape `owner/repo`: splitting it at `/` gives two parts.
pub open spec fn is_full_name(s: Seq<char>) -> bool {
    exists|i: int| single_slash_at(s, i)
}

/// Splits a full repository name `owner/repo` into its two parts.
pub fn parse_repository_name(full_name: &str) -> (r: Result<(&str, &str), NutError>)
    ensures
        r is Ok <==> is_full_name(full_name@),
        r matches Ok((owner, repo)) ==> single_slash_at(full_name@, owner@.len() as int)
            && full_name@ == owner@ + "/"@ + repo@,
        r matches Err(e) ==> e@ == (ErrorView::InvalidRepositoryName { name: full_name@ }),
{
    let n = full_name.unicode_len();
    let mut slashes: usize = 0;
    let mut at: usize = 0;
    let mut i: usize = 0;
    while i < n
        invariant
            n == full_name@.len(),
            i <= n,
            slashes <= i,
            slashes == 0 ==> forall|j: int| 0 <= j < i ==> full_name@[j] != '/',
            slashes == 1 ==> at < i && full_name@[at as int] == '/'
                && forall|j: int| 0 <= j < i && j != at ==> full_name@[j] != '/',
            slashes >= 2 ==> exists|a: int, b: int| 0 <= a < b < i && full_name@[a] == '/' && full_name@[b] == '/',
        decreases n - i,
    {
        if full_name.get_char(i) == '/' {
            if slashes == 1 {
                assert(full_name@[at as int] == '/' && full_name@[i as int] == '/');
            }
            if slashes == 0 {
                at = i;
            }
            if slashes < 2 {
                slashes = slashes + 1;
            }
        }
        i = i + 1;
    }
    if slashes != 1 {
        if slashes >= 2 {
            assert(!is_full_name(full_name@)) by {
                let (a, b) = choose|a: int, b: int| 0 <= a < b < n && full_name@[a] == '/' && full_name@[b] == '/';
                assert forall|k: int| !single_slash_at(full_name@, k) by {
                    if single_slash_at(full_name@, k) {
                        assert(a == k && b == k);
                    }
                }
            }
        } else {
            assert(!is_full_name(full_name@)) by {
                assert forall|k: int| !single_slash_at(full_name@, k) by {}
            }
        }
        return Err(NutError::InvalidRepositoryName { name: owned(full_name) });
    }
    let owner = full_name.substring_char(0, at);
    let repo = full_name.substring_char(at + 1, n);
    proof {
        assert(full_name@ =~= owner@ + "/"@ + repo@) by {
            reveal_strlit("/");
        }
        assert(single_slash_at(full_name@, at as int));
    }
    Ok((owner, repo))
}

} // verus!
