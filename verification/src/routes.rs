//! The request router: maps an inbound request path to the index page, a
//! repository detail page, or static-asset lookup — and rejects repository
//! names that could traverse outside the root before any filesystem access.

use crate::text::{append_char, chars_of};
use vstd::prelude::*;

verus! {

/// Whether the path is exactly the root.
pub open spec fn is_root_path(s: Seq<char>) -> bool {
    s.len() == 1 && s[0] == '/'
}

/// Whether the path opens with the repository route's prefix.
pub open spec fn has_repo_prefix(s: Seq<char>) -> bool {
    s.len() >= 6 && s[0] == '/' && s[1] == 'r' && s[2] == 'e' && s[3] == 'p' && s[4] == 'o' && s[5]
        == '/'
}

/// What follows the repository route's prefix.
pub open spec fn repo_name_of(s: Seq<char>) -> Seq<char> {
    s.skip(6)
}

/// Whether a repository name is safe to join against the root: non-empty, one
/// single segment (no separator), and no current- or parent-directory
/// reference.
pub open spec fn safe_segment(n: Seq<char>) -> bool {
    &&& n.len() > 0
    &&& forall|i: int|
        0 <= i < n.len() ==> ((#[trigger] n[i]) != '/' && n[i] != '\\' && n[i] != '\0')
    &&& !(n.len() == 1 && n[0] == '.')
    &&& !(n.len() == 2 && n[0] == '.' && n[1] == '.')
}

/// Where one inbound request goes.
pub enum Route {
    /// The index page.
    Index,
    /// The detail page of the named repository.
    Repo(String),
    /// Static-asset lookup for the path.
    Asset(String),
    /// A repository route whose name was rejected before filesystem access.
    Rejected,
}

/// Which requests the telemetry step records a visit for.
#[derive(Clone, Copy, Debug, PartialEq, Eq, Structural)]
pub enum TelemetryScope {
    /// Every inbound request, asset lookups included.
    AllRequests,
    /// Only the two page routes, so asset hits do not inflate the analytics.
    PageRoutesOnly,
}

/// Whether a visit is recorded for a route under the given scope.
pub fn should_record(scope: TelemetryScope, route: &Route) -> (r: bool)
    ensures
        scope == TelemetryScope::AllRequests ==> r,
        scope == TelemetryScope::PageRoutesOnly ==> (r <==> (route is Index || route is Repo)),
{
    match scope {
        TelemetryScope::AllRequests => true,
        TelemetryScope::PageRoutesOnly => match route {
            Route::Index => true,
            Route::Repo(_) => true,
            Route::Asset(_) => false,
            Route::Rejected => false,
        },
    }
}

/// Maps a request path to its route. The root goes to the index; a repository
/// path with a safe name goes to that repository's page; a repository path
/// whose name is empty, spans segments or references a parent is rejected;
/// every other path goes to asset lookup unchanged.
pub fn route_of(path: &str) -> (r: Route)
    ensures
        ({
            let s = path@;
            match r {
                Route::Index => is_root_path(s),
                Route::Repo(name) => has_repo_prefix(s) && safe_segment(repo_name_of(s)) && name@
                    == repo_name_of(s),
                Route::Rejected => has_repo_prefix(s) && !safe_segment(repo_name_of(s)),
                Route::Asset(p) => !is_root_path(s) && !has_repo_prefix(s) && p@ == s,
            }
        }),
{
    let cs = chars_of(path);
    if cs.len() == 1 && cs[0] == '/' {
        return Route::Index;
    }
    if cs.len() >= 6 && cs[0] == '/' && cs[1] == 'r' && cs[2] == 'e' && cs[3] == 'p' && cs[4] == 'o'
        && cs[5] == '/' {
        let name_len = cs.len() - 6;
        if name_len == 0 {
            return Route::Rejected;
        }
        if name_len == 1 && cs[6] == '.' {
            return Route::Rejected;
        }
        if name_len == 2 && cs[6] == '.' && cs[7] == '.' {
            return Route::Rejected;
        }
        let mut i: usize = 6;
        let mut name = String::new();
        proof {
            assert(name@ =~= path@.subrange(6, 6));
        }
        while i < cs.len()
            invariant
                6 <= i <= cs.len(),
                cs@ == path@,
                has_repo_prefix(path@),
                name@ == path@.subrange(6, i as int),
                forall|j: int|
                    6 <= j < i ==> ((#[trigger] cs@[j]) != '/' && cs@[j] != '\\' && cs@[j] != '\0'),
            decreases cs.len() - i,
        {
            let c = cs[i];
            if c == '/' || c == '\\' || c == '\0' {
                proof {
                    assert(repo_name_of(path@)[i - 6] == path@[i as int]);
                    assert(!safe_segment(repo_name_of(path@)));
                }
                return Route::Rejected;
            }
            append_char(&mut name, c);
            proof {
                assert(path@.subrange(6, i + 1).drop_last() =~= path@.subrange(6, i as int));
                assert(path@.subrange(6, i + 1).last() == path@[i as int]);
                assert(name@ =~= path@.subrange(6, i + 1));
            }
            i += 1;
        }
        proof {
            assert(path@.subrange(6, path@.len() as int) =~= repo_name_of(path@));
            assert(safe_segment(repo_name_of(path@))) by {
                assert(forall|k: int|
                    0 <= k < repo_name_of(path@).len() ==> repo_name_of(path@)[k] == path@[k + 6]);
            }
        }
        return Route::Repo(name);
    }
    Route::Asset(path.to_owned())
}

} // verus!
