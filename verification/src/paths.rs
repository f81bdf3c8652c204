//! Where the cache lives on disk: one directory per `(platform route,
//! account id)` pair under the tool's root cache directory,
//! `<os-cache-dir>/lolfetch/summoner/<route>/<puuid>/matches.json`.
//!
//! The path layout carries the clear-scoping guarantee: clearing one
//! account's directory can never touch a sibling account's, and clearing the
//! root removes them all.  The removal itself is the caller's I/O; this
//! module computes the paths and proves the scoping.

use vstd::prelude::*;

verus! {

/// The per-account cache directory under the tool's root directory.
pub open spec fn spec_summoner_dir(root: Seq<char>, route: Seq<char>, puuid: Seq<char>) -> Seq<
    char,
> {
    root + "/summoner/"@ + route + "/"@ + puuid
}

/// `a` begins `b`.
pub open spec fn is_str_prefix(a: Seq<char>, b: Seq<char>) -> bool {
    a.len() <= b.len() && b.subrange(0, a.len() as int) == a
}

/// Relies on dirs::cache_dir: the platform's per-user cache directory, an
/// absolute path, or `None` when the platform offers none.  `None` is also
/// returned here when the path is not valid UTF-8.
#[verifier::external_body]
fn os_cache_dir() -> (r: Option<String>)
    ensures
        r matches Some(p) ==> p@.len() > 0,
{
    dirs::cache_dir().and_then(|p| p.to_str().map(|s| s.to_string()))
}

/// The tool's root cache directory under the given OS cache directory.
pub fn cache_root(os_cache: &str) -> (r: String)
    ensures
        r@ == os_cache@ + "/lolfetch"@,
{
    let mut s = os_cache.to_owned();
    s.append("/lolfetch");
    s
}

/// The tool's root cache directory, or `None` when the platform offers no
/// per-user cache directory.
pub fn get_cache_dir() -> (r: Option<String>)
    ensures
        r matches Some(p) ==> exists|base: Seq<char>| base.len() > 0 && p@ == base + "/lolfetch"@,
{
    match os_cache_dir() {
        Some(base) => {
            let root = cache_root(base.as_str());
            proof {
                assert(base@.len() > 0 && root@ == base@ + "/lolfetch"@);
            }
            Some(root)
        },
        None => None,
    }
}

/// The cache directory of one account under the tool's root directory.
pub fn get_summoner_cache_dir(root: &str, route: &str, puuid: &str) -> (r: String)
    ensures
        r@ == spec_summoner_dir(root@, route@, puuid@),
{
    let mut s = root.to_owned();
    s.append("/summoner/");
    s.append(route);
    s.append("/");
    s.append(puuid);
    s
}

/// The cache file inside an account's cache directory.
pub fn matches_file_path(dir: &str) -> (r: String)
    ensures
        r@ == dir@ + "/matches.json"@,
{
    let mut s = dir.to_owned();
    s.append("/matches.json");
    s
}

/// No `'/'` anywhere in the sequence.
pub open spec fn slash_free(s: Seq<char>) -> bool {
    forall|i: int| 0 <= i < s.len() ==> #[trigger] s[i] != '/'
}

/// Law, first half of clear scoping: every account directory lies strictly
/// under the tool's root directory, so clearing the root clears every
/// account.
pub proof fn lemma_summoner_dir_under_root(root: Seq<char>, route: Seq<char>, puuid: Seq<char>)
    ensures
        is_str_prefix(root, spec_summoner_dir(root, route, puuid)),
        spec_summoner_dir(root, route, puuid).len() > root.len(),
{
    reveal_strlit("/summoner/");
    reveal_strlit("/");
    let d = spec_summoner_dir(root, route, puuid);
    assert(d.subrange(0, root.len() as int) =~= root);
}

/// Law, second half of clear scoping: for two accounts that differ in route
/// or account id (neither containing a path separator), one account's
/// directory never equals the other's and never lies under it, so clearing
/// one account's directory leaves every sibling's cache intact.
pub proof fn lemma_summoner_dirs_disjoint(
    root: Seq<char>,
    route1: Seq<char>,
    puuid1: Seq<char>,
    route2: Seq<char>,
    puuid2: Seq<char>,
)
    requires
        slash_free(route1),
        slash_free(puuid1),
        slash_free(route2),
        slash_free(puuid2),
        route1 != route2 || puuid1 != puuid2,
    ensures
        spec_summoner_dir(root, route1, puuid1) != spec_summoner_dir(root, route2, puuid2),
        !is_str_prefix(
            spec_summoner_dir(root, route1, puuid1) + "/"@,
            spec_summoner_dir(root, route2, puuid2),
        ),
{
    reveal_strlit("/summoner/");
    reveal_strlit("/");
    let sep = "/summoner/"@;
    let sl = "/"@;
    assert(sep.len() == 10 && sep[9] == '/' && sl.len() == 1 && sl[0] == '/');
    let d1 = spec_summoner_dir(root, route1, puuid1);
    let d2 = spec_summoner_dir(root, route2, puuid2);
    let b = root.len() as int + 10;
    assert(d1.len() == b + route1.len() + 1 + puuid1.len());
    assert(d2.len() == b + route2.len() + 1 + puuid2.len());
    // The character picture of d = root + "/summoner/" + route + "/" + puuid.
    assert(forall|i: int| 0 <= i < route1.len() ==> d1[b + i] == route1[i]);
    assert(d1[b + route1.len()] == '/');
    assert(forall|i: int| 0 <= i < puuid1.len() ==> d1[b + route1.len() + 1 + i] == puuid1[i]);
    assert(forall|i: int| 0 <= i < route2.len() ==> d2[b + i] == route2[i]);
    assert(d2[b + route2.len() as int] == '/');
    assert(forall|i: int| 0 <= i < puuid2.len() ==> d2[b + route2.len() + 1 + i] == puuid2[i]);
    // Equality would force route1 == route2 and puuid1 == puuid2.
    if d1 == d2 {
        if route1.len() < route2.len() {
            assert(d2[b + route1.len() as int] == route2[route1.len() as int]);
            assert(false);
        }
        if route2.len() < route1.len() {
            assert(d1[b + route2.len() as int] == route1[route2.len() as int]);
            assert(false);
        }
        assert(route1 =~= route2);
        assert(puuid1.len() == puuid2.len());
        assert(puuid1 =~= puuid2);
        assert(false);
    }
    // Nesting would put a separator inside the slash-free trailing segments
    // of d2.
    if is_str_prefix(d1 + sl, d2) {
        assert(d1.len() + 1 <= d2.len());
        assert(forall|i: int| 0 <= i < d1.len() + 1 ==> #[trigger] d2[i] == (d1 + sl)[i]);
        assert(d2[d1.len() as int] == '/');
        // d1.len() > b, and the only '/' in d2 past position b sits at
        // b + route2.len().
        if d1.len() < b + route2.len() {
            assert(d2[d1.len() as int] == route2[d1.len() - b]);
            assert(false);
        }
        if d1.len() > b + route2.len() {
            assert(d2[d1.len() as int] == puuid2[d1.len() - (b + route2.len() + 1)]);
            assert(false);
        }
        // So route2.len() == route1.len() + 1 + puuid1.len(), and d1's own
        // separator after route1 falls inside route2.
        assert(d2[b + route1.len() as int] == (d1 + sl)[b + route1.len() as int]);
        assert(d2[b + route1.len() as int] == route2[route1.len() as int]);
        assert(false);
    }
}

} // verus!
