//! Where the dashboard is served.
use vstd::prelude::*;

verus! {

/// The path of the dashboard page: `/stats`, unless the served directory has an entry of
/// that name, which then keeps its path and the dashboard moves under `/.serve-here`.
pub open spec fn dashboard_page_path(stats_exists: bool) -> Seq<char> {
    if stats_exists { "/.serve-here/stats"@ } else { "/stats"@ }
}

/// The paths of the dashboard page and of the data it polls, given whether the served
/// directory has an entry named `stats`.
pub fn dashboard_route_paths(stats_exists: bool) -> (r: (String, String))
    ensures
        r.0@ == dashboard_page_path(stats_exists),
        r.1@ == dashboard_page_path(stats_exists) + "/data"@,
{
    let page = if stats_exists { "/.serve-here/stats" } else { "/stats" };
    let mut data = String::from_str(page);
    data.append("/data");
    (String::from_str(page), data)
}

/// The data of the dashboard lies under its page, and neither path is ever one of a served
/// entry named `stats` when there is one: the page is `/stats` exactly when no such entry
/// exists.
pub proof fn dashboard_paths_avoid_served_stats(stats_exists: bool)
    ensures
        stats_exists <==> dashboard_page_path(stats_exists) != "/stats"@,
{
    reveal_strlit("/stats");
    reveal_strlit("/.serve-here/stats");
    assert("/.serve-here/stats"@.len() != "/stats"@.len());
}

} // verus!
