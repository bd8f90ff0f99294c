//! Decisions of the two long-lived tasks. The refresher keeps the
//! shared cache warm; the display task consumes it. Both loops are run
//! by the binary, which performs the sleeps, fetches and OS calls and
//! hands every outcome back here as a plain value.

use vstd::prelude::*;

use rand::Rng;

use crate::cache::State;

verus! {

/// Delay before the next refresh after a successful publication (hours
/// scale).
pub const REFRESH_SUCCESS_DELAY_SECS: u64 = 21600;

/// Delay before retrying a failed or empty fetch (tens of seconds
/// scale). Failures are retried indefinitely: the refresher never
/// terminates and never propagates an error.
pub const REFRESH_RETRY_DELAY_SECS: u64 = 60;

/// Polling period of the display task while the cache is empty.
pub const CACHE_POLL_DELAY_SECS: u64 = 5;

/// One refresher cycle, given the outcome of the blocking fetch
/// (`None` for a failed fetch). A successful, non-empty list is
/// published into the cache wholesale and the refresher rests for the
/// long delay; a failure or an empty list leaves the cache untouched
/// and schedules the short retry delay. Returns whether a publication
/// happened and the delay, in seconds, to sleep before the next cycle.
pub fn refresher_step(state: &State, fetched: Option<Vec<String>>) -> (r: (bool, u64))
    ensures
        r.0 == match fetched {
            Some(urls) => urls@.len() > 0,
            None => false,
        },
        r.1 == if r.0 {
            REFRESH_SUCCESS_DELAY_SECS
        } else {
            REFRESH_RETRY_DELAY_SECS
        },
{
    match fetched {
        Some(urls) => {
            if urls.len() > 0 {
                state.set_urls(urls);
                (true, REFRESH_SUCCESS_DELAY_SECS)
            } else {
                (false, REFRESH_RETRY_DELAY_SECS)
            }
        },
        None => (false, REFRESH_RETRY_DELAY_SECS),
    }
}

/// What the display task does with one observed cache snapshot.
#[derive(Debug)]
pub enum DisplayDecision {
    /// Apply this URL now, then sleep for the configured wallpaper
    /// interval.
    Apply(String),
    /// The snapshot was empty: sleep this many seconds and poll again.
    Wait(u64),
}

/// Relies on `rand::thread_rng` and `rand::Rng::gen_range`: a uniformly
/// distributed index below `len`. Nothing beyond the range can be
/// promised of a random draw. `thread_rng` can panic at its first use
/// on a thread if the OS entropy source is unavailable — an
/// environmental failure no condition on the inputs can exclude.
#[verifier::external_body]
fn random_index(len: usize) -> (r: usize)
    requires
        len >= 1,
    ensures
        r < len,
{
    rand::thread_rng().gen_range(0..len)
}

/// Choose one URL uniformly at random from a non-empty list.
pub fn pick_random_url(urls: &Vec<String>) -> (r: Option<String>)
    ensures
        urls@.len() == 0 <==> r is None,
        r matches Some(u) ==> exists|i: int| 0 <= i < urls@.len() && u@ == #[trigger] urls@[i]@,
{
    if urls.len() == 0 {
        None
    } else {
        let i = random_index(urls.len());
        let chosen = urls[i].clone();
        proof {
            assert(chosen@ == urls@[i as int]@);
        }
        Some(chosen)
    }
}

/// One display iteration over a cache snapshot: an empty snapshot means
/// waiting one polling period, any non-empty snapshot means applying one
/// of its URLs, chosen uniformly at random, this very iteration.
pub fn display_step(urls: &Vec<String>) -> (d: DisplayDecision)
    ensures
        match d {
            DisplayDecision::Wait(delay) => urls@.len() == 0 && delay == CACHE_POLL_DELAY_SECS,
            DisplayDecision::Apply(u) => urls@.len() > 0 && exists|i: int|
                0 <= i < urls@.len() && u@ == #[trigger] urls@[i]@,
        },
{
    match pick_random_url(urls) {
        Some(u) => DisplayDecision::Apply(u),
        None => DisplayDecision::Wait(CACHE_POLL_DELAY_SECS),
    }
}

/// Law: once the display task observes a non-empty snapshot, it applies
/// a wallpaper on that very iteration — so after the cache becomes
/// non-empty, at most one polling period passes before an apply is
/// attempted. Conversely an empty snapshot never reaches the provider.
pub proof fn lemma_nonempty_snapshot_applies(urls: Seq<String>, d: DisplayDecision)
    requires
        match d {
            DisplayDecision::Wait(delay) => urls.len() == 0 && delay == CACHE_POLL_DELAY_SECS,
            DisplayDecision::Apply(u) => urls.len() > 0 && exists|i: int|
                0 <= i < urls.len() && u@ == #[trigger] urls[i]@,
        },
    ensures
        urls.len() > 0 <==> d is Apply,
        urls.len() == 0 <==> d is Wait,
{
}

} // verus!
