//! Retry across the grouping index for one tile.
//!
//! A tile's grouping index is not known in advance: a request is tried at the
//! hint, then at the hint plus one, and so on, until the server answers with
//! a success status or the index passes the configured maximum.
use vstd::prelude::*;

verus! {

/// What to do after the server answered one request for a tile.
#[derive(Clone, Copy, Debug, PartialEq, Eq, Structural)]
pub enum Attempt {
    /// The tile was served at this grouping index.
    Found(u32),
    /// Ask again at this grouping index.
    Retry(u32),
    /// The index passed the maximum: the tile lies past the pyramid's boundary.
    Exhausted,
}

/// Whether a request may be made at grouping index `group`: only at or
/// below the maximum.
pub open spec fn may_request_spec(group: u32, max_group: u32) -> bool {
    group <= max_group
}

/// Decides, before a request, whether grouping index `group` may be asked
/// for at all. Where it may not, the tile is exhausted and no request is made.
pub fn may_request(group: u32, max_group: u32) -> (r: bool)
    ensures
        r == may_request_spec(group, max_group),
{
    group <= max_group
}

/// The decision taken after a request at `group` was answered. An index
/// above the maximum is never found, whatever the answer.
pub open spec fn attempt_after(group: u32, max_group: u32, success: bool) -> Attempt {
    if group > max_group {
        Attempt::Exhausted
    } else if success {
        Attempt::Found(group)
    } else if group == max_group {
        Attempt::Exhausted
    } else {
        Attempt::Retry((group + 1) as u32)
    }
}

/// Decides what follows a response to a request made at grouping index `group`.
/// `success` tells whether the server answered with a success status; a
/// transport failure is handed in as `false`, like any other non-success.
pub fn after_response(group: u32, max_group: u32, success: bool) -> (r: Attempt)
    ensures
        r == attempt_after(group, max_group, success),
{
    if group > max_group {
        Attempt::Exhausted
    } else if success {
        Attempt::Found(group)
    } else if group == max_group {
        Attempt::Exhausted
    } else {
        Attempt::Retry(group + 1)
    }
}

/// The result of the whole retry sequence that starts at `group`, against a
/// server that answers index `g` successfully exactly when `ok(g)`: no
/// request is made above the maximum, and each answer is decided by
/// `attempt_after`.
pub open spec fn fetch_outcome(ok: spec_fn(u32) -> bool, group: u32, max_group: u32) -> Option<u32>
    decreases max_group - group,
{
    if !may_request_spec(group, max_group) {
        None
    } else {
        match attempt_after(group, max_group, ok(group)) {
            Attempt::Found(g) => Some(g),
            Attempt::Exhausted => None,
            Attempt::Retry(g) => fetch_outcome(ok, g, max_group),
        }
    }
}

/// The retry sequence from hint `hint` yields the smallest index `g` with
/// `hint <= g <= max_group` that the server answers successfully; it
/// reports exhaustion exactly when no such index exists (in particular
/// whenever the hint already exceeds the maximum).
pub proof fn lemma_fetch_finds_first_success(ok: spec_fn(u32) -> bool, hint: u32, max_group: u32)
    ensures
        match fetch_outcome(ok, hint, max_group) {
            Some(g) => hint <= g <= max_group && ok(g) && forall|k: u32|
                hint <= k < g ==> !#[trigger] ok(k),
            None => forall|k: u32| hint <= k <= max_group ==> !#[trigger] ok(k),
        },
    decreases max_group - hint,
{
    if hint < max_group && !ok(hint) {
        lemma_fetch_finds_first_success(ok, (hint + 1) as u32, max_group);
        assert forall|k: u32| hint <= k < hint + 1 implies !#[trigger] ok(k) by {
            assert(k == hint);
        }
    }
}

/// Where a tile is served at exactly one grouping index `required`, and the
/// hint threaded in from the previous tile does not pass it, the retry
/// sequence finds the tile at `required`, without exhausting, as long as
/// `required` is within the maximum.
pub proof fn lemma_fetch_reaches_required_group(
    ok: spec_fn(u32) -> bool,
    hint: u32,
    required: u32,
    max_group: u32,
)
    requires
        hint <= required <= max_group,
        forall|k: u32| #[trigger] ok(k) <==> k == required,
    ensures
        fetch_outcome(ok, hint, max_group) == Some(required),
{
    lemma_fetch_finds_first_success(ok, hint, max_group);
    assert(ok(required));
}

} // verus!
