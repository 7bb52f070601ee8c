use vstd::prelude::*;

use crate::error::{chain_trace, plain_trace, Error, Raised};
use crate::location::Location;

verus! {

/// An error made by `plain` has no trail.
pub proof fn plain_has_no_trail<E>(source: E)
    ensures
        plain_trace(source).trail is None,
{
}

/// Chaining a fresh underlying error at `at` gives the trail `[at]`.
pub proof fn fresh_chain_starts_trail<E>(source: E, at: Location)
    ensures
        chain_trace(Raised::Fresh(source), at).trail == Some(seq![at]),
{
}

/// Chaining an error made by `plain` adds no frame: it stays untraced.
pub proof fn plain_chain_stays_untraced<E>(source: E, error: Error<E>, at: Location)
    requires
        error@ == plain_trace(source),
    ensures
        chain_trace(Raised::Traced(error), at).trail is None,
{
}

/// Chaining twice keeps both frames, in call order: the first call site
/// first, the second after it.
pub proof fn chain_twice_in_order<E>(source: E, inner: Error<E>, first: Location, second: Location)
    requires
        inner@ == chain_trace(Raised::Fresh(source), first),
    ensures
        chain_trace(Raised::Traced(inner), second).trail == Some(seq![first, second]),
{
    assert(seq![first].push(second) =~= seq![first, second]);
}

/// Each propagation of a traced error adds exactly one frame, at the end,
/// and leaves the frames before it as they were.
pub proof fn chain_adds_one_frame<E>(error: Error<E>, at: Location)
    requires
        error@.trail is Some,
    ensures
        chain_trace(Raised::Traced(error), at).trail->0.len() == error@.trail->0.len() + 1,
        chain_trace(Raised::Traced(error), at).trail->0.drop_last() == error@.trail->0,
        chain_trace(Raised::Traced(error), at).trail->0.last() == at,
{
    assert(error@.trail->0.push(at).drop_last() =~= error@.trail->0);
}

/// Chaining never changes the underlying error: a fresh error becomes the
/// source, and a traced error keeps its own.
pub proof fn chain_keeps_source<E>(raised: Raised<E>, at: Location)
    ensures
        chain_trace(raised, at).source == match raised {
            Raised::Fresh(source) => source,
            Raised::Traced(error) => error@.source,
        },
{
}

} // verus!
