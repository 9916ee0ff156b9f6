//! What holds of the container over runs of several operations, stated over
//! the transitions that the operations' contracts use.

use crate::artifact::{after_init, after_update, decoded_as, init_reports};
use crate::error::ArtifactError;
use crate::watch::after_reload;
use vstd::prelude::*;

verus! {

/// One access to the container: a `get`, or an `update` with its value.
pub enum Access<T> {
    Get,
    Update(T),
}

/// The slot after one access: a `get` leaves it as it is, an `update`
/// replaces what it holds.
pub open spec fn after_access<T>(before: Option<T>, access: Access<T>) -> Option<T> {
    match access {
        Access::Get => before,
        Access::Update(value) => after_update(before, value),
    }
}

/// The slot after the accesses of `log`, in their order, when it held
/// `initial` before them.
pub open spec fn after_accesses<T>(initial: Option<T>, log: Seq<Access<T>>) -> Option<T>
    decreases log.len(),
{
    if log.len() == 0 {
        initial
    } else {
        after_access(after_accesses(initial, log.drop_last()), log.last())
    }
}

/// What the access at position `at` of `log` finds stored: the slot after
/// the accesses before it.
pub open spec fn observed<T>(initial: Option<T>, log: Seq<Access<T>>, at: int) -> Option<T> {
    after_accesses(initial, log.take(at))
}

/// The slot after a run of `init` calls whose loads, had each been made,
/// gave `loads`.
pub open spec fn after_inits<T>(before: Option<T>, loads: Seq<Result<T, ArtifactError>>) -> Option<
    T,
>
    decreases loads.len(),
{
    if loads.len() == 0 {
        before
    } else {
        after_init(after_inits(before, loads.drop_last()), loads.last())
    }
}

/// A filled container keeps its value through any number of `init` calls,
/// whatever their loads would have given.
pub proof fn law_init_keeps_value<T>(before: Option<T>, loads: Seq<Result<T, ArtifactError>>)
    requires
        before is Some,
    ensures
        after_inits(before, loads) == before,
    decreases loads.len(),
{
    if loads.len() > 0 {
        law_init_keeps_value(before, loads.drop_last());
    }
}

/// Of any number of `init` calls on an empty container, the first whose
/// load succeeds decides the value: the calls after it change nothing.
pub proof fn law_first_load_is_kept<T>(loads: Seq<Result<T, ArtifactError>>, first: int)
    requires
        0 <= first < loads.len(),
        loads[first] is Ok,
        forall|j: int| 0 <= j < first ==> loads[j] is Err,
    ensures
        after_inits(None, loads) == Some(loads[first]->Ok_0),
    decreases loads.len(),
{
    let earlier = loads.drop_last();
    if first == loads.len() - 1 {
        lemma_failed_inits_leave_empty(earlier);
    } else {
        law_first_load_is_kept(earlier, first);
    }
}

/// A container stays empty while every load fails.
pub proof fn lemma_failed_inits_leave_empty<T>(loads: Seq<Result<T, ArtifactError>>)
    requires
        forall|j: int| 0 <= j < loads.len() ==> loads[j] is Err,
    ensures
        after_inits(None::<T>, loads) is None,
    decreases loads.len(),
{
    if loads.len() > 0 {
        lemma_failed_inits_leave_empty(loads.drop_last());
    }
}

/// Of any number of `init` calls on an empty container, every call from
/// the first whose load succeeds on reports success and leaves the value of
/// that one load stored.
pub proof fn law_single_load<T>(
    loads: Seq<Result<T, ArtifactError>>,
    first: int,
    caller: int,
    result: Result<(), ArtifactError>,
)
    requires
        0 <= first <= caller < loads.len(),
        loads[first] is Ok,
        forall|j: int| 0 <= j < first ==> loads[j] is Err,
        init_reports(after_inits(None, loads.take(caller)), loads[caller], result),
    ensures
        result is Ok,
        after_inits(None, loads.take(caller + 1)) == Some(loads[first]->Ok_0),
{
    law_first_load_is_kept(loads.take(caller + 1), first);
    if first < caller {
        law_first_load_is_kept(loads.take(caller), first);
    }
}

/// No operation empties a filled container.
pub proof fn law_filled_stays_filled<T>(
    before: Option<T>,
    loaded: Result<T, ArtifactError>,
    new_data: T,
)
    requires
        before is Some,
    ensures
        after_init(before, loaded) is Some,
        after_update(before, new_data) is Some,
        after_reload(before, loaded) is Some,
{
}

/// An `init` whose load fails leaves the container empty, and a later
/// `init` whose load succeeds fills it.
pub proof fn law_failed_init_can_be_retried<T>(cause: ArtifactError, value: T)
    ensures
        after_init(None::<T>, Err(cause)) is None,
        after_init(after_init(None::<T>, Err(cause)), Ok(value)) == Some(value),
{
}

/// An `init` whose source decodes to `value` fills an empty container with
/// exactly `value`.
pub proof fn law_init_stores_decoded_value<T>(value: T)
    ensures
        after_init(None, decoded_as(Ok(value))) == Some(value),
{
}

/// After an `update` with `value`, every access finds exactly `value`
/// stored until the next `update`.
pub proof fn law_get_after_update<T>(
    initial: Option<T>,
    log: Seq<Access<T>>,
    written: int,
    at: int,
    value: T,
)
    requires
        0 <= written < at <= log.len(),
        log[written] == Access::Update(value),
        forall|k: int| written < k < at ==> log[k] is Get,
    ensures
        observed(initial, log, at) == Some(value),
    decreases at,
{
    let seen = log.take(at);
    assert(seen.last() == log[at - 1]);
    assert(seen.drop_last() =~= log.take(at - 1));
    if written < at - 1 {
        law_get_after_update(initial, log, written, at - 1, value);
    }
}

/// Every access to a filled container finds a whole committed value: the
/// one it held at first, or the value of an `update` before the access.
pub proof fn law_get_sees_committed_value<T>(initial: T, log: Seq<Access<T>>, at: int)
    requires
        0 <= at <= log.len(),
    ensures
        observed(Some(initial), log, at) == Some(initial) || exists|j: int|
            0 <= j < at && observed(Some(initial), log, at) == Some(#[trigger] log[j]->Update_0)
                && log[j] is Update,
    decreases at,
{
    if at > 0 {
        let seen = log.take(at);
        assert(seen.last() == log[at - 1]);
        assert(seen.drop_last() =~= log.take(at - 1));
        match log[at - 1] {
            Access::Update(value) => {
                assert(log[at - 1] is Update && observed(Some(initial), log, at) == Some(
                    log[at - 1]->Update_0,
                ));
            },
            Access::Get => {
                law_get_sees_committed_value(initial, log, at - 1);
                assert(observed(Some(initial), log, at) == observed(Some(initial), log, at - 1));
            },
        }
    }
}

/// A reload whose load succeeds replaces whatever was stored, and one whose
/// load fails leaves the stored value as it was.
pub proof fn law_reload_replaces_or_keeps<T>(before: Option<T>, value: T, cause: ArtifactError)
    ensures
        after_reload(before, Ok(value)) == Some(value),
        after_reload(before, Err(cause)) == before,
        after_reload(after_init(None, Ok(value)), Err(cause)) == Some(value),
{
}

} // verus!
