//! Workout synchronisation: which of the workouts a device asks about are
//! already stored.

use vstd::prelude::*;

verus! {

/// The workouts a device asks about, by their identifiers.
#[derive(Clone, Debug, PartialEq, Eq)]
pub struct CheckSyncStatusRequest {
    pub workout_uuids: Vec<String>,
}

/// The answer: the workouts already stored, and those asked about that
/// are not.
#[derive(Clone, Debug, PartialEq, Eq)]
pub struct SyncStatusResponse {
    pub synced_workouts: Vec<String>,
    pub unsynced_workouts: Vec<String>,
}

/// The texts of a list of strings.
pub open spec fn texts(list: Seq<String>) -> Seq<Seq<char>> {
    list.map_values(|s: String| s@)
}

/// Tells whether `wanted` is one of the strings of `list`.
pub fn contains_text(list: &Vec<String>, wanted: &String) -> (found: bool)
    ensures
        found == texts(list@).contains(wanted@),
{
    let n: usize = list.len();
    let mut i: usize = 0;
    while i < n
        invariant
            n == list@.len(),
            i <= n,
            forall|j: int| 0 <= j < i ==> texts(list@)[j] != wanted@,
        decreases n - i,
    {
        if list[i] == *wanted {
            assert(texts(list@)[i as int] == wanted@);
            return true;
        }
        i = i + 1;
    }
    false
}

/// Sorts the workouts asked about into stored and not stored. `existing`
/// holds the identifiers found in the store; they are the synced workouts.
/// The unsynced ones are those of the request that are not among them, in
/// the order of the request.
pub fn check_workout_sync_status(request: &CheckSyncStatusRequest, existing: Vec<String>) -> (response:
    SyncStatusResponse)
    ensures
        response.synced_workouts@ == existing@,
        texts(response.unsynced_workouts@) == texts(request.workout_uuids@).filter(
            |uuid: Seq<char>| !texts(existing@).contains(uuid),
        ),
{
    let n: usize = request.workout_uuids.len();
    let mut unsynced_workouts: Vec<String> = Vec::new();
    let ghost not_stored = |uuid: Seq<char>| !texts(existing@).contains(uuid);
    let mut i: usize = 0;
    while i < n
        invariant
            n == request.workout_uuids@.len(),
            i <= n,
            not_stored == |uuid: Seq<char>| !texts(existing@).contains(uuid),
            texts(unsynced_workouts@) == texts(request.workout_uuids@.subrange(0, i as int)).filter(
                not_stored,
            ),
        decreases n - i,
    {
        let uuid = &request.workout_uuids[i];
        let stored: bool = contains_text(&existing, uuid);
        proof {
            let head = texts(request.workout_uuids@.subrange(0, i as int));
            let next = texts(request.workout_uuids@.subrange(0, i + 1));
            assert(next.drop_last() == head);
            assert(next.last() == uuid@);
            reveal(Seq::filter);
            assert(next.filter(not_stored) == if not_stored(uuid@) {
                head.filter(not_stored).push(uuid@)
            } else {
                head.filter(not_stored)
            });
        }
        if !stored {
            let ghost before = unsynced_workouts@;
            unsynced_workouts.push(uuid.clone());
            assert(texts(unsynced_workouts@) == texts(before).push(uuid@));
        }
        i = i + 1;
    }
    proof {
        assert(request.workout_uuids@.subrange(0, n as int) == request.workout_uuids@);
    }
    SyncStatusResponse { synced_workouts: existing, unsynced_workouts }
}

} // verus!
