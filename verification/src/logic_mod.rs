//! The population logic: one request to the storage per name, in the order
//! given, stopping at the first refusal.

use vstd::prelude::*;
use crate::storage_mod::{failure_of, Storage};

verus! {

/// The names of a request to populate, each as its text.
pub open spec fn names_of(fishnames: Seq<&str>) -> Seq<Seq<char>> {
    Seq::new(fishnames.len(), |i: int| fishnames[i]@)
}

/// The answer of `storage` to the request of index `i`, when `names` are
/// requested in order after the history `before`.
pub open spec fn answer_at<S: Storage>(
    storage: S,
    before: Seq<Seq<char>>,
    names: Seq<Seq<char>>,
    i: int,
) -> Option<Seq<char>> {
    storage.verdict(before + names.take(i), names[i])
}

/// The first `n` requests are all granted.
pub open spec fn granted_through<S: Storage>(
    storage: S,
    before: Seq<Seq<char>>,
    names: Seq<Seq<char>>,
    n: int,
) -> bool {
    forall|j: int| 0 <= j < n ==> #[trigger] answer_at(storage, before, names, j) is None
}

/// The request of index `k` is the first that the storage refuses.
pub open spec fn stops_at<S: Storage>(
    storage: S,
    before: Seq<Seq<char>>,
    names: Seq<Seq<char>>,
    k: int,
) -> bool {
    &&& 0 <= k < names.len()
    &&& granted_through(storage, before, names, k)
    &&& answer_at(storage, before, names, k) is Some
}

/// Some request is refused.
pub open spec fn stops<S: Storage>(
    storage: S,
    before: Seq<Seq<char>>,
    names: Seq<Seq<char>>,
) -> bool {
    exists|k: int| stops_at(storage, before, names, k)
}

/// How many requests a population makes: all of them, or those up to and
/// including the first refused one.
pub open spec fn requests_made<S: Storage>(
    storage: S,
    before: Seq<Seq<char>>,
    names: Seq<Seq<char>>,
) -> int {
    if stops(storage, before, names) {
        (choose|k: int| stops_at(storage, before, names, k)) + 1
    } else {
        names.len() as int
    }
}

/// What a population reports: nothing where every request was granted, else
/// the message of the first refusal.
pub open spec fn reported_failure<S: Storage>(
    storage: S,
    before: Seq<Seq<char>>,
    names: Seq<Seq<char>>,
) -> Option<Seq<char>> {
    if stops(storage, before, names) {
        answer_at(storage, before, names, requests_made(storage, before, names) - 1)
    } else {
        None
    }
}

/// At most one request is the first refused one.
pub proof fn lemma_stop_is_unique<S: Storage>(
    storage: S,
    before: Seq<Seq<char>>,
    names: Seq<Seq<char>>,
    k1: int,
    k2: int,
)
    requires
        stops_at(storage, before, names, k1),
        stops_at(storage, before, names, k2),
    ensures
        k1 == k2,
{
    if k1 < k2 {
        assert(answer_at(storage, before, names, k1) is None);
    }
    if k2 < k1 {
        assert(answer_at(storage, before, names, k2) is None);
    }
}

/// A population that is seen to stop at `k` made `k + 1` requests and reports
/// the answer to the last of them.
pub proof fn lemma_stop_found<S: Storage>(
    storage: S,
    before: Seq<Seq<char>>,
    names: Seq<Seq<char>>,
    k: int,
)
    requires
        stops_at(storage, before, names, k),
    ensures
        stops(storage, before, names),
        requests_made(storage, before, names) == k + 1,
        reported_failure(storage, before, names) == answer_at(storage, before, names, k),
{
    let c = choose|c: int| stops_at(storage, before, names, c);
    lemma_stop_is_unique(storage, before, names, c, k);
}

/// A population all of whose requests are granted made one request per name
/// and reports nothing.
pub proof fn lemma_never_stopped<S: Storage>(
    storage: S,
    before: Seq<Seq<char>>,
    names: Seq<Seq<char>>,
)
    requires
        granted_through(storage, before, names, names.len() as int),
    ensures
        !stops(storage, before, names),
        requests_made(storage, before, names) == names.len(),
        reported_failure(storage, before, names) is None,
{
    if stops(storage, before, names) {
        let c = choose|c: int| stops_at(storage, before, names, c);
        assert(answer_at(storage, before, names, c) is None);
    }
}

/// Where the first `n` requests are not all granted, one of them is the first
/// that the storage refuses.
pub proof fn lemma_some_request_is_refused<S: Storage>(
    storage: S,
    before: Seq<Seq<char>>,
    names: Seq<Seq<char>>,
    n: int,
)
    requires
        0 <= n <= names.len(),
        !granted_through(storage, before, names, n),
    ensures
        stops(storage, before, names),
    decreases n,
{
    if n > 0 {
        if granted_through(storage, before, names, n - 1) {
            assert(answer_at(storage, before, names, n - 1) is Some);
            assert(stops_at(storage, before, names, n - 1));
        } else {
            lemma_some_request_is_refused(storage, before, names, n - 1);
        }
    }
}

/// Asks `storage` to create one fish per name of `fishnames`, in order.
///
/// The first refusal ends the population and is handed back as it came; the
/// names after it are never requested. Nothing that was created is taken back.
pub fn populate_aquarium<S: Storage>(storage: &mut S, fishnames: Vec<&str>) -> (outcome: Result<
    (),
    String,
>)
    ensures
        failure_of(outcome) == reported_failure(
            *old(storage),
            old(storage).calls(),
            names_of(fishnames@),
        ),
        final(storage).calls() == old(storage).calls() + names_of(fishnames@).take(
            requests_made(*old(storage), old(storage).calls(), names_of(fishnames@)),
        ),
        outcome is Ok <==> granted_through(
            *old(storage),
            old(storage).calls(),
            names_of(fishnames@),
            fishnames@.len() as int,
        ),
        outcome is Ok ==> final(storage).calls() == old(storage).calls() + names_of(fishnames@),
        forall|before: Seq<Seq<char>>, name: Seq<char>|
            #[trigger] final(storage).verdict(before, name) == old(storage).verdict(before, name),
{
    let ghost start = *storage;
    let ghost before = storage.calls();
    let ghost names = names_of(fishnames@);
    let mut i: usize = 0;
    while i < fishnames.len()
        invariant
            0 <= i <= fishnames.len(),
            start == *old(storage),
            before == old(storage).calls(),
            names == names_of(fishnames@),
            granted_through(start, before, names, i as int),
            storage.calls() == before + names.take(i as int),
            forall|b: Seq<Seq<char>>, n: Seq<char>|
                #[trigger] storage.verdict(b, n) == start.verdict(b, n),
        decreases fishnames.len() - i,
    {
        let name: &str = fishnames[i];
        assert((before + names.take(i as int)).push(name@) =~= before + names.take(i + 1));
        if let Err(message) = storage.new_fish(name) {
            proof {
                lemma_stop_found(start, before, names, i as int);
            }
            return Err(message);
        }
        i += 1;
    }
    proof {
        lemma_never_stopped(start, before, names);
        assert(names.take(names.len() as int) =~= names);
    }
    Ok(())
}

} // verus!
