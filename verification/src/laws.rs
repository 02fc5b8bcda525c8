//! What holds of every population, whatever the storage.
//!
//! The laws speak of [`requests_made`] and [`reported_failure`], by which the
//! contract of every `populate_aquarium` says what it returns and which
//! requests the storage received.

use vstd::prelude::*;
use crate::logic_mod::{
    answer_at,
    granted_through,
    lemma_never_stopped,
    lemma_some_request_is_refused,
    lemma_stop_found,
    reported_failure,
    requests_made,
    stops,
    stops_at,
};
use crate::storage_mod::Storage;
use crate::substitute::FakeStorage;
use crate::StorageStruct;

verus! {

/// A population never makes more requests than it was given names, and the
/// requests it makes are the first names given, in the order given.
pub proof fn law_requests_are_a_prefix<S: Storage>(
    storage: S,
    before: Seq<Seq<char>>,
    names: Seq<Seq<char>>,
)
    ensures
        0 <= requests_made(storage, before, names) <= names.len(),
        forall|i: int|
            0 <= i < requests_made(storage, before, names) ==> names.take(
                requests_made(storage, before, names),
            )[i] == names[i],
{
    if stops(storage, before, names) {
        let k = choose|k: int| stops_at(storage, before, names, k);
        assert(requests_made(storage, before, names) == k + 1);
    }
}

/// A population succeeds exactly when none of its requests is refused, and
/// fails exactly when one is.
pub proof fn law_success_exactly_when_all_granted<S: Storage>(
    storage: S,
    before: Seq<Seq<char>>,
    names: Seq<Seq<char>>,
)
    ensures
        reported_failure(storage, before, names) is None <==> granted_through(
            storage,
            before,
            names,
            names.len() as int,
        ),
        reported_failure(storage, before, names) is Some <==> stops(storage, before, names),
{
    if stops(storage, before, names) {
        let k = choose|k: int| stops_at(storage, before, names, k);
        lemma_stop_found(storage, before, names, k);
    }
    if granted_through(storage, before, names, names.len() as int) {
        lemma_never_stopped(storage, before, names);
    } else {
        lemma_some_request_is_refused(storage, before, names, names.len() as int);
    }
}

/// With a storage that refuses none of the requests, the population succeeds
/// and the storage is asked once for each name, in the order given.
pub proof fn law_without_refusal_every_name_is_requested<S: Storage>(
    storage: S,
    before: Seq<Seq<char>>,
    names: Seq<Seq<char>>,
)
    requires
        granted_through(storage, before, names, names.len() as int),
    ensures
        reported_failure(storage, before, names) is None,
        requests_made(storage, before, names) == names.len(),
        before + names.take(requests_made(storage, before, names)) == before + names,
{
    lemma_never_stopped(storage, before, names);
    assert(names.take(names.len() as int) =~= names);
}

/// The real storage grants whatever it is asked, whatever it was asked
/// before: a population through it succeeds and requests every name.
pub proof fn law_real_storage_grants_everything(
    storage: StorageStruct,
    before: Seq<Seq<char>>,
    names: Seq<Seq<char>>,
)
    ensures
        reported_failure(storage, before, names) is None,
        requests_made(storage, before, names) == names.len(),
{
    lemma_never_stopped(storage, before, names);
}

/// A population of no names succeeds and asks the storage nothing.
pub proof fn law_empty_population<S: Storage>(
    storage: S,
    before: Seq<Seq<char>>,
    names: Seq<Seq<char>>,
)
    requires
        names.len() == 0,
    ensures
        reported_failure(storage, before, names) is None,
        requests_made(storage, before, names) == 0,
        before + names.take(requests_made(storage, before, names)) == before,
{
    lemma_never_stopped(storage, before, names);
    assert(before + names.take(0) =~= before);
}

/// The request, counted from 1 within a population, that a storage refuses
/// first when it refuses its `k`-th request and every later one and has
/// received `earlier` requests already.
pub open spec fn first_refused(k: int, earlier: int) -> int {
    if k > earlier {
        k - earlier
    } else {
        1
    }
}

/// A storage that grants the requests before its `k`-th and refuses the
/// `k`-th and every later one ends a population that reaches that request:
/// the population reports the failure of that request, which is the last one
/// made. On a storage that has received nothing yet, that is `k` requests.
pub proof fn law_refusal_from_kth_request<S: Storage>(
    storage: S,
    before: Seq<Seq<char>>,
    names: Seq<Seq<char>>,
    k: int,
)
    requires
        k >= 1,
        forall|b: Seq<Seq<char>>, n: Seq<char>|
            (#[trigger] storage.verdict(b, n)) is Some <==> b.len() + 1 >= k,
        names.len() >= first_refused(k, before.len() as int),
    ensures
        requests_made(storage, before, names) == first_refused(k, before.len() as int),
        reported_failure(storage, before, names) is Some,
        reported_failure(storage, before, names) == answer_at(
            storage,
            before,
            names,
            first_refused(k, before.len() as int) - 1,
        ),
        before.len() == 0 ==> requests_made(storage, before, names) == k,
{
    let first = first_refused(k, before.len() as int);
    assert forall|j: int| 0 <= j < first - 1 implies #[trigger] answer_at(
        storage,
        before,
        names,
        j,
    ) is None by {
        assert((before + names.take(j)).len() == before.len() + j);
    }
    assert((before + names.take(first - 1)).len() == before.len() + first - 1);
    assert(answer_at(storage, before, names, first - 1) is Some);
    lemma_stop_found(storage, before, names, first - 1);
}

/// A fresh fake that refuses from its `k`-th request on ends a population of
/// at least `k` names at the `k`-th request, with its own message.
pub proof fn law_fake_refuses_at_kth_request(fake: FakeStorage, names: Seq<Seq<char>>, k: usize)
    requires
        k >= 1,
        fake.fail_from == Some(k),
        fake.calls().len() == 0,
        names.len() >= k,
    ensures
        requests_made(fake, fake.calls(), names) == k,
        reported_failure(fake, fake.calls(), names) == Some(fake.message@),
{
    law_refusal_from_kth_request(fake, fake.calls(), names, k as int);
}

/// Putting one storage in another's place changes the answers, not the
/// requests: through either storage the requests made are the first names
/// given, so the shorter run of requests is the beginning of the longer one,
/// and two storages that both grant everything receive the same requests.
pub proof fn law_substitution_keeps_the_requests<A: Storage, B: Storage>(
    one: A,
    before_one: Seq<Seq<char>>,
    other: B,
    before_other: Seq<Seq<char>>,
    names: Seq<Seq<char>>,
)
    ensures
        requests_made(one, before_one, names) <= requests_made(other, before_other, names)
            ==> names.take(requests_made(one, before_one, names)) == names.take(
            requests_made(other, before_other, names),
        ).take(requests_made(one, before_one, names)),
        reported_failure(one, before_one, names) is None && reported_failure(
            other,
            before_other,
            names,
        ) is None ==> names.take(requests_made(one, before_one, names)) == names.take(
            requests_made(other, before_other, names),
        ),
{
    law_requests_are_a_prefix(one, before_one, names);
    law_requests_are_a_prefix(other, before_other, names);
    let r1 = requests_made(one, before_one, names);
    let r2 = requests_made(other, before_other, names);
    if r1 <= r2 {
        assert(names.take(r1) =~= names.take(r2).take(r1));
    }
    law_success_exactly_when_all_granted(one, before_one, names);
    law_success_exactly_when_all_granted(other, before_other, names);
}

} // verus!
