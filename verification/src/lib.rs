//! A small aquarium: population logic that asks a storage collaborator to
//! create one fish per name, in order, and gives up at the first refusal.
//!
//! The collaborator is an explicit capability, [`storage_mod::Storage`], handed
//! to the logic by its caller, so that a caller can put one storage in
//! another's place: the real one, [`StorageStruct`], or a fake that starts
//! refusing after some requests, [`substitute::FakeStorage`].

pub mod laws;
pub mod logic_mod;
pub mod storage_mod;
pub mod substitute;

use vstd::prelude::*;
use crate::logic_mod::{granted_through, names_of, reported_failure, requests_made};
use crate::storage_mod::{failure_of, texts_of, Storage};

verus! {

/// Population logic that is lent a storage for each population.
pub struct Logic {}

impl Logic {
    /// Asks `storage` to create one fish per name of `fishnames`, in order,
    /// and stops at the first refusal, which it hands back as it came.
    pub fn populate_aquarium<S: Storage>(
        &mut self,
        storage: &mut S,
        fishnames: Vec<&str>,
    ) -> (outcome: Result<(), String>)
        ensures
            failure_of(outcome) == reported_failure(
                *old(storage),
                old(storage).calls(),
                names_of(fishnames@),
            ),
            final(storage).calls() == old(storage).calls() + names_of(fishnames@).take(
                requests_made(*old(storage), old(storage).calls(), names_of(fishnames@)),
            ),
            outcome is Ok <==> granted_through(
                *old(storage),
                old(storage).calls(),
                names_of(fishnames@),
                fishnames@.len() as int,
            ),
            outcome is Ok ==> final(storage).calls() == old(storage).calls() + names_of(
                fishnames@,
            ),
            forall|before: Seq<Seq<char>>, name: Seq<char>|
                #[trigger] final(storage).verdict(before, name) == old(storage).verdict(
                    before,
                    name,
                ),
    {
        crate::logic_mod::populate_aquarium(storage, fishnames)
    }
}

/// The real storage. It refuses nothing, and keeps the names of the fish it
/// created, oldest first, for whoever wants to tell of them.
pub struct StorageStruct {
    pub created: Vec<String>,
}

impl StorageStruct {
    /// A storage in which nothing was created yet.
    pub fn new() -> (storage: Self)
        ensures
            storage.created@.len() == 0,
            storage.calls() == Seq::<Seq<char>>::empty(),
    {
        let storage = StorageStruct { created: Vec::new() };
        assert(storage.calls() =~= Seq::<Seq<char>>::empty());
        storage
    }

    /// Creates the fish `fishname`: always granted, and recorded.
    pub fn new_fish(&mut self, fishname: &str) -> (answer: Result<(), String>)
        ensures
            answer is Ok,
            final(self).created@.len() == old(self).created@.len() + 1,
            final(self).calls() == old(self).calls().push(fishname@),
    {
        let answer = crate::storage_mod::new_fish(fishname);
        self.created.push(fishname.to_owned());
        assert(self.calls() =~= old(self).calls().push(fishname@));
        answer
    }
}

impl Storage for StorageStruct {
    open spec fn calls(&self) -> Seq<Seq<char>> {
        texts_of(self.created@)
    }

    open spec fn verdict(&self, before: Seq<Seq<char>>, name: Seq<char>) -> Option<Seq<char>> {
        None
    }

    fn new_fish(&mut self, fishname: &str) -> (answer: Result<(), String>) {
        StorageStruct::new_fish(self, fishname)
    }
}

/// Population logic that owns its storage.
pub struct LogicWithStorage<S: Storage> {
    pub storage: S,
}

impl<S: Storage> LogicWithStorage<S> {
    /// Asks the storage to create one fish per name of `fishnames`, in order,
    /// and stops at the first refusal, which it hands back as it came.
    pub fn populate_aquarium(&mut self, fishnames: Vec<&str>) -> (outcome: Result<(), String>)
        ensures
            failure_of(outcome) == reported_failure(
                old(self).storage,
                old(self).storage.calls(),
                names_of(fishnames@),
            ),
            final(self).storage.calls() == old(self).storage.calls() + names_of(fishnames@).take(
                requests_made(old(self).storage, old(self).storage.calls(), names_of(fishnames@)),
            ),
            outcome is Ok <==> granted_through(
                old(self).storage,
                old(self).storage.calls(),
                names_of(fishnames@),
                fishnames@.len() as int,
            ),
            outcome is Ok ==> final(self).storage.calls() == old(self).storage.calls()
                + names_of(fishnames@),
            forall|before: Seq<Seq<char>>, name: Seq<char>|
                #[trigger] final(self).storage.verdict(before, name) == old(self).storage.verdict(
                    before,
                    name,
                ),
    {
        crate::logic_mod::populate_aquarium(&mut self.storage, fishnames)
    }
}

} // verus!
