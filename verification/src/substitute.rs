//! A storage to put in the real one's place: it records what it is asked,
//! grants every request, or refuses every request from a chosen one onward.

use vstd::prelude::*;
use crate::storage_mod::{texts_of, Storage};

verus! {

/// A fake storage.
///
/// Requests are counted from 1 over the fake's whole life. With
/// `fail_from == Some(k)` the requests before the `k`-th are granted and the
/// `k`-th and all later ones are refused with `message`; with `None` every
/// request is granted. Each request, granted or not, is recorded in
/// `received`.
pub struct FakeStorage {
    pub fail_from: Option<usize>,
    pub message: String,
    pub received: Vec<String>,
}

impl FakeStorage {
    /// A fake that grants every request: it has no request to refuse from, an
    /// empty message and nothing received yet.
    pub fn always_ok() -> (fake: Self)
        ensures
            fake.fail_from is None,
            fake.message@ == Seq::<char>::empty(),
            fake.received@.len() == 0,
            fake.calls() == Seq::<Seq<char>>::empty(),
    {
        let fake = FakeStorage { fail_from: None, message: String::new(), received: Vec::new() };
        assert(fake.calls() =~= Seq::<Seq<char>>::empty());
        fake
    }

    /// A fake that refuses its `k`-th request and every later one with
    /// `message`.
    pub fn failing_from(k: usize, message: &str) -> (fake: Self)
        ensures
            fake.fail_from == Some(k),
            fake.message@ == message@,
            fake.received@.len() == 0,
            fake.calls() == Seq::<Seq<char>>::empty(),
    {
        let fake = FakeStorage {
            fail_from: Some(k),
            message: message.to_owned(),
            received: Vec::new(),
        };
        assert(fake.calls() =~= Seq::<Seq<char>>::empty());
        fake
    }

    /// Whether a request that arrives after `earlier` others is refused.
    pub open spec fn refuses_after(&self, earlier: nat) -> bool {
        match self.fail_from {
            Some(k) => earlier + 1 >= k,
            None => false,
        }
    }
}

impl Storage for FakeStorage {
    open spec fn calls(&self) -> Seq<Seq<char>> {
        texts_of(self.received@)
    }

    open spec fn verdict(&self, before: Seq<Seq<char>>, name: Seq<char>) -> Option<Seq<char>> {
        if self.refuses_after(before.len()) {
            Some(self.message@)
        } else {
            None
        }
    }

    fn new_fish(&mut self, fishname: &str) -> (answer: Result<(), String>)
        ensures
            final(self).fail_from == old(self).fail_from,
            final(self).message@ == old(self).message@,
            final(self).received@.len() == old(self).received@.len() + 1,
    {
        let earlier: usize = self.received.len();
        self.received.push(fishname.to_owned());
        assert(self.calls() =~= old(self).calls().push(fishname@));
        match self.fail_from {
            Some(k) => {
                if k == 0 || earlier >= k - 1 {
                    Err(self.message.clone())
                } else {
                    Ok(())
                }
            },
            None => Ok(()),
        }
    }
}

} // verus!
