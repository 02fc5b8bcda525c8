//! The storage collaborator: one operation, "create the fish of this name",
//! which succeeds or fails with a message.

use vstd::prelude::*;
use vstd::string::*;

verus! {

/// What an answer of the storage operation says of a failure: `None` where the
/// fish was created, the failure's message where it was not.
pub open spec fn failure_of(answer: Result<(), String>) -> Option<Seq<char>> {
    match answer {
        Ok(_) => None,
        Err(message) => Some(message@),
    }
}

/// The texts of a list of recorded names.
pub open spec fn texts_of(entries: Seq<String>) -> Seq<Seq<char>> {
    Seq::new(entries.len(), |i: int| entries[i]@)
}

/// A storage in which fish are created by name.
///
/// A storage is modelled by the requests it has received and by a rule that
/// gives its answer to a request from the requests that came before it. The
/// rule itself never changes: a storage that starts refusing after its second
/// request has a rule that reads the length of the history.
pub trait Storage {
    /// The names of the requests received so far, oldest first.
    spec fn calls(&self) -> Seq<Seq<char>>;

    /// The answer to a request for `name` that arrives after the requests
    /// `before`: `None` where the fish is created, the failure's message
    /// where the request is refused.
    spec fn verdict(&self, before: Seq<Seq<char>>, name: Seq<char>) -> Option<Seq<char>>;

    /// Asks the storage to create the fish `fishname`.
    fn new_fish(&mut self, fishname: &str) -> (answer: Result<(), String>)
        ensures
            final(self).calls() == old(self).calls().push(fishname@),
            forall|before: Seq<Seq<char>>, name: Seq<char>|
                #[trigger] final(self).verdict(before, name) == old(self).verdict(before, name),
            failure_of(answer) == old(self).verdict(old(self).calls(), fishname@),
    ;
}

/// The line that tells of a fish created in the real storage.
pub fn trace_line(fishname: &str) -> (line: String)
    ensures
        line@ == "making new fish in real db with name "@ + fishname@,
{
    let mut line = "making new fish in real db with name ".to_owned();
    line.append(fishname);
    line
}

/// Creates the fish `fishname` in the real storage, which refuses nothing.
pub fn new_fish(fishname: &str) -> (answer: Result<(), String>)
    ensures
        answer is Ok,
{
    Ok(())
}

} // verus!
