use aquarium::logic_mod::populate_aquarium;
use aquarium::storage_mod::{new_fish, trace_line, Storage};
use aquarium::substitute::FakeStorage;
use aquarium::{Logic, LogicWithStorage, StorageStruct};

fn owned(names: &[&str]) -> Vec<String> {
    names.iter().map(|name| name.to_string()).collect()
}

#[test]
fn real_storage_records_each_name_once_in_order() {
    let mut storage = StorageStruct::new();
    let outcome = populate_aquarium(&mut storage, vec!["huey", "bingo"]);
    assert_eq!(outcome, Ok(()));
    assert_eq!(storage.created, owned(&["huey", "bingo"]));
}

#[test]
fn real_storage_keeps_duplicates_and_order() {
    let mut storage = StorageStruct::new();
    let outcome = populate_aquarium(&mut storage, vec!["rog", "huey", "rog", ""]);
    assert_eq!(outcome, Ok(()));
    assert_eq!(storage.created, owned(&["rog", "huey", "rog", ""]));
}

#[test]
fn empty_population_succeeds_without_a_request() {
    let mut real = StorageStruct::new();
    assert_eq!(populate_aquarium(&mut real, Vec::new()), Ok(()));
    assert!(real.created.is_empty());

    let mut refusing = FakeStorage::failing_from(1, "too many fish");
    assert_eq!(populate_aquarium(&mut refusing, Vec::new()), Ok(()));
    assert!(refusing.received.is_empty());
}

#[test]
fn third_request_refused_ends_the_population() {
    let mut storage = FakeStorage::failing_from(3, "too many fish");
    let outcome = populate_aquarium(&mut storage, vec!["huey", "bingo", "rog"]);
    assert_eq!(outcome, Err("too many fish".to_string()));
    assert_eq!(storage.received, owned(&["huey", "bingo", "rog"]));
}

#[test]
fn names_after_the_refusal_are_never_requested() {
    let mut storage = FakeStorage::failing_from(3, "too many fish");
    let outcome = populate_aquarium(&mut storage, vec!["huey", "bingo", "rog", "dory", "nemo"]);
    assert_eq!(outcome, Err("too many fish".to_string()));
    assert_eq!(storage.received, owned(&["huey", "bingo", "rog"]));
}

#[test]
fn refusal_at_k_makes_exactly_k_requests() {
    let names = vec!["a", "b", "c", "d", "e"];
    let mut k: usize = 1;
    while k <= names.len() {
        let mut storage = FakeStorage::failing_from(k, "full");
        let outcome = populate_aquarium(&mut storage, names.clone());
        assert_eq!(outcome, Err("full".to_string()));
        assert_eq!(storage.received.len(), k);
        assert_eq!(storage.received, owned(&names[..k]));
        k += 1;
    }
}

#[test]
fn refusal_beyond_the_names_is_never_reached() {
    let mut storage = FakeStorage::failing_from(4, "too many fish");
    let outcome = populate_aquarium(&mut storage, vec!["huey", "bingo", "rog"]);
    assert_eq!(outcome, Ok(()));
    assert_eq!(storage.received, owned(&["huey", "bingo", "rog"]));
}

#[test]
fn refusal_from_zero_refuses_the_first_request() {
    let mut storage = FakeStorage::failing_from(0, "closed");
    let outcome = populate_aquarium(&mut storage, vec!["huey", "bingo"]);
    assert_eq!(outcome, Err("closed".to_string()));
    assert_eq!(storage.received, owned(&["huey"]));
}

#[test]
fn a_fake_counts_requests_over_its_whole_life() {
    let mut storage = FakeStorage::failing_from(3, "too many fish");
    assert_eq!(populate_aquarium(&mut storage, vec!["huey", "bingo"]), Ok(()));
    let outcome = populate_aquarium(&mut storage, vec!["rog", "dory"]);
    assert_eq!(outcome, Err("too many fish".to_string()));
    assert_eq!(storage.received, owned(&["huey", "bingo", "rog"]));
    let again = populate_aquarium(&mut storage, vec!["nemo"]);
    assert_eq!(again, Err("too many fish".to_string()));
    assert_eq!(storage.received, owned(&["huey", "bingo", "rog", "nemo"]));
}

#[test]
fn always_ok_fake_receives_what_the_real_storage_receives() {
    let names = vec!["huey", "bingo", "rog"];
    let mut real = StorageStruct::new();
    let mut fake = FakeStorage::always_ok();
    assert_eq!(populate_aquarium(&mut real, names.clone()), Ok(()));
    assert_eq!(populate_aquarium(&mut fake, names.clone()), Ok(()));
    assert_eq!(real.created, fake.received);
}

#[test]
fn refusing_fake_receives_the_beginning_of_what_the_real_storage_receives() {
    let names = vec!["huey", "bingo", "rog", "dory"];
    let mut real = StorageStruct::new();
    let mut fake = FakeStorage::failing_from(2, "too many fish");
    assert_eq!(populate_aquarium(&mut real, names.clone()), Ok(()));
    assert_eq!(populate_aquarium(&mut fake, names.clone()), Err("too many fish".to_string()));
    assert_eq!(fake.received.len(), 2);
    assert_eq!(real.created[..2], fake.received[..]);
}

#[test]
fn real_storage_is_untouched_by_an_earlier_fake() {
    let mut fake = FakeStorage::failing_from(1, "too many fish");
    assert_eq!(populate_aquarium(&mut fake, vec!["huey"]), Err("too many fish".to_string()));

    let mut real = StorageStruct::new();
    assert_eq!(populate_aquarium(&mut real, vec!["huey", "bingo"]), Ok(()));
    assert_eq!(real.created, owned(&["huey", "bingo"]));
    assert_eq!(new_fish("huey"), Ok(()));
}

#[test]
fn the_three_logics_agree() {
    let names = vec!["huey", "bingo", "rog", "dory"];

    let mut lent = FakeStorage::failing_from(3, "too many fish");
    let free = populate_aquarium(&mut lent, names.clone());

    let mut through_struct = FakeStorage::failing_from(3, "too many fish");
    let mut logic = Logic {};
    let by_struct = logic.populate_aquarium(&mut through_struct, names.clone());

    let mut owner = LogicWithStorage { storage: FakeStorage::failing_from(3, "too many fish") };
    let by_owner = owner.populate_aquarium(names.clone());

    assert_eq!(free, Err("too many fish".to_string()));
    assert_eq!(by_struct, free);
    assert_eq!(by_owner, free);
    assert_eq!(lent.received, owned(&["huey", "bingo", "rog"]));
    assert_eq!(through_struct.received, lent.received);
    assert_eq!(owner.storage.received, lent.received);
}

#[test]
fn owned_real_storage_records_two_calls() {
    let mut logic = LogicWithStorage { storage: StorageStruct::new() };
    assert_eq!(logic.populate_aquarium(vec!["huey", "bingo"]), Ok(()));
    assert_eq!(logic.storage.created, owned(&["huey", "bingo"]));
}

#[test]
fn real_operations_always_succeed() {
    assert_eq!(new_fish("huey"), Ok(()));
    assert_eq!(new_fish(""), Ok(()));
    let mut storage = StorageStruct::new();
    assert_eq!(storage.new_fish("huey"), Ok(()));
    assert_eq!(storage.new_fish("huey"), Ok(()));
    assert_eq!(storage.created, owned(&["huey", "huey"]));
}

#[test]
fn fake_answers_one_request_at_a_time() {
    let mut fake = FakeStorage::failing_from(2, "too many fish");
    assert_eq!(Storage::new_fish(&mut fake, "huey"), Ok(()));
    assert_eq!(Storage::new_fish(&mut fake, "bingo"), Err("too many fish".to_string()));
    assert_eq!(Storage::new_fish(&mut fake, "rog"), Err("too many fish".to_string()));
    assert_eq!(fake.received, owned(&["huey", "bingo", "rog"]));
    assert_eq!(fake.fail_from, Some(2));
    assert_eq!(fake.message, "too many fish");
}

#[test]
fn trace_line_names_the_fish() {
    assert_eq!(trace_line("huey"), "making new fish in real db with name huey");
    assert_eq!(trace_line(""), "making new fish in real db with name ");
}
