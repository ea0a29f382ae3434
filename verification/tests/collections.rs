use compaction_manager::collection::{
    checked_disabled_collections, collection_set, disabled_collections, CollectionUuid,
    InvalidCollectionId, InvalidDisabledCollection,
};

fn texts(list: &[&str]) -> Vec<String> {
    list.iter().map(|text| text.to_string()).collect()
}

#[test]
fn every_form_of_an_identifier_is_read() {
    let id = CollectionUuid(0x67e5504410b1426f9247bb680e5fe0c8);
    assert_eq!(CollectionUuid::from_str("67e55044-10b1-426f-9247-bb680e5fe0c8"), Ok(id));
    assert_eq!(CollectionUuid::from_str("67e5504410b1426f9247bb680e5fe0c8"), Ok(id));
    assert_eq!(CollectionUuid::from_str("67E55044-10B1-426F-9247-BB680E5FE0C8"), Ok(id));
    assert_eq!(CollectionUuid::from_str("{67e55044-10b1-426f-9247-bb680e5fe0c8}"), Ok(id));
    assert_eq!(
        CollectionUuid::from_str("urn:uuid:67e55044-10b1-426f-9247-bb680e5fe0c8"),
        Ok(id)
    );
}

#[test]
fn other_texts_are_no_identifiers() {
    for text in [
        "",
        "collection_1",
        "67e55044-10b1-426f-9247-bb680e5fe0c",
        "67e55044-10b1-426f-9247-bb680e5fe0cg",
        "67e5504-410b1-426f-9247-bb680e5fe0c8",
    ] {
        assert_eq!(CollectionUuid::from_str(text), Err(InvalidCollectionId));
    }
}

#[test]
fn a_set_holds_each_collection_once() {
    let set = collection_set(&vec![CollectionUuid(7), CollectionUuid(1), CollectionUuid(7)]);
    assert_eq!(set.len(), 2);
    assert!(set.contains(&7));
    assert!(set.contains(&1));
    assert!(!set.contains(&2));
    assert!(collection_set(&Vec::new()).is_empty());
}

#[test]
fn listed_collections_are_disabled() {
    let list = texts(&[
        "00000000-0000-0000-0000-000000000001",
        "00000000-0000-0000-0000-00000000000a",
    ]);
    let set = disabled_collections(&list);
    assert_eq!(set.len(), 2);
    assert!(set.contains(&1));
    assert!(set.contains(&10));
    assert_eq!(checked_disabled_collections(&list), Ok(set));
}

#[test]
fn a_collection_listed_twice_is_disabled_once() {
    let once = texts(&["00000000-0000-0000-0000-000000000001"]);
    let twice = texts(&[
        "00000000-0000-0000-0000-000000000001",
        "{00000000-0000-0000-0000-000000000001}",
    ]);
    assert_eq!(disabled_collections(&once), disabled_collections(&twice));
}

#[test]
fn nothing_is_disabled_by_an_empty_list() {
    assert!(disabled_collections(&Vec::new()).is_empty());
}

#[test]
fn the_first_entry_that_is_no_identifier_is_told() {
    let list = texts(&["00000000-0000-0000-0000-000000000001", "one", "two"]);
    assert_eq!(
        checked_disabled_collections(&list),
        Err(InvalidDisabledCollection { index: 1 })
    );
}
