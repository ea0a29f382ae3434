//! Collection identifiers and the sets that are made of them.

use std::collections::HashSet;
use std::str::FromStr;

use vstd::prelude::*;

verus! {

broadcast use vstd::std_specs::hash::group_hash_axioms;

/// Identifies a collection.
#[derive(Clone, Copy, PartialEq, Eq, Structural, Hash, Debug)]
pub struct CollectionUuid(pub u128);

/// A text that names no collection.
#[derive(Clone, Copy, PartialEq, Eq, Structural, Debug)]
pub struct InvalidCollectionId;

/// Why a text is not a UUID, as the `uuid` crate reports it.
#[verifier::external_type_specification]
#[verifier::external_body]
pub struct ExUuidError(uuid::Error);

/// The UUID that a text writes out, as a number whose most significant byte is the
/// UUID's first; `None` if the text is none of the forms that `Uuid::from_str` reads.
pub uninterp spec fn uuid_of_text(text: Seq<char>) -> Option<u128>;

/// Calls `Uuid::from_str`, and `Uuid::as_u128` on what it returns.
///
/// Claimed: whether the text is read, and as which number, depends on the text
/// alone. What the error says is left open.
#[verifier::external_body]
fn parse_uuid(text: &str) -> (res: Result<u128, uuid::Error>)
    ensures
        res is Ok <==> uuid_of_text(text@) is Some,
        res matches Ok(number) ==> uuid_of_text(text@) == Some(number),
{
    match uuid::Uuid::from_str(text) {
        Ok(id) => Ok(id.as_u128()),
        Err(error) => Err(error),
    }
}

impl CollectionUuid {
    /// Reads a collection's identifier.
    pub fn from_str(text: &str) -> (res: Result<CollectionUuid, InvalidCollectionId>)
        ensures
            res == match uuid_of_text(text@) {
                Some(number) => Ok(CollectionUuid(number)),
                None => Err(InvalidCollectionId),
            },
    {
        match parse_uuid(text) {
            Ok(number) => Ok(CollectionUuid(number)),
            Err(_) => Err(InvalidCollectionId),
        }
    }
}

/// The numbers of the collections in a list.
pub open spec fn numbers(ids: Seq<CollectionUuid>) -> Set<u128> {
    ids.map_values(|id: CollectionUuid| id.0).to_set()
}

/// The set of the collections in a list, each one by its number.
pub fn collection_set(ids: &Vec<CollectionUuid>) -> (set: HashSet<u128>)
    ensures
        set@ == numbers(ids@),
        forall|number: u128| #[trigger]
            set@.contains(number) <==> ids@.contains(CollectionUuid(number)),
{
    let mut set: HashSet<u128> = HashSet::with_capacity(ids.len());
    let mut i: usize = 0;
    assert(set@ =~= numbers(ids@.take(0)));
    while i < ids.len()
        invariant
            i <= ids@.len(),
            set@ == numbers(ids@.take(i as int)),
        decreases ids.len() - i,
    {
        set.insert(ids[i].0);
        proof {
            lemma_numbers_push(ids@.take(i as int), ids@[i as int]);
            assert(ids@.take(i + 1) =~= ids@.take(i as int).push(ids@[i as int]));
        }
        i += 1;
    }
    assert(ids@.take(i as int) =~= ids@);
    proof {
        assert forall|number: u128| #[trigger]
            set@.contains(number) <==> ids@.contains(CollectionUuid(number)) by {
            lemma_numbers_contains(ids@, number);
        }
    }
    set
}

pub(crate) proof fn lemma_numbers_contains(ids: Seq<CollectionUuid>, number: u128)
    ensures
        numbers(ids).contains(number) <==> ids.contains(CollectionUuid(number)),
{
    let mapped = ids.map_values(|id: CollectionUuid| id.0);
    if mapped.contains(number) {
        let i = choose|i: int| 0 <= i < mapped.len() && mapped[i] == number;
        assert(ids[i] == CollectionUuid(number));
    }
    if ids.contains(CollectionUuid(number)) {
        let i = choose|i: int| 0 <= i < ids.len() && ids[i] == CollectionUuid(number);
        assert(mapped[i] == number);
    }
}

pub(crate) proof fn lemma_named_contains(texts: Seq<String>, number: u128)
    requires
        all_collection_ids(texts),
    ensures
        numbers(named_collections(texts)).contains(number) <==> exists|i: int|
            0 <= i < texts.len() && uuid_of_text(#[trigger] texts[i]@) == Some(number),
{
    let ids = named_collections(texts);
    lemma_numbers_contains(ids, number);
    if ids.contains(CollectionUuid(number)) {
        let i = choose|i: int| 0 <= i < ids.len() && ids[i] == CollectionUuid(number);
        assert(uuid_of_text(texts[i]@) == Some(number));
    }
    if exists|i: int| 0 <= i < texts.len() && uuid_of_text(#[trigger] texts[i]@) == Some(number) {
        let i = choose|i: int|
            0 <= i < texts.len() && uuid_of_text(#[trigger] texts[i]@) == Some(number);
        assert(ids[i] == CollectionUuid(number));
    }
}

proof fn lemma_numbers_push(ids: Seq<CollectionUuid>, id: CollectionUuid)
    ensures
        numbers(ids.push(id)) == numbers(ids).insert(id.0),
{
    let number = |id: CollectionUuid| id.0;
    let before = ids.map_values(number);
    let after = ids.push(id).map_values(number);
    assert(after =~= before.push(id.0));
    assert forall|n: u128| after.to_set().contains(n) <==> before.to_set().insert(id.0).contains(
        n,
    ) by {
        if before.contains(n) {
            let i = choose|i: int| 0 <= i < before.len() && before[i] == n;
            assert(after[i] == n);
        }
        if n == id.0 {
            assert(after[before.len() as int] == n);
        }
    }
    assert(after.to_set() =~= before.to_set().insert(id.0));
}

/// Every text of a list is a collection's identifier.
pub open spec fn all_collection_ids(texts: Seq<String>) -> bool {
    forall|i: int| 0 <= i < texts.len() ==> uuid_of_text(#[trigger] texts[i]@) is Some
}

/// The collections that a list of identifiers names, in its order.
pub open spec fn named_collections(texts: Seq<String>) -> Seq<CollectionUuid> {
    texts.map_values(|text: String| CollectionUuid(uuid_of_text(text@)->0))
}

/// The set of the collections that a list of identifiers names.
pub fn disabled_collections(texts: &Vec<String>) -> (set: HashSet<u128>)
    requires
        all_collection_ids(texts@),
    ensures
        set@ == numbers(named_collections(texts@)),
        forall|number: u128| #[trigger]
            set@.contains(number) <==> exists|i: int|
                0 <= i < texts@.len() && uuid_of_text(#[trigger] texts@[i]@) == Some(number),
{
    let mut ids: Vec<CollectionUuid> = Vec::with_capacity(texts.len());
    let mut i: usize = 0;
    while i < texts.len()
        invariant
            i <= texts@.len(),
            all_collection_ids(texts@),
            ids@ == named_collections(texts@).take(i as int),
        decreases texts.len() - i,
    {
        assert(uuid_of_text(texts@[i as int]@) is Some);
        if let Ok(id) = CollectionUuid::from_str(texts[i].as_str()) {
            ids.push(id);
        }
        assert(named_collections(texts@).take(i + 1) =~= named_collections(texts@).take(
            i as int,
        ).push(named_collections(texts@)[i as int]));
        i += 1;
    }
    assert(named_collections(texts@).take(i as int) =~= named_collections(texts@));
    let set = collection_set(&ids);
    proof {
        assert forall|number: u128| #[trigger]
            set@.contains(number) <==> exists|i: int|
                0 <= i < texts@.len() && uuid_of_text(#[trigger] texts@[i]@) == Some(number) by {
            lemma_named_contains(texts@, number);
        }
    }
    set
}

/// The first entry of a list that is no collection's identifier.
#[derive(Clone, Copy, PartialEq, Eq, Structural, Debug)]
pub struct InvalidDisabledCollection {
    pub index: usize,
}

/// The entry that an error tells of is the first of a list that is no collection's
/// identifier.
pub open spec fn first_invalid(texts: Seq<String>, error: InvalidDisabledCollection) -> bool {
    &&& error.index < texts.len()
    &&& uuid_of_text(texts[error.index as int]@) is None
    &&& all_collection_ids(texts.take(error.index as int))
}

/// Like `disabled_collections`, for any list.
pub fn checked_disabled_collections(texts: &Vec<String>) -> (res: Result<
    HashSet<u128>,
    InvalidDisabledCollection,
>)
    ensures
        res is Ok <==> all_collection_ids(texts@),
        res is Ok <==> forall|i: int|
            0 <= i < texts@.len() ==> uuid_of_text(#[trigger] texts@[i]@) is Some,
        res matches Ok(set) ==> set@ == numbers(named_collections(texts@)),
        res matches Ok(set) ==> forall|number: u128| #[trigger]
            set@.contains(number) <==> exists|i: int|
                0 <= i < texts@.len() && uuid_of_text(#[trigger] texts@[i]@) == Some(number),
        res matches Err(e) ==> first_invalid(texts@, e),
        res matches Err(e) ==> {
            &&& e.index < texts@.len()
            &&& uuid_of_text(texts@[e.index as int]@) is None
            &&& forall|i: int|
                0 <= i < e.index ==> uuid_of_text(#[trigger] texts@[i]@) is Some
        },
{
    let mut i: usize = 0;
    while i < texts.len()
        invariant
            i <= texts@.len(),
            all_collection_ids(texts@.take(i as int)),
        decreases texts.len() - i,
    {
        if CollectionUuid::from_str(texts[i].as_str()).is_err() {
            assert(uuid_of_text(texts@[i as int]@) is None);
            assert forall|k: int| 0 <= k < i implies uuid_of_text(#[trigger] texts@[k]@) is Some by {
                assert(texts@.take(i as int)[k] == texts@[k]);
            }
            return Err(InvalidDisabledCollection { index: i });
        }
        assert(texts@.take(i + 1) =~= texts@.take(i as int).push(texts@[i as int]));
        i += 1;
    }
    assert(texts@.take(i as int) =~= texts@);
    Ok(disabled_collections(texts))
}

} // verus!
