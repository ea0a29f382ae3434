//! Which collections are disabled.

use vstd::prelude::*;

use crate::collection::{
    all_collection_ids, first_invalid, lemma_named_contains, lemma_numbers_contains,
    named_collections, numbers, uuid_of_text, CollectionUuid, InvalidDisabledCollection,
};

verus! {

/// A list is accepted if and only if each of its entries is a UUID, whichever UUID it is.
pub proof fn list_is_accepted_if_and_only_if_readable(texts: Seq<String>)
    ensures
        all_collection_ids(texts) <==> forall|i: int|
            0 <= i < texts.len() ==> uuid_of_text(#[trigger] texts[i]@) is Some,
{
}

/// The entry that a list is rejected for is no UUID, every entry before it is one, and
/// no other entry of the list is rejected in its place.
pub proof fn list_is_rejected_for_its_first_unreadable_entry(
    texts: Seq<String>,
    error: InvalidDisabledCollection,
    other: InvalidDisabledCollection,
)
    requires
        first_invalid(texts, error),
    ensures
        error.index < texts.len(),
        uuid_of_text(texts[error.index as int]@) is None,
        forall|i: int| 0 <= i < error.index ==> uuid_of_text(#[trigger] texts[i]@) is Some,
        exists|i: int| 0 <= i < texts.len() && uuid_of_text(#[trigger] texts[i]@) is None,
        first_invalid(texts, other) ==> other == error,
{
    assert forall|i: int| 0 <= i < error.index implies uuid_of_text(
        #[trigger] texts[i]@,
    ) is Some by {
        assert(texts.take(error.index as int)[i] == texts[i]);
    }
    if first_invalid(texts, other) && error.index < other.index {
        assert(texts.take(other.index as int)[error.index as int] == texts[error.index as int]);
    }
}

/// The collections that a list names are those of its entries, in their order and whole:
/// nothing of an identifier is lost.
pub proof fn entries_name_their_own_collections(texts: Seq<String>, i: int)
    requires
        0 <= i < texts.len(),
        uuid_of_text(texts[i]@) is Some,
    ensures
        named_collections(texts).len() == texts.len(),
        uuid_of_text(texts[i]@) == Some(named_collections(texts)[i].0),
{
}

/// A set of numbers stands for the listed collections and no others.
pub proof fn numbers_are_those_of_the_collections(ids: Seq<CollectionUuid>, id: CollectionUuid)
    ensures
        numbers(ids).contains(id.0) <==> ids.contains(id),
{
    lemma_numbers_contains(ids, id.0);
}

/// A collection is disabled if and only if the list names it.
pub proof fn disabled_if_and_only_if_listed(texts: Seq<String>, number: u128)
    requires
        forall|i: int| 0 <= i < texts.len() ==> uuid_of_text(#[trigger] texts[i]@) is Some,
    ensures
        numbers(named_collections(texts)).contains(number) <==> exists|i: int|
            0 <= i < texts.len() && uuid_of_text(#[trigger] texts[i]@) == Some(number),
{
    lemma_named_contains(texts, number);
}

/// Naming a collection again disables nothing more.
pub proof fn listing_twice_changes_nothing(texts: Seq<String>, i: int)
    requires
        all_collection_ids(texts),
        0 <= i < texts.len(),
    ensures
        numbers(named_collections(texts.push(texts[i]))) == numbers(named_collections(texts)),
{
    let more = texts.push(texts[i]);
    assert forall|number: u128|
        numbers(named_collections(more)).contains(number) <==> numbers(
            named_collections(texts),
        ).contains(number) by {
        assert(all_collection_ids(more));
        disabled_if_and_only_if_listed(texts, number);
        disabled_if_and_only_if_listed(more, number);
        if exists|k: int|
            0 <= k < more.len() && uuid_of_text(#[trigger] more[k]@) == Some(number) {
            let k = choose|k: int|
                0 <= k < more.len() && uuid_of_text(#[trigger] more[k]@) == Some(number);
            if k < texts.len() {
                assert(uuid_of_text(texts[k]@) == Some(number));
            } else {
                assert(uuid_of_text(texts[i]@) == Some(number));
            }
        }
        if exists|k: int|
            0 <= k < texts.len() && uuid_of_text(#[trigger] texts[k]@) == Some(number) {
            let k = choose|k: int|
                0 <= k < texts.len() && uuid_of_text(#[trigger] texts[k]@) == Some(number);
            assert(uuid_of_text(more[k]@) == Some(number));
        }
    }
    assert(numbers(named_collections(more)) =~= numbers(named_collections(texts)));
}

} // verus!
