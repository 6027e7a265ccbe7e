//! What holds of the registry's operations, taken together. Each statement
//! is proved from the contracts of `get_api`, `new_api` and `init`: it
//! speaks of any entries and outcomes that those contracts admit.
//!
//! The store may fault at any call, and then the call reports the fault and
//! nothing else. The statements below say what holds of the calls that did
//! not end so.

use crate::error::Error;
use crate::layout::{decoding, lemma_decoding_is_what_is_spelt, spells, spells_nothing};
use crate::record::{Api, ApiView};
use crate::storage::{creates, initializes, key_of, lookup, reads, Registry};
use vstd::prelude::*;
use vstd::utf8::encode_utf8_decode_utf8;

verus! {

/// Whether an outcome reports a fault of the store.
pub open spec fn faulted<T>(outcome: std::result::Result<T, Error>) -> bool {
    outcome matches Err(Error::Db(_))
}

/// Two names share a key only if they are the same name.
pub proof fn lemma_key_of_injective(a: Seq<char>, b: Seq<char>)
    requires
        key_of(a) == key_of(b),
    ensures
        a == b,
{
    encode_utf8_decode_utf8(a);
    encode_utf8_decode_utf8(b);
}

/// A name without an entry is answered with "absent": not with a record,
/// and not with an error.
pub proof fn lemma_unused_name_is_absent(
    entries: Map<Seq<u8>, Seq<u8>>,
    name: Seq<char>,
    answer: std::result::Result<Option<Api>, Error>,
)
    requires
        !entries.contains_key(key_of(name)),
        reads(entries, name, answer),
        !faulted(answer),
    ensures
        answer == Ok::<Option<Api>, Error>(None),
{
}

/// Creating a record, or failing to, changes nothing under any other name.
pub proof fn lemma_create_keeps_other_names(
    before: Map<Seq<u8>, Seq<u8>>,
    after: Map<Seq<u8>, Seq<u8>>,
    name: Seq<char>,
    record: ApiView,
    outcome: std::result::Result<(), Error>,
    other: Seq<char>,
)
    requires
        creates(before, after, name, record, outcome),
        other != name,
    ensures
        lookup(after, other) == lookup(before, other),
{
    if key_of(other) == key_of(name) {
        lemma_key_of_injective(other, name);
    }
}

/// Whether `states` are the entries of a store before, between and after a
/// run of calls of `new_api`, the call at `i` made with the name
/// `names[i]` and the record `records[i]` and ending in `outcomes[i]`.
pub open spec fn is_history(
    states: Seq<Map<Seq<u8>, Seq<u8>>>,
    names: Seq<Seq<char>>,
    records: Seq<ApiView>,
    outcomes: Seq<std::result::Result<(), Error>>,
) -> bool {
    &&& states.len() == names.len() + 1
    &&& records.len() == names.len()
    &&& outcomes.len() == names.len()
    &&& forall|i: int|
        0 <= i < names.len() ==> #[trigger] creates(
            states[i],
            states[i + 1],
            names[i],
            records[i],
            outcomes[i],
        )
}

/// A name that had no entry, and under which nothing was created since, has
/// no entry: whatever was created under other names in between, the name is
/// still answered with "absent".
pub proof fn lemma_never_created_stays_absent(
    states: Seq<Map<Seq<u8>, Seq<u8>>>,
    names: Seq<Seq<char>>,
    records: Seq<ApiView>,
    outcomes: Seq<std::result::Result<(), Error>>,
    name: Seq<char>,
)
    requires
        is_history(states, names, records, outcomes),
        lookup(states[0], name) is Absent,
        forall|i: int| 0 <= i < names.len() ==> names[i] != name,
    ensures
        lookup(states.last(), name) is Absent,
    decreases names.len(),
{
    if names.len() > 0 {
        let n = names.len() - 1;
        assert forall|i: int| 0 <= i < n implies #[trigger] creates(
            states.drop_last()[i],
            states.drop_last()[i + 1],
            names.drop_last()[i],
            records.drop_last()[i],
            outcomes.drop_last()[i],
        ) by {
            assert(creates(states[i], states[i + 1], names[i], records[i], outcomes[i]));
        }
        lemma_never_created_stays_absent(
            states.drop_last(),
            names.drop_last(),
            records.drop_last(),
            outcomes.drop_last(),
            name,
        );
        assert(creates(states[n], states[n + 1], names[n], records[n], outcomes[n]));
        lemma_create_keeps_other_names(
            states[n],
            states[n + 1],
            names[n],
            records[n],
            outcomes[n],
            name,
        );
    }
}

/// A record created under a name that has no entry is created with
/// success, and a lookup of the name then returns a record equal to it.
pub proof fn lemma_created_record_is_found(
    before: Map<Seq<u8>, Seq<u8>>,
    after: Map<Seq<u8>, Seq<u8>>,
    name: Seq<char>,
    record: ApiView,
    created: std::result::Result<(), Error>,
    answer: std::result::Result<Option<Api>, Error>,
)
    requires
        !before.contains_key(key_of(name)),
        creates(before, after, name, record, created),
        reads(after, name, answer),
        !faulted(created),
        !faulted(answer),
    ensures
        created is Ok,
        answer matches Ok(Some(api)) && api@ == record,
{
}

/// A name that is taken keeps its record: a call of `new_api` for it fails,
/// whatever the record and however the call ends, and leaves every entry as
/// it was.
pub proof fn lemma_taken_name_is_kept(
    before: Map<Seq<u8>, Seq<u8>>,
    after: Map<Seq<u8>, Seq<u8>>,
    name: Seq<char>,
    record: ApiView,
    outcome: std::result::Result<(), Error>,
)
    requires
        before.contains_key(key_of(name)),
        creates(before, after, name, record, outcome),
    ensures
        outcome is Err,
        after == before,
{
}

/// No silent overwrite: once a record has been created under a name, a
/// second record is refused under that name as "already exists", with the
/// name, and a lookup of the name still returns the first record.
pub proof fn lemma_second_create_is_refused(
    start: Map<Seq<u8>, Seq<u8>>,
    middle: Map<Seq<u8>, Seq<u8>>,
    end: Map<Seq<u8>, Seq<u8>>,
    name: Seq<char>,
    first_record: ApiView,
    second_record: ApiView,
    first: std::result::Result<(), Error>,
    second: std::result::Result<(), Error>,
    answer: std::result::Result<Option<Api>, Error>,
)
    requires
        creates(start, middle, name, first_record, first),
        first is Ok,
        creates(middle, end, name, second_record, second),
        reads(end, name, answer),
        !faulted(second),
        !faulted(answer),
    ensures
        second matches Err(Error::ApiAlreadyExists(taken)) && taken@ == name,
        end == middle,
        answer matches Ok(Some(api)) && api@ == first_record,
{
}

/// Initialisation happens once: after `init` has succeeded, a second call
/// fails with "already initialised" and the registry is as the first call
/// left it, the installed handle in place.
pub proof fn lemma_second_init_is_refused(
    start: Registry,
    middle: Registry,
    end: Registry,
    first: std::result::Result<(), Error>,
    second: std::result::Result<(), Error>,
)
    requires
        initializes(start, middle, first),
        first is Ok,
        initializes(middle, end, second),
    ensures
        second == Err::<(), Error>(Error::CellSetError),
        end == middle,
        end.installed() is Some,
{
}

/// An entry whose bytes spell out no record, being cut short or not those
/// of a record, is reported as a decoding error: the lookup returns neither
/// "absent" nor a record.
pub proof fn lemma_damaged_entry_is_reported(
    entries: Map<Seq<u8>, Seq<u8>>,
    name: Seq<char>,
    answer: std::result::Result<Option<Api>, Error>,
)
    requires
        entries.contains_key(key_of(name)),
        spells_nothing(entries[key_of(name)]),
        reads(entries, name, answer),
        !faulted(answer),
    ensures
        answer matches Err(Error::Bincode(_)),
{
    let bytes = entries[key_of(name)];
    if decoding(bytes) is Some {
        let record = choose|record: ApiView| spells(bytes, record);
        assert(spells(bytes, record));
    }
}

/// An entry whose bytes spell out a record is answered with that record,
/// whatever bytes follow the record in the entry: there is no decoding
/// error for it, and no other record.
pub proof fn lemma_sound_entry_is_found(
    entries: Map<Seq<u8>, Seq<u8>>,
    name: Seq<char>,
    record: ApiView,
    answer: std::result::Result<Option<Api>, Error>,
)
    requires
        entries.contains_key(key_of(name)),
        spells(entries[key_of(name)], record),
        reads(entries, name, answer),
        !faulted(answer),
    ensures
        answer matches Ok(Some(api)) && api@ == record,
{
    lemma_decoding_is_what_is_spelt(entries[key_of(name)], record);
}

} // verus!
