//! The record model: the shape of an `Api` configuration unit and its binary
//! encoding.
//!
//! A record is a client limit and two lists of paths. It is stored as the
//! bytes of its `layout`, which has no version and no field names: the three
//! fields in their order of declaration. The bytes are written and read by
//! bincode, and `layout` says what they are.

use crate::error::Error;
use crate::layout::{
    decoding, fits, layout, lemma_decoding_is_what_is_spelt, lemma_layout_reads_back, spells,
    spells_nothing,
};
use vstd::prelude::*;

verus! {

/// A configuration unit. It carries no name of its own: its identity is the
/// name under which the registry stores it.
#[derive(Debug)]
pub struct Api {
    client_limit: u16,
    protected_paths: Vec<String>,
    unprotected_paths: Vec<String>,
}

/// What an `Api` holds, as plain mathematical values.
pub struct ApiView {
    /// The client limit; 0 stands for "no limit".
    pub client_limit: u16,
    /// The protected paths, in order, duplicates kept.
    pub protected_paths: Seq<Seq<char>>,
    /// The unprotected paths, in order, duplicates kept.
    pub unprotected_paths: Seq<Seq<char>>,
}

impl ApiView {
    /// The record that stands in where none was supplied: no limit, no paths.
    pub open spec fn empty() -> ApiView {
        ApiView {
            client_limit: 0,
            protected_paths: Seq::empty(),
            unprotected_paths: Seq::empty(),
        }
    }
}

impl View for Api {
    type V = ApiView;

    closed spec fn view(&self) -> ApiView {
        ApiView {
            client_limit: self.client_limit,
            protected_paths: self.protected_paths.deep_view(),
            unprotected_paths: self.unprotected_paths.deep_view(),
        }
    }
}

/// Whether two lists of paths hold the same paths in the same order.
fn same_paths(left: &Vec<String>, right: &Vec<String>) -> (same: bool)
    ensures
        same == (left.deep_view() == right.deep_view()),
{
    if left.len() != right.len() {
        assert(left.deep_view().len() != right.deep_view().len());
        return false;
    }
    let mut i: usize = 0;
    while i < left.len()
        invariant
            i <= left.len(),
            left.len() == right.len(),
            forall|j: int| 0 <= j < i ==> left.deep_view()[j] == right.deep_view()[j],
        decreases left.len() - i,
    {
        if left[i] != right[i] {
            assert(left.deep_view()[i as int] != right.deep_view()[i as int]);
            return false;
        }
        i += 1;
    }
    assert(left.deep_view() =~= right.deep_view());
    true
}

impl PartialEq for Api {
    /// Whether two records hold the same limit and the same paths in the
    /// same order.
    fn eq(&self, other: &Api) -> (same: bool) {
        self.client_limit == other.client_limit && same_paths(
            &self.protected_paths,
            &other.protected_paths,
        ) && same_paths(&self.unprotected_paths, &other.unprotected_paths)
    }
}

impl vstd::std_specs::cmp::PartialEqSpecImpl for Api {
    open spec fn obeys_eq_spec() -> bool {
        true
    }

    /// Two records are equal when they hold the same limit and the same
    /// paths in the same order.
    open spec fn eq_spec(&self, other: &Api) -> bool {
        self@ == other@
    }
}

impl Eq for Api {

}

impl Default for Api {
    /// The record that stands in where none was supplied: no limit, no
    /// paths.
    fn default() -> (api: Api)
        ensures
            api@ == ApiView::empty(),
    {
        let api = Api {
            client_limit: 0,
            protected_paths: Vec::new(),
            unprotected_paths: Vec::new(),
        };
        assert(api.protected_paths.deep_view() =~= Seq::empty());
        assert(api.unprotected_paths.deep_view() =~= Seq::empty());
        api
    }
}

impl Api {
    /// A record of the given limit and path lists.
    pub fn new(client_limit: u16, protected_paths: Vec<String>, unprotected_paths: Vec<String>) -> (api: Api)
        ensures
            api@.client_limit == client_limit,
            api@.protected_paths == protected_paths.deep_view(),
            api@.unprotected_paths == unprotected_paths.deep_view(),
    {
        Api { client_limit, protected_paths, unprotected_paths }
    }

    /// The client limit; 0 stands for "no limit".
    pub fn client_limit(&self) -> (limit: u16)
        ensures
            limit == self@.client_limit,
    {
        self.client_limit
    }

    /// The protected paths, in order.
    pub fn protected_paths(&self) -> (paths: &Vec<String>)
        ensures
            paths.deep_view() == self@.protected_paths,
    {
        &self.protected_paths
    }

    /// The unprotected paths, in order.
    pub fn unprotected_paths(&self) -> (paths: &Vec<String>)
        ensures
            paths.deep_view() == self@.unprotected_paths,
    {
        &self.unprotected_paths
    }
}

/// Calls `bincode::serialize` on the three fields as a tuple, which bincode
/// lays out exactly as it lays out a struct of the same fields: one after
/// the other, nothing in between. Claimed of it, and not proved: it
/// succeeds, as it has no size limit and writes to memory; the bytes that
/// it gives are those of `layout`, which is how bincode documents its
/// format (integers at their fixed width with the low byte first, a list as
/// its length in eight bytes and its items, a string as its length in eight
/// bytes and its UTF-8 bytes); and each length that it wrote fits in the
/// eight bytes that it wrote it in.
#[verifier::external_body]
fn bincode_serialize(
    client_limit: u16,
    protected_paths: &Vec<String>,
    unprotected_paths: &Vec<String>,
) -> (outcome: std::result::Result<Vec<u8>, bincode::Error>)
    ensures
        match outcome {
            Ok(bytes) => {
                let written = ApiView {
                    client_limit,
                    protected_paths: protected_paths.deep_view(),
                    unprotected_paths: unprotected_paths.deep_view(),
                };
                bytes@ == layout(written) && fits(written)
            },
            Err(_) => false,
        },
{
    bincode::serialize(&(client_limit, protected_paths, unprotected_paths))
}

/// Calls `bincode::deserialize` for a tuple of the three fields. Claimed of
/// it, and not proved: where it reads three fields, the bytes begin with
/// the layout of these fields, each length having been read from its eight
/// bytes (bytes that follow the layout are let pass); and it rejects only
/// bytes that begin with the layout of no record.
#[verifier::external_body]
fn bincode_deserialize(bytes: &[u8]) -> (outcome: std::result::Result<
    (u16, Vec<String>, Vec<String>),
    bincode::Error,
>)
    ensures
        match outcome {
            Ok(fields) => {
                let read = ApiView {
                    client_limit: fields.0,
                    protected_paths: fields.1.deep_view(),
                    unprotected_paths: fields.2.deep_view(),
                };
                fits(read) && layout(read).is_prefix_of(bytes@)
            },
            Err(_) => forall|record: ApiView|
                fits(record) ==> !(#[trigger] layout(record)).is_prefix_of(bytes@),
        },
{
    bincode::deserialize(bytes)
}

impl Api {
    /// Encodes the record as the bytes of its layout, from which `decode`
    /// reads it back. Every record has an encoding; should the encoder
    /// refuse one all the same, the refusal is reported, never dropped.
    pub fn encode(&self) -> (outcome: std::result::Result<Vec<u8>, Error>)
        ensures
            outcome matches Ok(bytes) && bytes@ == layout(self@),
            fits(self@),
            decoding(layout(self@)) == Some(self@),
    {
        proof {
            if fits(self@) {
                lemma_layout_reads_back(self@, Seq::empty());
            }
        }
        match bincode_serialize(self.client_limit, &self.protected_paths, &self.unprotected_paths) {
            Ok(bytes) => Ok(bytes),
            Err(e) => Err(Error::Bincode(e)),
        }
    }

    /// Decodes a record from bytes, the inverse of `encode`. It succeeds
    /// exactly on bytes that spell out a record, and gives that record;
    /// bytes that follow the record are let pass. Bytes that are cut short
    /// or are not those of a record are rejected, which is an error of its
    /// own kind and never taken for a missing record.
    pub fn decode(bytes: &[u8]) -> (outcome: std::result::Result<Api, Error>)
        ensures
            match outcome {
                Ok(api) => decoding(bytes@) == Some(api@) && spells(bytes@, api@),
                Err(Error::Bincode(_)) => decoding(bytes@) is None && spells_nothing(bytes@),
                Err(_) => false,
            },
    {
        match bincode_deserialize(bytes) {
            Ok(fields) => {
                let api = Api::new(fields.0, fields.1, fields.2);
                proof {
                    lemma_decoding_is_what_is_spelt(bytes@, api@);
                }
                Ok(api)
            },
            Err(e) => {
                assert forall|record: ApiView| !#[trigger] spells(bytes@, record) by {
                    if fits(record) {
                        assert(!layout(record).is_prefix_of(bytes@));
                    }
                }
                Err(Error::Bincode(e))
            },
        }
    }
}

} // verus!
