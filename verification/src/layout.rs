//! The layout of a stored record, byte by byte, what it means for bytes to
//! decode to a record, and the proof that bytes decode in one way only.

use crate::record::ApiView;
use vstd::bytes::{
    lemma_auto_spec_u16_to_from_le_bytes, lemma_auto_spec_u64_to_from_le_bytes,
    spec_u16_from_le_bytes, spec_u16_to_le_bytes, spec_u64_from_le_bytes, spec_u64_to_le_bytes,
};
use vstd::prelude::*;
use vstd::utf8::{encode_utf8, encode_utf8_decode_utf8};

verus! {

/// The bytes of one path: the number of its UTF-8 bytes, in eight bytes with
/// the low byte first, and then those bytes.
pub open spec fn path_layout(path: Seq<char>) -> Seq<u8> {
    spec_u64_to_le_bytes(encode_utf8(path).len() as u64) + encode_utf8(path)
}

/// The bytes of the paths of a list, one path after the other.
pub open spec fn paths_layout(paths: Seq<Seq<char>>) -> Seq<u8>
    decreases paths.len(),
{
    if paths.len() == 0 {
        Seq::empty()
    } else {
        path_layout(paths.first()) + paths_layout(paths.drop_first())
    }
}

/// The bytes of a list of paths: the number of the paths, in eight bytes
/// with the low byte first, and then the paths.
pub open spec fn list_layout(paths: Seq<Seq<char>>) -> Seq<u8> {
    spec_u64_to_le_bytes(paths.len() as u64) + paths_layout(paths)
}

/// The value that a record is stored as: the client limit in two bytes with
/// the low byte first, then the list of the protected paths, then the list
/// of the unprotected paths.
pub open spec fn layout(record: ApiView) -> Seq<u8> {
    spec_u16_to_le_bytes(record.client_limit) + list_layout(record.protected_paths) + list_layout(
        record.unprotected_paths,
    )
}

/// Whether the number of the paths, and of the bytes of each path, fits in
/// the eight bytes that the layout has for it.
pub open spec fn paths_fit(paths: Seq<Seq<char>>) -> bool {
    &&& paths.len() <= u64::MAX
    &&& forall|i: int| 0 <= i < paths.len() ==> encode_utf8(#[trigger] paths[i]).len() <= u64::MAX
}

/// Whether every length of a record fits in the eight bytes that the layout
/// has for it, as the lengths of a record in memory do.
pub open spec fn fits(record: ApiView) -> bool {
    paths_fit(record.protected_paths) && paths_fit(record.unprotected_paths)
}

/// Whether the bytes spell out the record: they begin with its layout, and
/// the record's lengths fit in the layout. Bytes that follow the layout do
/// not count.
pub open spec fn spells(bytes: Seq<u8>, record: ApiView) -> bool {
    fits(record) && layout(record).is_prefix_of(bytes)
}

/// Whether the bytes spell out no record at all: they are cut short, or are
/// not the bytes of a record.
pub open spec fn spells_nothing(bytes: Seq<u8>) -> bool {
    forall|record: ApiView| !#[trigger] spells(bytes, record)
}

/// The record that the bytes decode to: the one that they spell out, and
/// none where they spell out nothing.
pub open spec fn decoding(bytes: Seq<u8>) -> Option<ApiView> {
    if exists|record: ApiView| spells(bytes, record) {
        Some(choose|record: ApiView| spells(bytes, record))
    } else {
        None
    }
}

/// Two byte strings that agree as a whole and are cut at the same place
/// agree in both parts.
proof fn lemma_cut_agrees(a: Seq<u8>, x: Seq<u8>, b: Seq<u8>, y: Seq<u8>)
    requires
        a + x == b + y,
        a.len() == b.len(),
    ensures
        a == b,
        x == y,
{
    assert(a =~= (a + x).subrange(0, a.len() as int));
    assert(b =~= (b + y).subrange(0, b.len() as int));
    assert(x =~= (a + x).subrange(a.len() as int, (a + x).len() as int));
    assert(y =~= (b + y).subrange(b.len() as int, (b + y).len() as int));
}

/// Bytes that begin with the layout of a path begin with that of no other
/// path, and what follows the path is determined too.
proof fn lemma_path_read_one_way(a: Seq<char>, x: Seq<u8>, b: Seq<char>, y: Seq<u8>)
    requires
        encode_utf8(a).len() <= u64::MAX,
        encode_utf8(b).len() <= u64::MAX,
        path_layout(a) + x == path_layout(b) + y,
    ensures
        a == b,
        x == y,
{
    lemma_auto_spec_u64_to_from_le_bytes();
    let len_a = spec_u64_to_le_bytes(encode_utf8(a).len() as u64);
    let len_b = spec_u64_to_le_bytes(encode_utf8(b).len() as u64);
    assert(path_layout(a) + x =~= len_a + (encode_utf8(a) + x));
    assert(path_layout(b) + y =~= len_b + (encode_utf8(b) + y));
    lemma_cut_agrees(len_a, encode_utf8(a) + x, len_b, encode_utf8(b) + y);
    assert(spec_u64_from_le_bytes(len_a) == spec_u64_from_le_bytes(len_b));
    lemma_cut_agrees(encode_utf8(a), x, encode_utf8(b), y);
    encode_utf8_decode_utf8(a);
    encode_utf8_decode_utf8(b);
}

/// Bytes that begin with the layouts of a number of paths begin with those
/// of no other paths of that number, and what follows them is determined
/// too.
proof fn lemma_paths_read_one_way(p: Seq<Seq<char>>, x: Seq<u8>, q: Seq<Seq<char>>, y: Seq<u8>)
    requires
        paths_fit(p),
        paths_fit(q),
        p.len() == q.len(),
        paths_layout(p) + x == paths_layout(q) + y,
    ensures
        p == q,
        x == y,
    decreases p.len(),
{
    if p.len() == 0 {
        assert(paths_layout(p) + x =~= x);
        assert(paths_layout(q) + y =~= y);
        assert(p =~= q);
    } else {
        let p_rest = p.drop_first();
        let q_rest = q.drop_first();
        assert(paths_layout(p) + x =~= path_layout(p.first()) + (paths_layout(p_rest) + x));
        assert(paths_layout(q) + y =~= path_layout(q.first()) + (paths_layout(q_rest) + y));
        assert(p.first() == p[0] && q.first() == q[0]);
        lemma_path_read_one_way(
            p.first(),
            paths_layout(p_rest) + x,
            q.first(),
            paths_layout(q_rest) + y,
        );
        assert forall|i: int| 0 <= i < p_rest.len() implies encode_utf8(
            #[trigger] p_rest[i],
        ).len() <= u64::MAX by {
            assert(p_rest[i] == p[i + 1]);
        }
        assert forall|i: int| 0 <= i < q_rest.len() implies encode_utf8(
            #[trigger] q_rest[i],
        ).len() <= u64::MAX by {
            assert(q_rest[i] == q[i + 1]);
        }
        lemma_paths_read_one_way(p_rest, x, q_rest, y);
        assert(p =~= seq![p.first()] + p_rest);
        assert(q =~= seq![q.first()] + q_rest);
    }
}

/// Bytes that begin with the layout of a list of paths begin with that of
/// no other list, and what follows the list is determined too.
proof fn lemma_list_read_one_way(p: Seq<Seq<char>>, x: Seq<u8>, q: Seq<Seq<char>>, y: Seq<u8>)
    requires
        paths_fit(p),
        paths_fit(q),
        list_layout(p) + x == list_layout(q) + y,
    ensures
        p == q,
        x == y,
{
    lemma_auto_spec_u64_to_from_le_bytes();
    let count_p = spec_u64_to_le_bytes(p.len() as u64);
    let count_q = spec_u64_to_le_bytes(q.len() as u64);
    assert(list_layout(p) + x =~= count_p + (paths_layout(p) + x));
    assert(list_layout(q) + y =~= count_q + (paths_layout(q) + y));
    lemma_cut_agrees(count_p, paths_layout(p) + x, count_q, paths_layout(q) + y);
    assert(spec_u64_from_le_bytes(count_p) == spec_u64_from_le_bytes(count_q));
    lemma_paths_read_one_way(p, x, q, y);
}

/// Bytes decode in one way only: they spell out one record at most.
pub proof fn lemma_spells_one_record(bytes: Seq<u8>, first: ApiView, second: ApiView)
    requires
        spells(bytes, first),
        spells(bytes, second),
    ensures
        first == second,
{
    lemma_auto_spec_u16_to_from_le_bytes();
    let x = bytes.subrange(layout(first).len() as int, bytes.len() as int);
    let y = bytes.subrange(layout(second).len() as int, bytes.len() as int);
    assert(bytes =~= layout(first) + x);
    assert(bytes =~= layout(second) + y);
    let limit_1 = spec_u16_to_le_bytes(first.client_limit);
    let limit_2 = spec_u16_to_le_bytes(second.client_limit);
    let rest_1 = list_layout(first.unprotected_paths) + x;
    let rest_2 = list_layout(second.unprotected_paths) + y;
    let lists_1 = list_layout(first.protected_paths) + rest_1;
    let lists_2 = list_layout(second.protected_paths) + rest_2;
    assert(layout(first) + x =~= limit_1 + lists_1);
    assert(layout(second) + y =~= limit_2 + lists_2);
    lemma_cut_agrees(limit_1, lists_1, limit_2, lists_2);
    assert(spec_u16_from_le_bytes(limit_1) == spec_u16_from_le_bytes(limit_2));
    lemma_list_read_one_way(first.protected_paths, rest_1, second.protected_paths, rest_2);
    lemma_list_read_one_way(first.unprotected_paths, x, second.unprotected_paths, y);
}

/// Bytes that spell out a record decode to that record.
pub proof fn lemma_decoding_is_what_is_spelt(bytes: Seq<u8>, record: ApiView)
    requires
        spells(bytes, record),
    ensures
        decoding(bytes) == Some(record),
{
    let chosen = choose|record: ApiView| spells(bytes, record);
    lemma_spells_one_record(bytes, chosen, record);
}

/// Encoding and decoding are inverse: the layout of a record decodes to the
/// record, and so does the layout with any bytes after it.
pub proof fn lemma_layout_reads_back(record: ApiView, tail: Seq<u8>)
    requires
        fits(record),
    ensures
        decoding(layout(record) + tail) == Some(record),
        decoding(layout(record)) == Some(record),
{
    assert(layout(record).is_prefix_of(layout(record) + tail));
    lemma_decoding_is_what_is_spelt(layout(record) + tail, record);
    assert(layout(record).is_prefix_of(layout(record)));
    lemma_decoding_is_what_is_spelt(layout(record), record);
}

/// Two records with the same layout are the same record.
pub proof fn lemma_layout_injective(first: ApiView, second: ApiView)
    requires
        fits(first),
        fits(second),
        layout(first) == layout(second),
    ensures
        first == second,
{
    assert(layout(first).is_prefix_of(layout(first)));
    lemma_spells_one_record(layout(first), first, second);
}

} // verus!
