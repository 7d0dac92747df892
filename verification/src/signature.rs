//! The byte layout of a signature: one 32-byte segment per chain, in chain
//! order, with segment `i` at bytes `[32 i, 32 i + 32)`.

use vstd::prelude::*;
use crate::params::{HASH_LEN, NUM_SIGNATURE_CHUNKS, SIGNATURE_SIZE};

verus! {

/// Every element is one hash value long.
pub open spec fn is_segment_list(segments: Seq<Seq<u8>>) -> bool {
    forall|i: int| 0 <= i < segments.len() ==> (#[trigger] segments[i]).len() == HASH_LEN
}

/// The segments written one after another.
pub open spec fn join_segments(segments: Seq<Seq<u8>>) -> Seq<u8> {
    Seq::new(segments.len() * 32, |k: int| segments[k / 32][k % 32])
}

/// The buffer cut into consecutive 32-byte segments. Bytes after the last
/// whole segment belong to none.
pub open spec fn split_segments(bytes: Seq<u8>) -> Seq<Seq<u8>> {
    Seq::new((bytes.len() / 32) as nat, |i: int| bytes.subrange(32 * i, 32 * i + 32))
}

/// What the deep view of a vector of segments holds.
pub proof fn lemma_segments_view(segments: Vec<[u8; 32]>)
    ensures
        segments.deep_view().len() == segments@.len(),
        forall|i: int|
            0 <= i < segments@.len() ==> #[trigger] segments.deep_view()[i] == segments@[i]@,
        is_segment_list(segments.deep_view()),
{
    assert forall|i: int| 0 <= i < segments@.len() implies #[trigger] segments.deep_view()[i]
        == segments@[i]@ by {
        assert(segments@[i].deep_view() =~= segments@[i]@);
    }
}

/// Segment `i` occupies bytes `[32 i, 32 i + 32)` of the joined buffer.
pub proof fn lemma_segment_offsets(segments: Seq<Seq<u8>>, i: int)
    requires
        is_segment_list(segments),
        0 <= i < segments.len(),
    ensures
        join_segments(segments).len() == segments.len() * HASH_LEN,
        join_segments(segments).subrange(HASH_LEN * i, HASH_LEN * i + HASH_LEN) == segments[i],
{
    let joined = join_segments(segments);
    let piece = joined.subrange(32 * i, 32 * i + 32);
    assert(piece.len() == segments[i].len());
    assert forall|j: int| 0 <= j < 32 implies piece[j] == segments[i][j] by {
        assert((32 * i + j) / 32 == i);
        assert((32 * i + j) % 32 == j);
    }
    assert(piece =~= segments[i]);
}

/// Splitting what was joined gives the segments back.
pub proof fn lemma_split_join(segments: Seq<Seq<u8>>)
    requires
        is_segment_list(segments),
    ensures
        split_segments(join_segments(segments)) == segments,
{
    let joined = join_segments(segments);
    let split = split_segments(joined);
    assert(split.len() == segments.len());
    assert forall|i: int| 0 <= i < segments.len() implies split[i] == segments[i] by {
        lemma_segment_offsets(segments, i);
    }
    assert(split =~= segments);
}

/// Joining what was split gives the buffer back, when the buffer holds whole
/// segments only.
pub proof fn lemma_join_split(bytes: Seq<u8>)
    requires
        bytes.len() % HASH_LEN as nat == 0,
    ensures
        is_segment_list(split_segments(bytes)),
        split_segments(bytes).len() * HASH_LEN == bytes.len(),
        join_segments(split_segments(bytes)) == bytes,
{
    let split = split_segments(bytes);
    let joined = join_segments(split);
    assert(joined.len() == bytes.len());
    assert forall|k: int| 0 <= k < bytes.len() implies joined[k] == bytes[k] by {
        let i = k / 32;
        assert(0 <= i < split.len());
        assert(split[i][k % 32] == bytes[32 * i + k % 32]);
    }
    assert(joined =~= bytes);
}

/// Writes the segments into one buffer, segment `i` at offset `32 i`. Any
/// number of segments is taken; a signature has `NUM_SIGNATURE_CHUNKS`.
pub fn segments_to_bytes(segments: &Vec<[u8; 32]>) -> (bytes: Vec<u8>)
    ensures
        bytes@ == join_segments(segments.deep_view()),
        bytes@.len() == segments@.len() * HASH_LEN,
        forall|i: int, j: int|
            0 <= i < segments@.len() && 0 <= j < HASH_LEN ==> bytes@[HASH_LEN * i + j]
                == #[trigger] segments@[i]@[j],
{
    let count = segments.len();
    let mut bytes: Vec<u8> = Vec::with_capacity(SIGNATURE_SIZE);
    let mut i: usize = 0;
    while i < count
        invariant
            i <= count,
            count == segments@.len(),
            bytes@.len() == i * 32,
            forall|k: int| 0 <= k < bytes@.len() ==> bytes@[k] == segments@[k / 32]@[k % 32],
        decreases count - i,
    {
        let segment = &segments[i];
        let mut j: usize = 0;
        while j < HASH_LEN
            invariant
                j <= HASH_LEN,
                i < count,
                count == segments@.len(),
                *segment == segments@[i as int],
                bytes@.len() == i * 32 + j,
                forall|k: int| 0 <= k < bytes@.len() ==> bytes@[k] == segments@[k / 32]@[k % 32],
            decreases HASH_LEN - j,
        {
            bytes.push(segment[j]);
            j += 1;
        }
        i += 1;
    }
    proof {
        lemma_segments_view(*segments);
        assert(bytes@ =~= join_segments(segments.deep_view()));
        assert forall|i: int, j: int|
            0 <= i < segments@.len() && 0 <= j < HASH_LEN implies bytes@[HASH_LEN * i + j]
            == #[trigger] segments@[i]@[j] by {
            assert((32 * i + j) / 32 == i);
            assert((32 * i + j) % 32 == j);
        }
    }
    bytes
}

/// Cuts a signature buffer into its segments. A buffer of any length but
/// `SIGNATURE_SIZE` is refused; one of that length always splits, into
/// `NUM_SIGNATURE_CHUNKS` segments.
pub fn bytes_to_segments(bytes: &[u8]) -> (r: Option<Vec<[u8; 32]>>)
    ensures
        r is Some <==> bytes@.len() == SIGNATURE_SIZE,
        r matches Some(segments) ==> segments.deep_view() == split_segments(bytes@),
        r matches Some(segments) ==> segments@.len() == NUM_SIGNATURE_CHUNKS,
        r matches Some(segments) ==> forall|i: int, j: int|
            0 <= i < NUM_SIGNATURE_CHUNKS && 0 <= j < HASH_LEN ==> #[trigger] segments@[i]@[j]
                == bytes@[HASH_LEN * i + j],
{
    if bytes.len() != SIGNATURE_SIZE {
        return None;
    }
    let mut segments: Vec<[u8; 32]> = Vec::with_capacity(NUM_SIGNATURE_CHUNKS);
    let mut i: usize = 0;
    while i < NUM_SIGNATURE_CHUNKS
        invariant
            i <= NUM_SIGNATURE_CHUNKS,
            bytes@.len() == SIGNATURE_SIZE,
            segments@.len() == i,
            forall|s: int|
                0 <= s < i ==> (#[trigger] segments@[s])@ == bytes@.subrange(32 * s, 32 * s + 32),
        decreases NUM_SIGNATURE_CHUNKS - i,
    {
        let start = i * HASH_LEN;
        let mut segment = [0u8; 32];
        let mut j: usize = 0;
        while j < HASH_LEN
            invariant
                j <= HASH_LEN,
                i < NUM_SIGNATURE_CHUNKS,
                start == i * 32,
                bytes@.len() == SIGNATURE_SIZE,
                forall|k: int| 0 <= k < j ==> segment@[k] == bytes@[start + k],
            decreases HASH_LEN - j,
        {
            segment[j] = bytes[start + j];
            j += 1;
        }
        assert(segment@ =~= bytes@.subrange(32 * i, 32 * i + 32));
        segments.push(segment);
        i += 1;
    }
    proof {
        lemma_segments_view(segments);
        assert(segments.deep_view() =~= split_segments(bytes@));
        assert forall|i: int, j: int|
            0 <= i < NUM_SIGNATURE_CHUNKS && 0 <= j < HASH_LEN implies #[trigger] segments@[i]@[j]
            == bytes@[HASH_LEN * i + j] by {
            assert(segments@[i]@ == bytes@.subrange(32 * i, 32 * i + 32));
        }
    }
    Some(segments)
}

} // verus!
