//! Content fingerprinting: a positional Merkle root over fixed-size chunks.
use keccak_hasher::KeccakHasher;
use triehash::ordered_trie_root;
use vstd::prelude::*;

verus! {

/// Size in bytes of every chunk but possibly the last.
pub const CHUNK_SIZE: usize = 64;

/// Number of chunks that `len` bytes are split into.
pub open spec fn chunk_count(len: nat) -> nat {
    ((len + 63) / 64) as nat
}

/// End (exclusive) of the `i`-th chunk of a file of `len` bytes.
pub open spec fn chunk_end(len: nat, i: int) -> int {
    if 64 * (i + 1) <= len {
        64 * (i + 1)
    } else {
        len as int
    }
}

/// The `i`-th chunk of `s`: its bytes from `64 * i` up to the next boundary
/// or the end of `s`, never padded.
pub open spec fn chunk_at(s: Seq<u8>, i: int) -> Seq<u8> {
    s.subrange(64 * i, chunk_end(s.len(), i))
}

/// `s` split into consecutive chunks of 64 bytes, the last one possibly shorter.
pub open spec fn chunks_of(s: Seq<u8>) -> Seq<Seq<u8>> {
    Seq::new(chunk_count(s.len()), |i: int| chunk_at(s, i))
}

/// The Keccak-256 root of the ordered trie that maps each position to its item.
pub uninterp spec fn ordered_trie_root_of(items: Seq<Seq<u8>>) -> Seq<u8>;

/// The fingerprint of a file: the ordered trie root over its chunks.
pub open spec fn fingerprint_of(file: Seq<u8>) -> Seq<u8> {
    ordered_trie_root_of(chunks_of(file))
}

/// The byte sequences held by a vector of byte vectors.
pub open spec fn byte_views(v: Seq<Vec<u8>>) -> Seq<Seq<u8>> {
    v.map_values(|c: Vec<u8>| c@)
}

/// Relies on `triehash::ordered_trie_root` with `keccak_hasher::KeccakHasher`:
/// the root of the trie keyed by each item's position, a function of the items alone.
#[verifier::external_body]
fn ordered_root(items: &Vec<Vec<u8>>) -> (r: [u8; 32])
    ensures
        r@ == ordered_trie_root_of(byte_views(items@)),
{
    ordered_trie_root::<KeccakHasher, _>(items.iter())
}

/// Splits `file` into its chunks.
pub fn split_chunks(file: &Vec<u8>) -> (r: Vec<Vec<u8>>)
    ensures
        byte_views(r@) == chunks_of(file@),
{
    let mut chunks: Vec<Vec<u8>> = Vec::new();
    let mut start: usize = 0;
    while start < file.len()
        invariant
            start <= file.len(),
            start == 64 * chunks@.len(),
            forall|j: int| 0 <= j < chunks@.len() ==> #[trigger] chunks@[j]@ == chunk_at(file@, j),
        decreases file.len() - start,
    {
        let end: usize = if file.len() - start > CHUNK_SIZE {
            start + CHUNK_SIZE
        } else {
            file.len()
        };
        let mut chunk: Vec<u8> = Vec::new();
        let mut k: usize = start;
        while k < end
            invariant
                start <= k <= end <= file.len(),
                chunk@ == file@.subrange(start as int, k as int),
            decreases end - k,
        {
            chunk.push(file[k]);
            k = k + 1;
            assert(chunk@ =~= file@.subrange(start as int, k as int));
        }
        assert(end as int == chunk_end(file@.len(), chunks@.len() as int));
        chunks.push(chunk);
        if end == file.len() {
            assert(chunk_count(file@.len()) == chunks@.len());
            assert(byte_views(chunks@) =~= chunks_of(file@));
            return chunks;
        }
        start = end;
    }
    assert(file@.len() == 64 * chunks@.len());
    assert(chunk_count(file@.len()) == chunks@.len());
    assert(byte_views(chunks@) =~= chunks_of(file@));
    chunks
}

/// The fingerprint of `file`.
pub fn make_merkle_root(file: &Vec<u8>) -> (r: [u8; 32])
    ensures
        r@ == fingerprint_of(file@),
{
    let chunks = split_chunks(file);
    ordered_root(&chunks)
}

/// Every chunk but the last holds exactly 64 bytes; the last holds
/// `len % 64` bytes, or 64 where the length is a multiple of 64, and is
/// never padded; the empty file has no chunks at all, so its fingerprint is
/// the one fixed root of the empty trie.
pub proof fn lemma_chunk_boundary(s: Seq<u8>)
    ensures
        forall|i: int| 0 <= i < chunks_of(s).len() - 1 ==> (#[trigger] chunks_of(s)[i]).len() == 64,
        s.len() > 0 ==> chunks_of(s).len() > 0 && chunks_of(s).last().len() == (if s.len() % 64 == 0 {
            64
        } else {
            s.len() % 64
        }),
        s.len() % 64 == 0 ==> chunks_of(s).len() * 64 == s.len(),
        s.len() % 64 != 0 ==> chunks_of(s).len() * 64 > s.len(),
        s.len() == 0 ==> chunks_of(s) == Seq::<Seq<u8>>::empty(),
        s.len() == 0 ==> fingerprint_of(s) == ordered_trie_root_of(Seq::empty()),
{
    let n = chunks_of(s).len();
    assert forall|i: int| 0 <= i < n - 1 implies (#[trigger] chunks_of(s)[i]).len() == 64 by {
        assert(64 * (i + 1) <= s.len());
    }
    if s.len() == 0 {
        assert(chunks_of(s) =~= Seq::<Seq<u8>>::empty());
    }
}

/// A byte of chunk `k / 64` at offset `k % 64` is byte `k` of the file.
proof fn lemma_byte_in_chunk(s: Seq<u8>, k: int)
    requires
        0 <= k < s.len(),
    ensures
        k / 64 < chunks_of(s).len(),
        k % 64 < chunks_of(s)[k / 64].len(),
        chunks_of(s)[k / 64][k % 64] == s[k],
{
    let i = k / 64;
    assert(64 * i <= k < 64 * (i + 1));
    assert(i < chunk_count(s.len()));
}

/// The chunks determine the file: two files with the same chunks are equal.
pub proof fn lemma_chunks_injective(a: Seq<u8>, b: Seq<u8>)
    requires
        chunks_of(a) == chunks_of(b),
    ensures
        a == b,
{
    lemma_chunk_boundary(a);
    lemma_chunk_boundary(b);
    let n = chunks_of(a).len();
    if n > 0 {
        assert(a.len() == 64 * (n - 1) + chunks_of(a)[n - 1].len()) by {
            assert(chunk_at(a, n - 1).len() == chunk_end(a.len(), n - 1) - 64 * (n - 1));
            assert(64 * (n - 1) < a.len());
        }
        assert(b.len() == 64 * (n - 1) + chunks_of(b)[n - 1].len()) by {
            assert(chunk_at(b, n - 1).len() == chunk_end(b.len(), n - 1) - 64 * (n - 1));
            assert(64 * (n - 1) < b.len());
        }
    }
    assert(a.len() == b.len());
    assert forall|k: int| 0 <= k < a.len() implies a[k] == b[k] by {
        lemma_byte_in_chunk(a, k);
        lemma_byte_in_chunk(b, k);
    }
    assert(a =~= b);
}

/// The fingerprint is a function of the bytes: equal files give equal
/// fingerprints on every call, and files that differ in any byte hand the
/// hash different chunk sequences, so they collide only where the hash does.
pub proof fn lemma_fingerprint_deterministic(a: Seq<u8>, b: Seq<u8>)
    ensures
        a == b ==> fingerprint_of(a) == fingerprint_of(b),
        a != b ==> chunks_of(a) != chunks_of(b),
{
    if chunks_of(a) == chunks_of(b) {
        lemma_chunks_injective(a, b);
    }
}

} // verus!
