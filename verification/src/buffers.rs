//! Sizes of the storage buffers that hold rays and geometry, and the split of
//! a large ray set over several buffers that each fit the device's limit.

use crate::align::{div_ceil_spec, round_up_spec};
use vstd::prelude::*;

verus! {

/// Element and byte counts that a single storage buffer records about itself.
#[derive(Clone, Copy, Debug, PartialEq, Eq)]
pub struct BufferSizes {
    pub size_elements: u32,
    pub size_bytes: u32,
}

/// The counts a buffer of `count` elements of `elem_size` bytes records;
/// both are kept as `u32`, so larger counts wrap as the `as u32` casts do.
pub fn buffer_sizes(count: usize, elem_size: usize) -> (s: BufferSizes)
    requires
        count * elem_size <= usize::MAX,
    ensures
        s.size_elements == count as u32,
        s.size_bytes == (count * elem_size) as u32,
{
    BufferSizes { size_elements: count as u32, size_bytes: (count * elem_size) as u32 }
}

/// Bytes to allocate for `count` elements of `elem_size` bytes: the payload
/// rounded up to a multiple of 4, as buffer copies require.
pub fn padded_allocation(count: usize, elem_size: usize) -> (n: usize)
    requires
        count * elem_size <= usize::MAX,
        round_up_spec((count * elem_size) as nat, 4) <= usize::MAX,
    ensures
        n as nat == round_up_spec((count * elem_size) as nat, 4),
        n % 4 == 0,
        count * elem_size <= n < count * elem_size + 4,
{
    let raw = count * elem_size;
    if raw % 4 == 0 {
        raw
    } else {
        raw + (4 - raw % 4)
    }
}

/// How many elements of `elem_size` bytes fit in one buffer of at most
/// `max_buffer_bytes` bytes (the limit is first taken as a `usize`).
pub fn elements_per_buffer(max_buffer_bytes: u64, elem_size: usize) -> (n: usize)
    requires
        elem_size > 0,
    ensures
        n == (max_buffer_bytes as usize) / elem_size,
{
    (max_buffer_bytes as usize) / elem_size
}

/// Byte size of a buffer of `count` elements of `elem_size` bytes, as a `u64`.
pub fn chunk_bytes(count: usize, elem_size: usize) -> (n: u64)
    requires
        count * elem_size <= usize::MAX,
    ensures
        n == count * elem_size,
{
    (count * elem_size) as u64
}

/// Vertices drawn for the closed outline of a polygon of `vertices` corners:
/// the line strip comes back to the first corner.
pub fn outline_vertex_count(vertices: u32) -> (n: u32)
    requires
        vertices < u32::MAX,
    ensures
        n == vertices + 1,
{
    vertices + 1
}

/// The `i`-th piece when `len` elements are cut into buffers of `per_buffer`:
/// it starts at `i * per_buffer` and holds `per_buffer` elements, or what is
/// left for the last piece.
pub open spec fn chunk_spec(len: nat, per_buffer: nat, i: nat) -> (usize, usize) {
    let start = i * per_buffer;
    let rest = len - start;
    (start as usize, (if rest < per_buffer { rest } else { per_buffer as int }) as usize)
}

/// `chunks` is the split of `len` elements into buffers of `per_buffer`:
/// `ceil(len / per_buffer)` pieces, the `i`-th being `chunk_spec(len, per_buffer, i)`.
pub open spec fn is_chunk_plan(chunks: Seq<(usize, usize)>, len: nat, per_buffer: nat) -> bool {
    &&& chunks.len() == div_ceil_spec(len, per_buffer)
    &&& forall|i: int| 0 <= i < chunks.len() ==> #[trigger] chunks[i] == chunk_spec(len, per_buffer, i as nat)
}

/// Splits `len` elements into consecutive `(start, count)` pieces: whole
/// buffers of `per_buffer` elements, then one buffer with the remainder if
/// there is one.
pub fn plan_chunks(len: usize, per_buffer: usize) -> (chunks: Vec<(usize, usize)>)
    requires
        per_buffer > 0,
    ensures
        is_chunk_plan(chunks@, len as nat, per_buffer as nat),
{
    let full = len / per_buffer;
    let excess = len % per_buffer;
    let mut chunks: Vec<(usize, usize)> = Vec::new();
    let mut i: usize = 0;
    while i < full
        invariant
            per_buffer > 0,
            full == len / per_buffer,
            excess == len % per_buffer,
            i <= full,
            chunks@.len() == i,
            forall|j: int| 0 <= j < i ==> #[trigger] chunks@[j] == chunk_spec(len as nat, per_buffer as nat, j as nat),
        decreases full - i,
    {
        proof {
            vstd::arithmetic::div_mod::lemma_fundamental_div_mod(len as int, per_buffer as int);
            vstd::arithmetic::mul::lemma_mul_inequality(i as int + 1, full as int, per_buffer as int);
            assert((i + 1) * per_buffer == i * per_buffer + per_buffer) by (nonlinear_arith);
            assert(full * per_buffer == per_buffer * full) by (nonlinear_arith);
        }
        let start = i * per_buffer;
        chunks.push((start, per_buffer));
        i = i + 1;
    }
    if excess > 0 {
        proof {
            vstd::arithmetic::div_mod::lemma_fundamental_div_mod(len as int, per_buffer as int);
            assert(full * per_buffer == per_buffer * full) by (nonlinear_arith);
        }
        let start = full * per_buffer;
        chunks.push((start, excess));
    }
    chunks
}

/// A chunk plan partitions the elements: the pieces are non-empty, hold at
/// most `per_buffer` elements (exactly that many, but for the last), start at
/// 0, follow one another without gap or overlap, and end at `len`.
pub proof fn lemma_chunk_plan_partitions(chunks: Seq<(usize, usize)>, len: usize, per_buffer: usize)
    requires
        per_buffer > 0,
        is_chunk_plan(chunks, len as nat, per_buffer as nat),
    ensures
        chunks.len() == 0 <==> len == 0,
        forall|i: int| 0 <= i < chunks.len() ==> 1 <= (#[trigger] chunks[i]).1 <= per_buffer,
        forall|i: int| 0 <= i < chunks.len() - 1 ==> (#[trigger] chunks[i]).1 == per_buffer,
        chunks.len() > 0 ==> chunks[0].0 == 0,
        forall|i: int|
            0 <= i < chunks.len() - 1 ==> #[trigger] chunks[i + 1].0 == chunks[i].0 + chunks[i].1,
        chunks.len() > 0 ==> chunks.last().0 + chunks.last().1 == len,
{
    let n = chunks.len() as int;
    let p = per_buffer as int;
    let l = len as int;
    vstd::arithmetic::div_mod::lemma_fundamental_div_mod(l, p);
    let q = l / p;
    let r = l % p;
    if l == 0 {
        assert(q == 0);
    } else if r == 0 {
        assert(q != 0) by {
            if q == 0 {
                assert(p * q == 0) by (nonlinear_arith) requires q == 0;
            }
        }
    }
    assert forall|i: int| 0 <= i < n implies i * p < l && (i < n - 1 ==> (i + 1) * p <= l && l - i * p >= p) && #[trigger] chunks[i] == chunk_spec(l as nat, p as nat, i as nat) by {
        if r == 0 {
            assert(i < q);
            vstd::arithmetic::mul::lemma_mul_inequality(i + 1, q, p);
        } else {
            assert(i <= q);
            vstd::arithmetic::mul::lemma_mul_inequality(i, q, p);
            if i < n - 1 {
                vstd::arithmetic::mul::lemma_mul_inequality(i + 1, q, p);
            }
        }
        assert((i + 1) * p == i * p + p) by (nonlinear_arith);
        assert(q * p == p * q) by (nonlinear_arith);
    }
    assert forall|i: int| 0 <= i < n - 1 implies #[trigger] chunks[i + 1].0 == chunks[i].0 + chunks[i].1 by {
        assert(chunks[i] == chunk_spec(l as nat, p as nat, i as nat));
        assert(chunks[i + 1] == chunk_spec(l as nat, p as nat, (i + 1) as nat));
        assert((i + 1) * p == i * p + p) by (nonlinear_arith);
    }
    if n > 0 {
        assert(chunks[0] == chunk_spec(l as nat, p as nat, 0));
        let last = n - 1;
        assert(chunks[last] == chunk_spec(l as nat, p as nat, last as nat));
        assert(q * p == p * q) by (nonlinear_arith);
        if r == 0 {
            assert(last == q - 1);
            assert((q - 1) * p == q * p - p) by (nonlinear_arith);
        } else {
            assert(last == q);
        }
    }
}

} // verus!
