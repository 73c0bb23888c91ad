use vstd::prelude::*;
use vstd::slice::slice_subrange;
use vstd::slice::slice_to_vec;
use solana_sdk::pubkey::Pubkey;
use crate::amm::ceil_div;

verus! {

/// The number of chunks that a pool of `pool_size` tip accounts is cut
/// into for `threads` runtimes: the smaller of the two, and at least one.
pub open spec fn spec_wanted_chunks(pool_size: nat, threads: nat) -> nat {
    let wanted = if threads < pool_size {
        threads
    } else {
        pool_size
    };
    if wanted == 0 {
        1
    } else {
        wanted
    }
}

/// The number of chunks cut: one for each runtime, and no more than there
/// are accounts. An empty pool gives one chunk, which is empty.
pub open spec fn spec_chunk_count(pool_size: nat, threads: nat) -> nat {
    spec_wanted_chunks(pool_size, threads)
}

/// The length of the longest chunk: the pool's size divided by the number
/// of chunks, rounded up.
pub open spec fn spec_chunk_size(pool_size: nat, threads: nat) -> nat {
    ceil_div(pool_size, spec_chunk_count(pool_size, threads))
}

/// The place in the pool at which the chunk at `index` starts when the
/// pool is cut into `count` chunks of nearly one length: the chunks in
/// front take the accounts that an even cut leaves over, one each.
pub open spec fn spec_chunk_start(pool_size: nat, count: nat, index: nat) -> nat
    recommends
        count > 0,
{
    let left_over = pool_size % count;
    index * (pool_size / count) + if index < left_over {
        index
    } else {
        left_over
    }
}

/// The chunk at `index` when `pool` is cut into `count` consecutive chunks
/// of nearly one length.
pub open spec fn spec_chunk<T>(pool: Seq<T>, count: nat, index: nat) -> Seq<T>
    recommends
        count > 0,
{
    pool.subrange(
        spec_chunk_start(pool.len(), count, index) as int,
        spec_chunk_start(pool.len(), count, index + 1) as int,
    )
}

/// The first `count` chunks laid end to end.
pub open spec fn spec_joined<T>(chunks: Seq<Seq<T>>, count: nat) -> Seq<T>
    decreases count,
{
    if count == 0 {
        Seq::empty()
    } else {
        spec_joined(chunks, (count - 1) as nat) + chunks[count - 1]
    }
}

/// Chunks as plain sequences.
pub open spec fn spec_chunk_views(chunks: Seq<Vec<Pubkey>>) -> Seq<Seq<Pubkey>> {
    Seq::new(chunks.len(), |i: int| chunks[i]@)
}

/// Whether `chunks` is `pool` cut for `threads` runtimes.
pub open spec fn is_sharding<T>(chunks: Seq<Seq<T>>, pool: Seq<T>, threads: nat) -> bool {
    &&& chunks.len() == spec_chunk_count(pool.len(), threads)
    &&& forall|i: int|
        0 <= i < chunks.len() ==> #[trigger] chunks[i] == spec_chunk(
            pool,
            spec_chunk_count(pool.len(), threads),
            i as nat,
        )
}

/// The starts of the chunks rise from the pool's first place to its end,
/// and each chunk is as long as an even cut gives, or longer by one.
pub proof fn lemma_chunk_starts(pool_size: nat, count: nat, index: nat)
    requires
        count > 0,
        index < count,
    ensures
        spec_chunk_start(pool_size, count, 0) == 0,
        spec_chunk_start(pool_size, count, count) == pool_size,
        spec_chunk_start(pool_size, count, index + 1) == spec_chunk_start(pool_size, count, index)
            + pool_size / count + if index < pool_size % count {
            1nat
        } else {
            0nat
        },
        spec_chunk_start(pool_size, count, index + 1) <= pool_size,
{
    let base = pool_size / count;
    let left_over = pool_size % count;
    vstd::arithmetic::div_mod::lemma_fundamental_div_mod(pool_size as int, count as int);
    vstd::arithmetic::div_mod::lemma_mod_bound(pool_size as int, count as int);
    assert(0 * base == 0) by (nonlinear_arith);
    assert(count * base == pool_size - left_over) by (nonlinear_arith)
        requires
            pool_size == count * base + left_over,
    ;
    assert((index + 1) * base == index * base + base) by (nonlinear_arith);
    assert((index + 1) * base <= count * base) by (nonlinear_arith)
        requires
            index + 1 <= count,
    ;
}

proof fn lemma_ceil_div_unique(a: nat, b: nat, k: nat)
    requires
        b > 0,
        a > 0,
        k >= 1,
        (k - 1) * b < a,
        a <= k * b,
    ensures
        ceil_div(a, b) == k,
{
    let x = (a + b - 1) as int;
    assert((k - 1) * b == k * b - b) by (nonlinear_arith);
    vstd::arithmetic::div_mod::lemma_fundamental_div_mod_converse(
        x,
        b as int,
        k as int,
        x - k * b,
    );
}

/// An even cut of a pool that is not empty, or that cut and one more where
/// accounts are left over, is the pool's size divided by the number of
/// chunks, rounded up.
proof fn lemma_longest_chunk(pool_size: nat, count: nat)
    requires
        count > 0,
        pool_size > 0,
    ensures
        pool_size % count == 0 ==> ceil_div(pool_size, count) == pool_size / count,
        pool_size % count > 0 ==> ceil_div(pool_size, count) == pool_size / count + 1,
{
    let base = pool_size / count;
    let left_over = pool_size % count;
    vstd::arithmetic::div_mod::lemma_fundamental_div_mod(pool_size as int, count as int);
    vstd::arithmetic::div_mod::lemma_mod_bound(pool_size as int, count as int);
    assert(base * count == count * base) by (nonlinear_arith);
    assert((base + 1) * count == count * base + count) by (nonlinear_arith);
    assert((base - 1) * count == count * base - count) by (nonlinear_arith);
    if left_over == 0 {
        assert(base >= 1) by (nonlinear_arith)
            requires
                pool_size == count * base,
                pool_size > 0,
                count > 0,
        ;
        lemma_ceil_div_unique(pool_size, count, base);
    } else {
        lemma_ceil_div_unique(pool_size, count, base + 1);
    }
}

proof fn lemma_joined_prefix<T>(chunks: Seq<Seq<T>>, pool: Seq<T>, cut: nat, count: nat)
    requires
        cut > 0,
        chunks.len() == cut,
        count <= cut,
        forall|i: int| 0 <= i < chunks.len() ==> #[trigger] chunks[i] == spec_chunk(pool, cut, i as nat),
    ensures
        spec_chunk_start(pool.len(), cut, count) <= pool.len(),
        spec_joined(chunks, count) == pool.subrange(
            0,
            spec_chunk_start(pool.len(), cut, count) as int,
        ),
    decreases count,
{
    if count == 0 {
        lemma_chunk_starts(pool.len(), cut, 0);
        assert(spec_joined(chunks, 0) =~= pool.subrange(0, 0));
    } else {
        let before = (count - 1) as nat;
        lemma_joined_prefix(chunks, pool, cut, before);
        lemma_chunk_starts(pool.len(), cut, before);
        assert(chunks[before as int] == spec_chunk(pool, cut, before));
        assert(spec_joined(chunks, count) =~= pool.subrange(
            0,
            spec_chunk_start(pool.len(), cut, count) as int,
        ));
    }
}

/// The chunks of a sharding, laid end to end in order, are the pool: every
/// account is in exactly one chunk, at the place the pool gives it.
pub proof fn lemma_sharding_covers_pool<T>(chunks: Seq<Seq<T>>, pool: Seq<T>, threads: nat)
    requires
        is_sharding(chunks, pool, threads),
    ensures
        spec_joined(chunks, chunks.len()) == pool,
{
    let count = spec_chunk_count(pool.len(), threads);
    lemma_joined_prefix(chunks, pool, count, count);
    lemma_chunk_starts(pool.len(), count, 0);
    assert(pool.subrange(0, pool.len() as int) =~= pool);
}

/// A sharding has one chunk for each runtime, and for a pool with fewer
/// accounts than runtimes one chunk for each account. Its chunks are of
/// nearly one length: each is as long as an even cut gives or longer by
/// one, and none is longer than the pool's size divided by the number of
/// chunks, rounded up. No chunk of a pool that is not empty is empty.
pub proof fn lemma_sharding_shape<T>(chunks: Seq<Seq<T>>, pool: Seq<T>, threads: nat)
    requires
        is_sharding(chunks, pool, threads),
    ensures
        chunks.len() == spec_wanted_chunks(pool.len(), threads),
        threads >= 1 ==> chunks.len() <= threads,
        pool.len() >= 1 ==> chunks.len() <= pool.len(),
        threads >= 1 && threads <= pool.len() ==> chunks.len() == threads,
        forall|i: int|
            0 <= i < chunks.len() ==> pool.len() / chunks.len() <= (#[trigger] chunks[i]).len()
                <= pool.len() / chunks.len() + 1,
        forall|i: int|
            0 <= i < chunks.len() ==> (#[trigger] chunks[i]).len() <= spec_chunk_size(
                pool.len(),
                threads,
            ),
        pool.len() >= 1 ==> forall|i: int| 0 <= i < chunks.len() ==> (#[trigger] chunks[i]).len() >= 1,
{
    let n = pool.len();
    let count = spec_chunk_count(n, threads);
    let base = n / count;
    vstd::arithmetic::div_mod::lemma_fundamental_div_mod(n as int, count as int);
    vstd::arithmetic::div_mod::lemma_mod_bound(n as int, count as int);
    if n >= 1 {
        lemma_longest_chunk(n, count);
        assert(base >= 1) by (nonlinear_arith)
            requires
                n == count * base + n % count,
                n % count < count,
                count <= n,
                count > 0,
        ;
    } else {
        assert(base == 0);
        assert(ceil_div(0, count) == 0) by {
            vstd::arithmetic::div_mod::lemma_basic_div((count - 1) as int, count as int);
        }
    }
    assert forall|i: int| 0 <= i < chunks.len() implies {
        &&& base <= (#[trigger] chunks[i]).len() <= base + 1
        &&& chunks[i].len() <= spec_chunk_size(n, threads)
        &&& (n >= 1 ==> chunks[i].len() >= 1)
    } by {
        lemma_chunk_starts(n, count, i as nat);
        assert(chunks[i] == spec_chunk(pool, count, i as nat));
        if i == 0 {
            assert(spec_chunk_start(n, count, 0) == 0);
        } else {
            lemma_chunk_starts(n, count, (i - 1) as nat);
        }
    }
}

/// Cuts a provider's pool of tip accounts into consecutive chunks of
/// nearly one length, one for each runtime that submits to the provider,
/// so that runtimes working side by side pay different accounts. A pool
/// with fewer accounts than runtimes gives one chunk for each account, and
/// an empty pool one empty chunk.
pub fn chunk_accounts(accounts: &[Pubkey], threads: u64) -> (r: Vec<Vec<Pubkey>>)
    ensures
        is_sharding(spec_chunk_views(r@), accounts@, threads as nat),
        r@.len() == spec_chunk_count(accounts@.len(), threads as nat),
        forall|i: int|
            0 <= i < r@.len() ==> (#[trigger] r@[i])@ == spec_chunk(
                accounts@,
                spec_chunk_count(accounts@.len(), threads as nat),
                i as nat,
            ),
{
    let n = accounts.len();
    let mut out: Vec<Vec<Pubkey>> = Vec::new();
    let wanted: usize = if threads < n as u64 {
        if threads == 0 {
            1
        } else {
            threads as usize
        }
    } else if n == 0 {
        1
    } else {
        n
    };
    let base: usize = n / wanted;
    let left_over: usize = n % wanted;
    proof {
        assert(wanted == spec_chunk_count(n as nat, threads as nat));
        lemma_chunk_starts(n as nat, wanted as nat, 0);
    }
    let mut start: usize = 0;
    let mut index: usize = 0;
    while index < wanted
        invariant
            n == accounts@.len(),
            wanted > 0,
            base == n / wanted,
            left_over == n % wanted,
            index <= wanted,
            out@.len() == index,
            start == spec_chunk_start(n as nat, wanted as nat, index as nat),
            start <= n,
            forall|i: int|
                0 <= i < out@.len() ==> (#[trigger] out@[i])@ == spec_chunk(
                    accounts@,
                    wanted as nat,
                    i as nat,
                ),
        decreases wanted - index,
    {
        proof {
            lemma_chunk_starts(n as nat, wanted as nat, index as nat);
        }
        let length: usize = if index < left_over {
            base + 1
        } else {
            base
        };
        let end: usize = start + length;
        let chunk = slice_to_vec(slice_subrange(accounts, start, end));
        out.push(chunk);
        start = end;
        index = index + 1;
    }
    out
}

} // verus!
