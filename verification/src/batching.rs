//! Splitting request keys into batches.
//!
//! Keys are cut into consecutive chunks of at most `batch_size` keys, in
//! order. When a minimum batch size is configured, a chunk smaller than it is
//! sent as single-key batches instead, because small multi-key batches are
//! not routed consistently by the server.

use vstd::prelude::*;
use itertools::Itertools;

verus! {

/// Consecutive chunks of `n` keys each, the last one possibly shorter.
pub open spec fn chunked<T>(keys: Seq<T>, n: nat) -> Seq<Seq<T>>
    decreases keys.len(),
{
    if keys.len() == 0 || n == 0 {
        Seq::empty()
    } else if keys.len() <= n {
        seq![keys]
    } else {
        seq![keys.take(n as int)] + chunked(keys.skip(n as int), n)
    }
}

/// Each key of a chunk in a batch of its own.
pub open spec fn singletons<T>(chunk: Seq<T>) -> Seq<Seq<T>> {
    Seq::new(chunk.len(), |i: int| seq![chunk[i]])
}

/// What one chunk becomes under a minimum batch size.
pub open spec fn piece<T>(chunk: Seq<T>, min_batch_size: Option<usize>) -> Seq<Seq<T>> {
    match min_batch_size {
        Some(m) => if chunk.len() >= m {
            seq![chunk]
        } else {
            singletons(chunk)
        },
        None => seq![chunk],
    }
}

/// The chunks, each replaced by its pieces, in order.
pub open spec fn regroup<T>(chunks: Seq<Seq<T>>, min_batch_size: Option<usize>) -> Seq<Seq<T>>
    decreases chunks.len(),
{
    if chunks.len() == 0 {
        Seq::empty()
    } else {
        regroup(chunks.drop_last(), min_batch_size) + piece(chunks.last(), min_batch_size)
    }
}

/// The batches that `split_into_batches` makes of `keys`.
pub open spec fn batches_of<T>(keys: Seq<T>, batch_size: Option<usize>, min_batch_size: Option<usize>) -> Seq<Seq<T>> {
    match batch_size {
        Some(n) => regroup(chunked(keys, n as nat), min_batch_size),
        None => seq![keys],
    }
}

/// The contents of a vector of vectors.
pub open spec fn nested_view<T>(v: Seq<Vec<T>>) -> Seq<Seq<T>> {
    v.map_values(|b: Vec<T>| b@)
}

/// The concatenation of all batches, in order.
pub open spec fn flatten<T>(batches: Seq<Seq<T>>) -> Seq<T>
    decreases batches.len(),
{
    if batches.len() == 0 {
        Seq::empty()
    } else {
        flatten(batches.drop_last()) + batches.last()
    }
}

/// Calls `Itertools::chunks(size)` on the keys and collects every chunk into
/// a vector. As its documentation says, the chunks are consecutive runs of
/// `size` elements in order, the last one shorter when elements run out; it
/// panics when `size` is 0, which `requires` leaves out.
#[verifier::external_body]
fn chunk_keys<T>(keys: Vec<T>, size: usize) -> (res: Vec<Vec<T>>)
    requires
        size > 0,
    ensures
        nested_view(res@) == chunked(keys@, size as nat),
{
    keys.into_iter().chunks(size).into_iter().map(|chunk| chunk.collect::<Vec<T>>()).collect()
}

/// Splits up a collection of keys into batches of at most `batch_size`
/// keys; with `min_batch_size`, chunks smaller than it become one batch
/// per key. Without a batch size all keys form one batch.
pub fn split_into_batches<T>(keys: Vec<T>, batch_size: Option<usize>, min_batch_size: Option<usize>) -> (res: Vec<Vec<T>>)
    requires
        batch_size != Some(0usize),
    ensures
        nested_view(res@) == batches_of(keys@, batch_size, min_batch_size),
{
    match batch_size {
        Some(n) => {
            let chunks = chunk_keys(keys, n);
            let ghost all = nested_view(chunks@);
            let mut chunks_vec: Vec<Vec<T>> = Vec::new();
            for chunk in iter: chunks.into_iter()
                invariant
                    iter.seq() == chunks@,
                    all == nested_view(chunks@),
                    nested_view(chunks_vec@) == regroup(all.take(iter.index()), min_batch_size),
            {
                let ghost c = chunk@;
                let ghost before = chunks_vec@;
                assert(c == all[iter.index() as int]);
                match min_batch_size {
                    Some(m) => {
                        if chunk.len() >= m {
                            chunks_vec.push(chunk);
                        } else {
                            for key in kit: chunk.into_iter()
                                invariant
                                    kit.seq() == c,
                                    chunks_vec@.len() == before.len() + kit.index(),
                                    forall|j: int| 0 <= j < before.len() ==> #[trigger] chunks_vec@[j] == before[j],
                                    forall|j: int| 0 <= j < kit.index() ==> #[trigger] chunks_vec@[before.len() + j]@ == seq![c[j]],
                            {
                                let mut single: Vec<T> = Vec::new();
                                single.push(key);
                                chunks_vec.push(single);
                            }
                            assert(chunks_vec@.len() == before.len() + c.len());
                            assert forall|j: int| 0 <= j < chunks_vec@.len() implies #[trigger] nested_view(chunks_vec@)[j] == (nested_view(before) + singletons(c))[j] by {
                                if j >= before.len() {
                                    assert(chunks_vec@[before.len() + (j - before.len())]@ == seq![c[j - before.len()]]);
                                }
                            }
                            assert(nested_view(chunks_vec@) =~= nested_view(before) + singletons(c));
                        }
                    },
                    None => {
                        chunks_vec.push(chunk);
                    },
                }
                assert(all.take(iter.index() + 1).drop_last() =~= all.take(iter.index() as int));
                assert(nested_view(chunks_vec@) =~= nested_view(before) + piece(c, min_batch_size));
            }
            assert(all.take(all.len() as int) =~= all);
            chunks_vec
        },
        None => {
            let mut one: Vec<Vec<T>> = Vec::new();
            one.push(keys);
            assert(nested_view(one@) =~= seq![keys@]);
            one
        },
    }
}

proof fn lemma_flatten_concat<T>(a: Seq<Seq<T>>, b: Seq<Seq<T>>)
    ensures
        flatten(a + b) == flatten(a) + flatten(b),
    decreases b.len(),
{
    if b.len() == 0 {
        assert(a + b =~= a);
    } else {
        assert((a + b).drop_last() =~= a + b.drop_last());
        lemma_flatten_concat(a, b.drop_last());
        assert(flatten(a) + flatten(b) =~= flatten(a) + flatten(b.drop_last()) + b.last());
    }
}

proof fn lemma_flatten_singleton<T>(a: Seq<T>)
    ensures
        flatten(seq![a]) == a,
{
    reveal_with_fuel(flatten, 2);
    assert(seq![a].drop_last() =~= Seq::<Seq<T>>::empty());
    assert(seq![a].last() == a);
    assert(Seq::<T>::empty() + a =~= a);
}

proof fn lemma_flatten_chunked<T>(keys: Seq<T>, n: nat)
    requires
        n > 0,
    ensures
        flatten(chunked(keys, n)) == keys,
    decreases keys.len(),
{
    if keys.len() == 0 {
        assert(flatten(Seq::<Seq<T>>::empty()) =~= keys);
    } else if keys.len() <= n {
        lemma_flatten_singleton(keys);
    } else {
        lemma_flatten_chunked(keys.skip(n as int), n);
        lemma_flatten_concat(seq![keys.take(n as int)], chunked(keys.skip(n as int), n));
        lemma_flatten_singleton(keys.take(n as int));
        assert(keys.take(n as int) + keys.skip(n as int) =~= keys);
    }
}

proof fn lemma_flatten_singletons<T>(c: Seq<T>)
    ensures
        flatten(singletons(c)) == c,
    decreases c.len(),
{
    if c.len() == 0 {
        assert(flatten(singletons(c)) =~= c);
    } else {
        assert(singletons(c).drop_last() =~= singletons(c.drop_last()));
        lemma_flatten_singletons(c.drop_last());
        assert(c.drop_last() + seq![c.last()] =~= c);
    }
}

proof fn lemma_flatten_regroup<T>(chunks: Seq<Seq<T>>, min_batch_size: Option<usize>)
    ensures
        flatten(regroup(chunks, min_batch_size)) == flatten(chunks),
    decreases chunks.len(),
{
    if chunks.len() > 0 {
        lemma_flatten_regroup(chunks.drop_last(), min_batch_size);
        lemma_flatten_concat(regroup(chunks.drop_last(), min_batch_size), piece(chunks.last(), min_batch_size));
        lemma_flatten_singleton(chunks.last());
        lemma_flatten_singletons(chunks.last());
    }
}

/// Batching neither loses, repeats nor reorders keys: the batches, put back
/// together in order, are exactly the keys that went in.
pub proof fn lemma_batches_preserve_keys<T>(keys: Seq<T>, batch_size: Option<usize>, min_batch_size: Option<usize>)
    requires
        batch_size != Some(0usize),
    ensures
        flatten(batches_of(keys, batch_size, min_batch_size)) == keys,
{
    match batch_size {
        Some(n) => {
            lemma_flatten_regroup(chunked(keys, n as nat), min_batch_size);
            lemma_flatten_chunked(keys, n as nat);
        },
        None => {
            lemma_flatten_singleton(keys);
        },
    }
}

proof fn lemma_chunked_sizes<T>(keys: Seq<T>, n: nat)
    requires
        n > 0,
    ensures
        forall|i: int| 0 <= i < chunked(keys, n).len() ==> 0 < #[trigger] chunked(keys, n)[i].len() <= n,
        forall|i: int| 0 <= i < chunked(keys, n).len() - 1 ==> #[trigger] chunked(keys, n)[i].len() == n,
    decreases keys.len(),
{
    if keys.len() > n {
        lemma_chunked_sizes(keys.skip(n as int), n);
        let rest = chunked(keys.skip(n as int), n);
        assert forall|i: int| 0 <= i < chunked(keys, n).len() implies 0 < #[trigger] chunked(keys, n)[i].len() <= n by {
            if i > 0 {
                assert(chunked(keys, n)[i] == rest[i - 1]);
            }
        }
        assert forall|i: int| 0 <= i < chunked(keys, n).len() - 1 implies #[trigger] chunked(keys, n)[i].len() == n by {
            if i > 0 {
                assert(chunked(keys, n)[i] == rest[i - 1]);
            }
        }
    }
}

/// The property that every batch of `batches` has between one and `n`
/// keys and, under a minimum batch size `m`, at least `m` keys unless it
/// holds a single key.
pub open spec fn batches_well_sized<T>(batches: Seq<Seq<T>>, n: nat, min_batch_size: Option<usize>) -> bool {
    forall|i: int| 0 <= i < batches.len() ==> {
        &&& 0 < #[trigger] batches[i].len() <= n
        &&& (min_batch_size matches Some(m) ==> batches[i].len() >= m || batches[i].len() == 1)
    }
}

proof fn lemma_regroup_sizes<T>(chunks: Seq<Seq<T>>, n: nat, min_batch_size: Option<usize>)
    requires
        forall|i: int| 0 <= i < chunks.len() ==> 0 < #[trigger] chunks[i].len() <= n,
    ensures
        batches_well_sized(regroup(chunks, min_batch_size), n, min_batch_size),
    decreases chunks.len(),
{
    if chunks.len() > 0 {
        lemma_regroup_sizes(chunks.drop_last(), n, min_batch_size);
        let left = regroup(chunks.drop_last(), min_batch_size);
        let right = piece(chunks.last(), min_batch_size);
        let all = regroup(chunks, min_batch_size);
        assert(chunks.last() == chunks[chunks.len() - 1]);
        assert forall|i: int| 0 <= i < all.len() implies {
            &&& 0 < #[trigger] all[i].len() <= n
            &&& (min_batch_size matches Some(m) ==> all[i].len() >= m || all[i].len() == 1)
        } by {
            if i < left.len() {
                assert(all[i] == left[i]);
            } else {
                assert(all[i] == right[i - left.len()]);
            }
        }
    }
}

/// Every batch that a batch size `n` makes holds between one and `n` keys;
/// with a minimum batch size `m`, a batch holds at least `m` keys or exactly
/// one; and without a minimum, all batches but the last hold exactly `n`.
pub proof fn lemma_batch_sizes<T>(keys: Seq<T>, n: usize, min_batch_size: Option<usize>)
    requires
        n > 0,
    ensures
        batches_well_sized(batches_of(keys, Some(n), min_batch_size), n as nat, min_batch_size),
        min_batch_size is None ==> forall|i: int| 0 <= i < batches_of(keys, Some(n), min_batch_size).len() - 1
            ==> #[trigger] batches_of(keys, Some(n), min_batch_size)[i].len() == n,
{
    lemma_chunked_sizes(keys, n as nat);
    lemma_regroup_sizes(chunked(keys, n as nat), n as nat, min_batch_size);
    if min_batch_size is None {
        lemma_regroup_none(chunked(keys, n as nat));
    }
}

proof fn lemma_regroup_none<T>(chunks: Seq<Seq<T>>)
    ensures
        regroup(chunks, None) == chunks,
    decreases chunks.len(),
{
    if chunks.len() > 0 {
        lemma_regroup_none(chunks.drop_last());
        assert(chunks.drop_last() + seq![chunks.last()] =~= chunks);
    }
}

} // verus!
