//! Batching primitives of the upsert pipeline: per-cycle deduplication by
//! photo id (the last occurrence of an id wins) and partition of the
//! deduplicated set into fixed-size batches.

use vstd::prelude::*;

use crate::types::{Photo, PhotoView};

verus! {

/// Whether some photo in `s` has the id `id`.
pub open spec fn spec_has_id(s: Seq<PhotoView>, id: Seq<char>) -> bool {
    exists|i: int| 0 <= i < s.len() && s[i].id == id
}

/// Deduplication by id, last occurrence wins: a photo is kept exactly when
/// no later photo has the same id, and the kept photos stay in order.
pub open spec fn spec_dedup(s: Seq<PhotoView>) -> Seq<PhotoView>
    decreases s.len(),
{
    if s.len() == 0 {
        Seq::empty()
    } else if spec_has_id(s.drop_first(), s.first().id) {
        spec_dedup(s.drop_first())
    } else {
        seq![s.first()] + spec_dedup(s.drop_first())
    }
}

/// Unfolds `spec_has_id` one element at a time.
pub proof fn lemma_has_id_unfold(s: Seq<PhotoView>, id: Seq<char>)
    requires
        s.len() > 0,
    ensures
        spec_has_id(s, id) <==> (s[0].id == id || spec_has_id(s.drop_first(), id)),
{
    if spec_has_id(s, id) {
        let i = choose|i: int| 0 <= i < s.len() && s[i].id == id;
        if i > 0 {
            assert(s.drop_first()[i - 1].id == id);
        }
    }
    if spec_has_id(s.drop_first(), id) {
        let j = choose|j: int| 0 <= j < s.drop_first().len() && s.drop_first()[j].id == id;
        assert(s[j + 1].id == id);
    }
    if s[0].id == id {
        assert(0 <= 0 < s.len() && s[0].id == id);
    }
}

/// Deduplication keeps exactly the ids of the input and leaves each id on
/// one photo only.
pub proof fn lemma_dedup_ids(s: Seq<PhotoView>)
    ensures
        forall|id: Seq<char>| spec_has_id(spec_dedup(s), id) <==> spec_has_id(s, id),
        forall|i: int, j: int| 0 <= i < j < spec_dedup(s).len()
            ==> spec_dedup(s)[i].id != spec_dedup(s)[j].id,
    decreases s.len(),
{
    if s.len() == 0 {
    } else {
        lemma_dedup_ids(s.drop_first());
        let rest = spec_dedup(s.drop_first());
        assert forall|id: Seq<char>| spec_has_id(spec_dedup(s), id) <==> spec_has_id(
            s,
            id,
        ) by {
            lemma_has_id_unfold(s, id);
            if spec_has_id(s.drop_first(), s.first().id) {
                assert(spec_dedup(s) == rest);
                if s[0].id == id {
                    assert(spec_has_id(s.drop_first(), id));
                }
            } else {
                let whole = seq![s.first()] + rest;
                assert(spec_dedup(s) == whole);
                if spec_has_id(rest, id) {
                    let k = choose|k: int| 0 <= k < rest.len() && rest[k].id == id;
                    assert(whole[k + 1].id == id);
                    assert(spec_has_id(whole, id));
                }
                if s[0].id == id {
                    assert(whole[0].id == id);
                    assert(spec_has_id(whole, id));
                }
                if spec_has_id(whole, id) {
                    let i = choose|i: int| 0 <= i < whole.len() && whole[i].id == id;
                    if i > 0 {
                        assert(rest[i - 1].id == id);
                        assert(spec_has_id(rest, id));
                    }
                }
            }
        }
        if !spec_has_id(s.drop_first(), s.first().id) {
            let whole = seq![s.first()] + rest;
            assert forall|i: int, j: int| 0 <= i < j < whole.len() implies whole[i].id
                != whole[j].id by {
                if i == 0 {
                    assert(rest[j - 1].id == whole[j].id);
                    assert(spec_has_id(rest, whole[j].id));
                } else {
                    assert(rest[i - 1].id == whole[i].id);
                    assert(rest[j - 1].id == whole[j].id);
                }
            }
        }
    }
}

/// Whether any photo in `photos` carries the id `id`.
fn contains_id(photos: &Vec<Photo>, id: &String) -> (r: bool)
    ensures
        r == spec_has_id(photos@.map_values(|p: Photo| p@), id@),
{
    let ghost views = photos@.map_values(|p: Photo| p@);
    let mut i: usize = 0;
    while i < photos.len()
        invariant
            i <= photos@.len(),
            views == photos@.map_values(|p: Photo| p@),
            forall|j: int| 0 <= j < i ==> views[j].id != id@,
        decreases photos@.len() - i,
    {
        if photos[i].id.eq(id) {
            assert(views[i as int].id == id@);
            return true;
        }
        i += 1;
    }
    false
}

/// Deduplicates a cycle's accumulated photos by id; the last occurrence of
/// each id wins, and the kept photos stay in their relative order.
pub fn dedup_last_wins(photos: Vec<Photo>) -> (r: Vec<Photo>)
    ensures
        r@.map_values(|p: Photo| p@) == spec_dedup(photos@.map_values(|p: Photo| p@)),
    decreases photos@.len(),
{
    let ghost views = photos@.map_values(|p: Photo| p@);
    let mut photos = photos;
    if photos.len() == 0 {
        let r: Vec<Photo> = Vec::new();
        proof {
            assert(r@.map_values(|p: Photo| p@) =~= spec_dedup(views));
        }
        r
    } else {
        let first = photos.remove(0);
        proof {
            assert(photos@.map_values(|p: Photo| p@) =~= views.drop_first());
        }
        let later = contains_id(&photos, &first.id);
        let mut rest = dedup_last_wins(photos);
        if later {
            rest
        } else {
            rest.insert(0, first);
            proof {
                assert(rest@.map_values(|p: Photo| p@) =~= spec_dedup(views));
            }
            rest
        }
    }
}

/// Partition into batches of `b` items: full batches of exactly `b`, in
/// order, with the remainder as the final batch.
pub open spec fn spec_batches<T>(s: Seq<T>, b: int) -> Seq<Seq<T>>
    decreases s.len(),
{
    if b <= 0 || s.len() == 0 {
        Seq::empty()
    } else if s.len() <= b {
        seq![s]
    } else {
        seq![s.take(b)] + spec_batches(s.skip(b), b)
    }
}

/// Law: partitioning N items at batch size B yields exactly ceil(N / B)
/// batches; concatenating them restores the input, so every item is covered
/// exactly once; every batch is non-empty and at most B long; and every
/// batch but the last is exactly B long.
pub proof fn lemma_batch_partition<T>(s: Seq<T>, b: int)
    requires
        b > 0,
    ensures
        spec_batches(s, b).len() == (s.len() + b - 1) / b,
        spec_batches(s, b).flatten() == s,
        forall|i: int| 0 <= i < spec_batches(s, b).len()
            ==> 0 < #[trigger] spec_batches(s, b)[i].len() <= b,
        forall|i: int| 0 <= i < spec_batches(s, b).len() - 1
            ==> #[trigger] spec_batches(s, b)[i].len() == b,
    decreases s.len(),
{
    let batches = spec_batches(s, b);
    let n = s.len() as int;
    if s.len() == 0 {
        assert(batches.flatten() =~= s);
        vstd::arithmetic::div_mod::lemma_fundamental_div_mod_converse(b - 1, b, 0, b - 1);
    } else if s.len() <= b {
        assert(batches.len() == 1);
        vstd::arithmetic::div_mod::lemma_fundamental_div_mod_converse(n + b - 1, b, 1, n - 1);
        batches.lemma_flatten_one_element();
    } else {
        lemma_batch_partition(s.skip(b), b);
        let rest = spec_batches(s.skip(b), b);
        assert(batches.drop_first() =~= rest);
        assert(batches.flatten() == batches.first() + batches.drop_first().flatten());
        assert(batches.flatten() =~= s);
        assert(s.skip(b).len() == n - b);
        let q = (n - 1) / b;
        let r = (n - 1) % b;
        vstd::arithmetic::div_mod::lemma_fundamental_div_mod(n - 1, b);
        vstd::arithmetic::div_mod::lemma_mod_bound(n - 1, b);
        assert(n - 1 == q * b + r) by (nonlinear_arith)
            requires n - 1 == b * ((n - 1) / b) + ((n - 1) % b) && q == (n - 1) / b && r == (n - 1) % b;
        assert(n + b - 1 == (q + 1) * b + r) by (nonlinear_arith)
            requires n - 1 == q * b + r;
        vstd::arithmetic::div_mod::lemma_fundamental_div_mod_converse(n + b - 1, b, q + 1, r);
        vstd::arithmetic::div_mod::lemma_fundamental_div_mod_converse(n - b + b - 1, b, q, r);
        assert(batches.len() == 1 + (n - b + b - 1) / b);
    }
}

/// Partitioning commutes with an elementwise map: mapping the items and then
/// batching equals batching and then mapping inside each batch.
pub proof fn lemma_batches_map<T, U>(s: Seq<T>, b: int, f: spec_fn(T) -> U)
    ensures
        spec_batches(s.map_values(f), b) == spec_batches(s, b).map_values(
            |batch: Seq<T>| batch.map_values(f),
        ),
    decreases s.len(),
{
    let mapped = s.map_values(f);
    if b <= 0 || s.len() == 0 {
        assert(spec_batches(mapped, b) =~= spec_batches(s, b).map_values(
            |batch: Seq<T>| batch.map_values(f),
        ));
    } else if s.len() <= b {
        assert(spec_batches(mapped, b) =~= spec_batches(s, b).map_values(
            |batch: Seq<T>| batch.map_values(f),
        ));
    } else {
        lemma_batches_map(s.skip(b), b, f);
        assert(mapped.take(b) =~= s.take(b).map_values(f));
        assert(mapped.skip(b) =~= s.skip(b).map_values(f));
        assert(spec_batches(mapped, b) =~= spec_batches(s, b).map_values(
            |batch: Seq<T>| batch.map_values(f),
        ));
    }
}

/// Law: batch partition completeness over one cycle. Deduplicating N
/// accumulated photos and partitioning at batch size B yields exactly
/// ceil(deduplicated count / B) batches whose concatenation is the
/// deduplicated sequence — every photo id enqueued in the cycle is covered,
/// on exactly one photo.
pub proof fn lemma_cycle_partition_complete(s: Seq<PhotoView>, b: int)
    requires
        b > 0,
    ensures
        spec_batches(spec_dedup(s), b).len() == (spec_dedup(s).len() + b - 1) / b,
        spec_batches(spec_dedup(s), b).flatten() == spec_dedup(s),
        forall|id: Seq<char>| spec_has_id(spec_dedup(s), id) <==> spec_has_id(s, id),
        forall|i: int, j: int| 0 <= i < j < spec_dedup(s).len()
            ==> spec_dedup(s)[i].id != spec_dedup(s)[j].id,
{
    lemma_dedup_ids(s);
    lemma_batch_partition(spec_dedup(s), b);
}

/// Splits items into consecutive batches of at most `batch_size`, in order.
#[verifier::loop_isolation(false)]
pub fn split_batches<T>(items: Vec<T>, batch_size: usize) -> (r: Vec<Vec<T>>)
    requires
        batch_size > 0,
    ensures
        r@.map_values(|v: Vec<T>| v@) == spec_batches(items@, batch_size as int),
{
    let ghost all = items@;
    let ghost bi = batch_size as int;
    let mut rest = items;
    let mut out: Vec<Vec<T>> = Vec::new();
    while rest.len() > 0
        invariant
            batch_size > 0,
            spec_batches(all, bi) == out@.map_values(|v: Vec<T>| v@) + spec_batches(rest@, bi),
        decreases rest@.len(),
    {
        let ghost pending = rest@;
        let mut chunk: Vec<T> = Vec::new();
        let take: usize = if rest.len() < batch_size {
            rest.len()
        } else {
            batch_size
        };
        proof {
            assert(pending.skip(0) =~= pending);
            assert(pending.take(0) =~= Seq::<T>::empty());
        }
        let mut k: usize = 0;
        while k < take
            invariant
                k <= take,
                take <= pending.len(),
                rest@ == pending.skip(k as int),
                chunk@ == pending.take(k as int),
            decreases take - k,
        {
            let x = rest.remove(0);
            proof {
                assert(pending.skip(k as int).remove(0) =~= pending.skip(k as int + 1));
                assert(pending.take(k as int).push(pending.skip(k as int)[0]) =~= pending.take(
                    k as int + 1,
                ));
            }
            chunk.push(x);
            k += 1;
        }
        let ghost old_out = out@.map_values(|v: Vec<T>| v@);
        out.push(chunk);
        proof {
            assert(out@.map_values(|v: Vec<T>| v@) =~= old_out.push(chunk@));
            if pending.len() <= bi {
                assert(pending.take(take as int) =~= pending);
                assert(rest@.len() == 0);
                assert(spec_batches(rest@, bi) =~= Seq::<Seq<T>>::empty());
                assert(out@.map_values(|v: Vec<T>| v@) + spec_batches(rest@, bi) =~= old_out
                    + spec_batches(pending, bi));
            } else {
                assert(chunk@ == pending.take(bi));
                assert(rest@ == pending.skip(bi));
                assert(out@.map_values(|v: Vec<T>| v@) + spec_batches(rest@, bi) =~= old_out
                    + spec_batches(pending, bi));
            }
        }
    }
    proof {
        assert(out@.map_values(|v: Vec<T>| v@) =~= spec_batches(all, bi));
    }
    out
}

} // verus!
