use vstd::prelude::*;

use crate::ids::IdTupleGenerated;

verus! {

/// The most mails that one request to the remote service may name; a larger
/// request is answered with "Bad Request".
pub const MAX_MAIL_UPDATE_LIMIT: usize = 50;

/// `s` with every element removed that equals the element right before it in `s`.
/// Equal elements that are not next to each other all stay.
pub open spec fn dedup_adjacent<T>(s: Seq<T>) -> Seq<T>
    decreases s.len(),
{
    if s.len() <= 1 {
        s
    } else {
        let kept = dedup_adjacent(s.drop_last());
        if s.last() == s[s.len() - 2] {
            kept
        } else {
            kept.push(s.last())
        }
    }
}

/// `s` cut, in order, into contiguous pieces of `n` elements, the last piece
/// holding what remains.
pub open spec fn chunked<T>(s: Seq<T>, n: nat) -> Seq<Seq<T>>
    decreases s.len(),
{
    if s.len() == 0 || n == 0 {
        Seq::empty()
    } else if s.len() <= n {
        seq![s]
    } else {
        seq![s.take(n as int)] + chunked(s.skip(n as int), n)
    }
}

/// The number of pieces of at most `n` elements that `len` elements need.
pub open spec fn chunk_count(len: nat, n: nat) -> nat
    recommends
        n > 0,
{
    ((len + n - 1) / n as int) as nat
}

/// True when no element of `s` equals the element right before it.
pub open spec fn no_adjacent_repeats<T>(s: Seq<T>) -> bool {
    forall|i: int| 0 < i < s.len() ==> #[trigger] s[i] != s[i - 1]
}

/// The mail keys of each request that one bulk update of `mails` sends, in order.
pub open spec fn update_batches(mails: Seq<IdTupleGenerated>) -> Seq<Seq<IdTupleGenerated>> {
    chunked(dedup_adjacent(mails), MAX_MAIL_UPDATE_LIMIT as nat)
}

pub proof fn lemma_dedup_last<T>(s: Seq<T>)
    requires
        s.len() > 0,
    ensures
        dedup_adjacent(s).len() > 0,
        dedup_adjacent(s).last() == s.last(),
        dedup_adjacent(s).len() <= s.len(),
    decreases s.len(),
{
    if s.len() > 1 {
        lemma_dedup_last(s.drop_last());
    }
}

/// Deduplicating a prefix of `s` gives a prefix of deduplicating `s`.
pub proof fn lemma_dedup_prefix<T>(s: Seq<T>, m: int)
    requires
        0 <= m <= s.len(),
    ensures
        dedup_adjacent(s.take(m)).is_prefix_of(dedup_adjacent(s)),
    decreases s.len(),
{
    if m == s.len() {
        assert(s.take(m) =~= s);
    } else {
        assert(s.take(m) =~= s.drop_last().take(m));
        lemma_dedup_prefix(s.drop_last(), m);
        if s.len() > 1 {
            assert(dedup_adjacent(s.drop_last()).is_prefix_of(dedup_adjacent(s)));
        }
    }
}

/// A sequence in which no element repeats its predecessor is left as it is.
pub proof fn lemma_dedup_keeps_unrepeated<T>(s: Seq<T>)
    requires
        no_adjacent_repeats(s),
    ensures
        dedup_adjacent(s) == s,
    decreases s.len(),
{
    if s.len() > 1 {
        let p = s.drop_last();
        assert(no_adjacent_repeats(p)) by {
            assert forall|i: int| 0 < i < p.len() implies #[trigger] p[i] != p[i - 1] by {
                assert(s[i] != s[i - 1]);
            }
        }
        lemma_dedup_keeps_unrepeated(p);
        assert(s.last() != s[s.len() - 2]) by {
            assert(s[s.len() - 1] != s[s.len() - 1 - 1]);
        }
        assert(p.push(s.last()) =~= s);
    }
}

/// A nonempty sequence of one repeated value collapses to that value alone.
pub proof fn lemma_dedup_constant<T>(s: Seq<T>)
    requires
        s.len() > 0,
        forall|i: int| 0 <= i < s.len() ==> #[trigger] s[i] == s[0],
    ensures
        dedup_adjacent(s) == seq![s[0]],
    decreases s.len(),
{
    if s.len() == 1 {
        assert(s =~= seq![s[0]]);
    } else {
        let p = s.drop_last();
        assert forall|i: int| 0 <= i < p.len() implies #[trigger] p[i] == p[0] by {
            assert(s[i] == s[0]);
        }
        lemma_dedup_constant(p);
        assert(s[s.len() - 1] == s[0]);
        assert(s[s.len() - 2] == s[0]);
    }
}

/// Cutting into pieces loses, adds and reorders nothing, and every piece holds
/// between one and `n` elements.
pub proof fn lemma_chunked_parts<T>(s: Seq<T>, n: nat)
    requires
        n > 0,
    ensures
        chunked(s, n).flatten() == s,
        chunked(s, n).len() == chunk_count(s.len(), n),
        forall|k: int|
            0 <= k < chunked(s, n).len() ==> 0 < #[trigger] chunked(s, n)[k].len() <= n,
    decreases s.len(),
{
    let c = chunked(s, n);
    if s.len() == 0 {
        assert(c.flatten() =~= s);
        assert((n - 1) / n as int == 0) by (nonlinear_arith)
            requires
                n > 0,
        ;
    } else if s.len() <= n {
        assert(c.drop_first() =~= Seq::<Seq<T>>::empty());
        assert(c.drop_first().flatten() =~= Seq::<T>::empty());
        assert(c.flatten() =~= s);
        let len = s.len();
        assert((len + n - 1) / n as int == 1) by (nonlinear_arith)
            requires
                n > 0,
                0 < len <= n,
        ;
    } else {
        let rest = s.skip(n as int);
        lemma_chunked_parts(rest, n);
        assert(c.drop_first() =~= chunked(rest, n));
        assert(s.take(n as int) + rest =~= s);
        let len = s.len();
        assert((len + n - 1) / n as int == 1 + (len - n + n - 1) / n as int) by (nonlinear_arith)
            requires
                n > 0,
                len > n,
        ;
        assert forall|k: int| 0 <= k < c.len() implies 0 < #[trigger] c[k].len() <= n by {
            if k > 0 {
                assert(c[k] == chunked(rest, n)[k - 1]);
            }
        }
    }
}

/// Keys without duplicates are sent in `ceil(len / MAX_MAIL_UPDATE_LIMIT)` requests of
/// at most `MAX_MAIL_UPDATE_LIMIT` keys each, whose keys, joined in order, are the input.
pub proof fn lemma_distinct_mails_split(mails: Seq<IdTupleGenerated>)
    requires
        mails.no_duplicates(),
    ensures
        update_batches(mails).len() == chunk_count(mails.len(), MAX_MAIL_UPDATE_LIMIT as nat),
        forall|k: int|
            0 <= k < update_batches(mails).len() ==> 0 < #[trigger] update_batches(mails)[k].len()
                <= MAX_MAIL_UPDATE_LIMIT,
        update_batches(mails).flatten() == mails,
{
    assert(no_adjacent_repeats(mails)) by {
        assert forall|i: int| 0 < i < mails.len() implies #[trigger] mails[i] != mails[i - 1] by {
            assert(i != i - 1);
        }
    }
    lemma_dedup_keeps_unrepeated(mails);
    lemma_chunked_parts(mails, MAX_MAIL_UPDATE_LIMIT as nat);
}

/// One key repeated any number of times in a row is sent in a single request that
/// names it once.
pub proof fn lemma_repeated_mail_single_batch(mails: Seq<IdTupleGenerated>)
    requires
        mails.len() > 0,
        forall|i: int| 0 <= i < mails.len() ==> #[trigger] mails[i] == mails[0],
    ensures
        update_batches(mails) == seq![seq![mails[0]]],
{
    lemma_dedup_constant(mails);
}

/// A key that occurs twice with a different key between the two occurrences is sent
/// twice: the requests, joined in order, hold it at two positions.
pub proof fn lemma_separated_repeats_kept(mails: Seq<IdTupleGenerated>, i: int, k: int, j: int)
    requires
        0 <= i < k < j < mails.len(),
        mails[i] == mails[j],
        mails[k] != mails[i],
    ensures
        exists|p: int, q: int|
            0 <= p < q < update_batches(mails).flatten().len() && #[trigger] update_batches(
                mails,
            ).flatten()[p] == mails[i] && #[trigger] update_batches(mails).flatten()[q] == mails[i],
{
    let d = dedup_adjacent(mails);
    lemma_chunked_parts(d, MAX_MAIL_UPDATE_LIMIT as nat);
    let ti = mails.take(i + 1);
    let tk = mails.take(k + 1);
    let tj = mails.take(j + 1);
    lemma_dedup_prefix(mails, i + 1);
    lemma_dedup_prefix(mails, j + 1);
    assert(tk.take(i + 1) =~= ti);
    lemma_dedup_prefix(tk, i + 1);
    assert(tj.take(k + 1) =~= tk);
    lemma_dedup_prefix(tj, k + 1);
    lemma_dedup_last(ti);
    lemma_dedup_last(tk);
    lemma_dedup_last(tj);
    let di = dedup_adjacent(ti);
    let dk = dedup_adjacent(tk);
    let dj = dedup_adjacent(tj);
    assert(di.len() < dk.len()) by {
        if di.len() == dk.len() {
            assert(di =~= dk);
            assert(di.last() == mails[i]);
            assert(dk.last() == mails[k]);
        }
    }
    let p = di.len() - 1;
    let q = dj.len() - 1;
    assert(d[p] == di[p]);
    assert(d[q] == dj[q]);
    assert(update_batches(mails).flatten()[p] == mails[i]);
    assert(update_batches(mails).flatten()[q] == mails[i]);
}

/// Removes, in one pass from the left, every key that equals the key right before it.
pub fn dedup_mails(mails: &Vec<IdTupleGenerated>) -> (r: Vec<IdTupleGenerated>)
    ensures
        r@ == dedup_adjacent(mails@),
{
    let mut r: Vec<IdTupleGenerated> = Vec::new();
    let mut i: usize = 0;
    while i < mails.len()
        invariant
            i <= mails.len(),
            r@ == dedup_adjacent(mails@.take(i as int)),
        decreases mails.len() - i,
    {
        let ghost next = mails@.take(i + 1);
        proof {
            assert(next.drop_last() =~= mails@.take(i as int));
            assert(next.last() == mails@[i as int]);
        }
        if i == 0 {
            r.push(mails[i]);
            proof {
                assert(next =~= seq![mails@[0]]);
                assert(r@ =~= next);
            }
        } else if mails[i] != mails[i - 1] {
            r.push(mails[i]);
            proof {
                assert(next[next.len() - 2] == mails@[i - 1]);
            }
        } else {
            proof {
                assert(next[next.len() - 2] == mails@[i - 1]);
            }
        }
        i = i + 1;
    }
    proof {
        assert(mails@.take(mails.len() as int) =~= mails@);
    }
    r
}

/// Copies `mails[start..end]` into a new vector.
fn copy_range(mails: &Vec<IdTupleGenerated>, start: usize, end: usize) -> (r: Vec<IdTupleGenerated>)
    requires
        start <= end <= mails.len(),
    ensures
        r@ == mails@.subrange(start as int, end as int),
{
    let mut r: Vec<IdTupleGenerated> = Vec::new();
    let mut i: usize = start;
    while i < end
        invariant
            start <= i <= end <= mails.len(),
            r@ == mails@.subrange(start as int, i as int),
        decreases end - i,
    {
        r.push(mails[i]);
        proof {
            assert(r@ =~= mails@.subrange(start as int, i + 1));
        }
        i = i + 1;
    }
    r
}

/// The contiguous pieces of `limit` keys, in order, that `mails` is cut into; the
/// last piece holds what remains.
pub fn split_into_batches(mails: &Vec<IdTupleGenerated>, limit: usize) -> (r: Vec<
    Vec<IdTupleGenerated>,
>)
    requires
        limit > 0,
    ensures
        r@.map_values(|v: Vec<IdTupleGenerated>| v@) == chunked(mails@, limit as nat),
{
    let mut r: Vec<Vec<IdTupleGenerated>> = Vec::new();
    let mut start: usize = 0;
    proof {
        assert(mails@.skip(0) =~= mails@);
        assert(r@.map_values(|v: Vec<IdTupleGenerated>| v@) =~= Seq::<Seq<IdTupleGenerated>>::empty());
        assert(Seq::<Seq<IdTupleGenerated>>::empty() + chunked(mails@, limit as nat) =~= chunked(
            mails@,
            limit as nat,
        ));
    }
    while start < mails.len()
        invariant
            start <= mails.len(),
            limit > 0,
            r@.map_values(|v: Vec<IdTupleGenerated>| v@) + chunked(
                mails@.skip(start as int),
                limit as nat,
            ) == chunked(mails@, limit as nat),
        decreases mails.len() - start,
    {
        let end: usize = if mails.len() - start > limit {
            start + limit
        } else {
            mails.len()
        };
        let piece = copy_range(mails, start, end);
        let ghost before = r@.map_values(|v: Vec<IdTupleGenerated>| v@);
        let ghost rest = mails@.skip(start as int);
        proof {
            if rest.len() <= limit {
                assert(piece@ =~= rest);
                assert(mails@.skip(end as int) =~= Seq::<IdTupleGenerated>::empty());
                assert(chunked(rest, limit as nat) == seq![piece@]);
            } else {
                assert(piece@ =~= rest.take(limit as int));
                assert(mails@.skip(end as int) =~= rest.skip(limit as int));
            }
            assert(chunked(rest, limit as nat) =~= seq![piece@] + chunked(
                mails@.skip(end as int),
                limit as nat,
            ));
        }
        r.push(piece);
        proof {
            assert(r@.map_values(|v: Vec<IdTupleGenerated>| v@) =~= before.push(piece@));
            assert(before.push(piece@) + chunked(mails@.skip(end as int), limit as nat) =~= before
                + (seq![piece@] + chunked(mails@.skip(end as int), limit as nat)));
        }
        start = end;
    }
    proof {
        assert(mails@.skip(start as int) =~= Seq::<IdTupleGenerated>::empty());
        assert(r@.map_values(|v: Vec<IdTupleGenerated>| v@) + Seq::<Seq<IdTupleGenerated>>::empty()
            =~= r@.map_values(|v: Vec<IdTupleGenerated>| v@));
    }
    r
}

/// The mail keys of each request that one bulk update of `mails` sends, in order:
/// adjacent repeats removed, then cut into pieces of `MAX_MAIL_UPDATE_LIMIT`.
pub fn mail_update_batches(mails: &Vec<IdTupleGenerated>) -> (r: Vec<Vec<IdTupleGenerated>>)
    ensures
        r@.map_values(|v: Vec<IdTupleGenerated>| v@) == update_batches(mails@),
{
    let unique = dedup_mails(mails);
    split_into_batches(&unique, MAX_MAIL_UPDATE_LIMIT)
}

} // verus!
