//! Splitting the surviving URLs into contiguous chunks, one per tab.

use vstd::prelude::*;
use crate::target::Target;
use crate::urls::{surviving, valid_urls};

verus! {

/// The chunk size for `total` URLs on `tabs` tabs: `total / tabs`, rounded up.
pub open spec fn chunk_len(total: nat, tabs: nat) -> nat {
    if tabs == 0 {
        0
    } else if total % tabs == 0 {
        total / tabs
    } else {
        total / tabs + 1
    }
}

/// `s` cut from the left into pieces of `size` items; the last piece holds
/// what is left and may be shorter. Nothing is cut from an empty sequence.
pub open spec fn chunks_of<T>(s: Seq<T>, size: nat) -> Seq<Seq<T>>
    decreases s.len(),
{
    if size == 0 || s.len() == 0 {
        Seq::empty()
    } else if s.len() <= size {
        seq![s]
    } else {
        seq![s.take(size as int)] + chunks_of(s.skip(size as int), size)
    }
}

/// The chunks that `tabs` tabs get for the given candidates.
pub open spec fn planned_chunks(candidates: Seq<Seq<char>>, tabs: nat) -> Seq<Seq<Seq<char>>> {
    let urls = surviving(candidates);
    chunks_of(urls, chunk_len(urls.len(), tabs))
}

/// The chunk size for `total` URLs on `tabs` tabs.
pub fn chunk_size(total: usize, tabs: usize) -> (size: usize)
    requires
        tabs >= 1,
    ensures
        size == chunk_len(total as nat, tabs as nat),
        size <= total,
        total > 0 ==> size >= 1,
{
    let whole: usize = total / tabs;
    let size: usize = if total % tabs == 0 {
        whole
    } else {
        proof {
            assert(total / tabs < total) by (nonlinear_arith)
                requires
                    total % tabs != 0,
                    tabs >= 1,
            ;
        }
        whole + 1
    };
    proof {
        assert(total / tabs <= total) by (nonlinear_arith)
            requires
                tabs >= 1,
        ;
        assert(total > 0 && total % tabs == 0 ==> total / tabs >= 1) by (nonlinear_arith)
            requires
                tabs >= 1,
        ;
    }
    size
}

/// The targets for `urls[from..to]`, in order.
pub fn targets_between(urls: &Vec<String>, from: usize, to: usize) -> (chunk: Vec<Target>)
    requires
        from <= to <= urls.len(),
    ensures
        chunk.deep_view() == urls.deep_view().subrange(from as int, to as int),
{
    let mut chunk: Vec<Target> = Vec::new();
    let mut i: usize = from;
    let ghost all = urls.deep_view();
    assert(chunk.deep_view() =~= all.subrange(from as int, from as int));
    while i < to
        invariant
            from <= i <= to <= urls.len(),
            all == urls.deep_view(),
            chunk.deep_view() == all.subrange(from as int, i as int),
        decreases to - i,
    {
        let ghost before = chunk.deep_view();
        let t = Target::new(urls[i].as_str());
        chunk.push(t);
        i += 1;
        assert(chunk.deep_view() =~= before.push(all[i - 1]));
        assert(chunk.deep_view() =~= all.subrange(from as int, i as int));
    }
    chunk
}

/// Splits `urls` into contiguous chunks for `tabs` tabs. Every chunk but the
/// last holds `chunk_len` targets; no chunk is empty, and there are at most
/// `tabs` of them.
pub fn partition(urls: &Vec<String>, tabs: usize) -> (chunks: Vec<Vec<Target>>)
    requires
        tabs >= 1,
    ensures
        chunks.deep_view() == chunks_of(
            urls.deep_view(),
            chunk_len(urls.len() as nat, tabs as nat),
        ),
        chunks.len() <= tabs,
        chunks.deep_view().flatten() == urls.deep_view(),
        forall|k: int|
            0 <= k < chunks.len() ==> 1 <= (#[trigger] chunks.deep_view()[k]).len() <= chunk_len(
                urls.len() as nat,
                tabs as nat,
            ),
{
    let total = urls.len();
    let size = chunk_size(total, tabs);
    let ghost all = urls.deep_view();
    let mut chunks: Vec<Vec<Target>> = Vec::new();
    let mut start: usize = 0;
    assert(all.skip(0) =~= all);
    assert(chunks.deep_view() + chunks_of(all, size as nat) =~= chunks_of(all, size as nat));
    while start < total
        invariant
            start <= total == urls.len(),
            all == urls.deep_view(),
            start < total ==> size >= 1,
            chunks.deep_view() + chunks_of(all.skip(start as int), size as nat) == chunks_of(
                all,
                size as nat,
            ),
        decreases total - start,
    {
        let ghost before = chunks.deep_view();
        let ghost rest = all.skip(start as int);
        let end: usize = if total - start <= size {
            total
        } else {
            start + size
        };
        let chunk = targets_between(urls, start, end);
        proof {
            if total - start <= size {
                assert(all.subrange(start as int, end as int) =~= rest);
                assert(all.skip(end as int).len() == 0);
            } else {
                assert(all.subrange(start as int, end as int) =~= rest.take(size as int));
                assert(rest.skip(size as int) =~= all.skip(end as int));
            }
        }
        chunks.push(chunk);
        proof {
            assert(chunks.deep_view() =~= before.push(all.subrange(start as int, end as int)));
            assert(chunks.deep_view() + chunks_of(all.skip(end as int), size as nat) =~= before
                + chunks_of(rest, size as nat));
        }
        start = end;
    }
    proof {
        assert(chunks.deep_view() + Seq::<Seq<Seq<char>>>::empty() =~= chunks.deep_view());
        chunks_fit_tabs(all, tabs as nat);
        chunks_rejoin(all, size as nat);
        assert(chunks.deep_view().len() == chunks.len());
        assert forall|k: int| 0 <= k < chunks.len() implies 1 <= (
        #[trigger] chunks.deep_view()[k]).len() <= size by {
            chunks_nonempty(all, size as nat, k);
        }
    }
    chunks
}

/// Parses the candidates, drops the malformed ones, and splits what is left
/// over `tabs` tabs.
pub fn plan_chunks(candidates: &Vec<String>, tabs: usize) -> (chunks: Vec<Vec<Target>>)
    requires
        tabs >= 1,
    ensures
        chunks.deep_view() == planned_chunks(candidates.deep_view(), tabs as nat),
        chunks.len() <= tabs,
        chunks.deep_view().flatten() == surviving(candidates.deep_view()),
        forall|k: int| 0 <= k < chunks.len() ==> (#[trigger] chunks.deep_view()[k]).len() >= 1,
{
    let urls = valid_urls(candidates);
    assert(urls.deep_view().len() == urls.len());
    partition(&urls, tabs)
}

/// `tabs` chunks of `chunk_len` items hold all of `total` items.
pub proof fn chunk_len_covers(total: nat, tabs: nat)
    requires
        tabs >= 1,
    ensures
        total <= tabs * chunk_len(total, tabs),
        total > 0 ==> chunk_len(total, tabs) >= 1,
{
    assert(total <= tabs * chunk_len(total, tabs) && (total > 0 ==> chunk_len(total, tabs) >= 1))
        by (nonlinear_arith)
        requires
            tabs >= 1,
            chunk_len(total, tabs) == if total % tabs == 0 {
                total / tabs
            } else {
                total / tabs + 1
            },
    ;
}

/// A sequence of at most `k * size` items is cut into at most `k` chunks.
pub proof fn chunk_count_bound<T>(s: Seq<T>, size: nat, k: nat)
    requires
        size >= 1,
        s.len() <= k * size,
    ensures
        chunks_of(s, size).len() <= k,
    decreases s.len(),
{
    if s.len() == 0 {
    } else {
        assert(k >= 1) by (nonlinear_arith)
            requires
                s.len() > 0,
                s.len() <= k * size,
        ;
        if s.len() > size {
            assert(s.len() - size <= (k - 1) * size) by (nonlinear_arith)
                requires
                    s.len() <= k * size,
            ;
            chunk_count_bound(s.skip(size as int), size, (k - 1) as nat);
        }
    }
}

/// Partition never makes more chunks than there are tabs.
pub proof fn chunks_fit_tabs<T>(s: Seq<T>, tabs: nat)
    requires
        tabs >= 1,
    ensures
        chunks_of(s, chunk_len(s.len(), tabs)).len() <= tabs,
{
    chunk_len_covers(s.len(), tabs);
    if s.len() > 0 {
        chunk_count_bound(s, chunk_len(s.len(), tabs), tabs);
    }
}

/// The chunks, put end to end in order, are the sequence that was cut.
pub proof fn chunks_rejoin<T>(s: Seq<T>, size: nat)
    requires
        size >= 1 || s.len() == 0,
    ensures
        chunks_of(s, size).flatten() == s,
    decreases s.len(),
{
    let chunks = chunks_of(s, size);
    if s.len() == 0 {
        assert(chunks.flatten() =~= s);
    } else if s.len() <= size {
        assert(chunks.drop_first() =~= Seq::<Seq<T>>::empty());
        assert(chunks.drop_first().flatten() =~= Seq::<T>::empty());
        assert(chunks.flatten() =~= chunks.first() + chunks.drop_first().flatten());
        assert(chunks.flatten() =~= s);
    } else {
        chunks_rejoin(s.skip(size as int), size);
        assert(chunks.drop_first() =~= chunks_of(s.skip(size as int), size));
        assert(chunks.first() == s.take(size as int));
        assert(chunks.flatten() =~= chunks.first() + chunks.drop_first().flatten());
        assert(chunks.flatten() =~= s);
    }
}

/// No chunk is empty and none is longer than the chunk size.
pub proof fn chunks_nonempty<T>(s: Seq<T>, size: nat, k: int)
    requires
        0 <= k < chunks_of(s, size).len(),
    ensures
        1 <= chunks_of(s, size)[k].len() <= size,
    decreases s.len(),
{
    if size == 0 || s.len() == 0 {
    } else if s.len() <= size {
    } else if k > 0 {
        chunks_nonempty(s.skip(size as int), size, k - 1);
    }
}

/// On a single tab the one chunk is the whole list, in its order.
pub proof fn single_tab_keeps_order<T>(s: Seq<T>)
    requires
        s.len() > 0,
    ensures
        chunks_of(s, chunk_len(s.len(), 1)) == seq![s],
{
}

/// The same candidates and tab count give the same chunks.
pub proof fn partition_deterministic(a: Seq<Seq<char>>, b: Seq<Seq<char>>, tabs: nat)
    requires
        a == b,
    ensures
        planned_chunks(a, tabs) == planned_chunks(b, tabs),
{
}

} // verus!
