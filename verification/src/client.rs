//! The library client's protocol logic: how paginated reads are
//! driven and accumulated, how write batches are cut, and when a
//! response status aborts a call. The HTTP requests themselves are
//! made outside the crate; these functions decide what to request,
//! what to keep, and when to stop.

use vstd::prelude::*;
use crate::errors::SyncError;
use crate::models::Track;

verus! {

/// One page of a paginated listing: the items of the page and whether
/// the response named a further page.
pub struct Page<T> {
    pub items: Vec<T>,
    pub has_next: bool,
}

/// How many pages a pagination loop consumes from `pages`: every page
/// is one request; an empty page always ends the loop, and when
/// `check_next` is set a page without a further page ends it too. A
/// source that runs dry without either signal is consumed whole.
pub open spec fn pages_taken<T>(pages: Seq<Page<T>>, check_next: bool) -> nat
    decreases pages.len(),
{
    if pages.len() == 0 {
        0
    } else if pages[0].items@.len() == 0 {
        1
    } else if check_next && !pages[0].has_next {
        1
    } else {
        1 + pages_taken(pages.drop_first(), check_next)
    }
}

/// The items the loop accumulates, in page order: every consumed
/// page's items, in order, with nothing dropped or reordered.
pub open spec fn pages_gathered<T>(pages: Seq<Page<T>>, check_next: bool) -> Seq<T>
    decreases pages.len(),
{
    if pages.len() == 0 {
        Seq::empty()
    } else if pages[0].items@.len() == 0 {
        Seq::empty()
    } else if check_next && !pages[0].has_next {
        pages[0].items@
    } else {
        pages[0].items@ + pages_gathered(pages.drop_first(), check_next)
    }
}

/// Accumulates a paginated listing from the pages a source yields, in
/// order, and reports how many page requests were made. Stops after an
/// empty page, or — when `check_next` is set — after a page that named
/// no further page, whichever comes first.
pub fn collect_pages<T>(pages: Vec<Page<T>>, check_next: bool) -> (r: (Vec<T>, usize))
    ensures
        r.1 == pages_taken(pages@, check_next),
        r.0@ == pages_gathered(pages@, check_next),
{
    let ghost all = pages@;
    let mut rest = pages;
    let n0 = rest.len();
    let mut acc: Vec<T> = Vec::new();
    let mut count: usize = 0;
    while rest.len() > 0
        invariant
            all == pages@,
            count + pages_taken(rest@, check_next) == pages_taken(all, check_next),
            acc@ + pages_gathered(rest@, check_next) == pages_gathered(all, check_next),
            count + rest@.len() <= n0 == all.len(),
        decreases rest@.len(),
    {
        let ghost before = rest@;
        let ghost acc0 = acc@;
        let mut page = rest.remove(0);
        proof {
            assert(rest@ =~= before.drop_first());
            assert(page == before[0]);
        }
        count = count + 1;
        if page.items.len() == 0 {
            proof {
                assert(pages_taken(before, check_next) == 1);
                assert(pages_gathered(before, check_next) =~= Seq::<T>::empty());
                assert(acc@ + Seq::<T>::empty() =~= acc@);
            }
            return (acc, count);
        }
        let stop = check_next && !page.has_next;
        acc.append(&mut page.items);
        if stop {
            proof {
                assert(pages_taken(before, check_next) == 1);
                assert(pages_gathered(before, check_next) == before[0].items@);
                assert(acc@ =~= acc0 + pages_gathered(before, check_next));
            }
            return (acc, count);
        }
        proof {
            assert(pages_taken(before, check_next) == 1 + pages_taken(rest@, check_next));
            assert(pages_gathered(before, check_next) == before[0].items@ + pages_gathered(
                rest@,
                check_next,
            ));
            assert(acc@ + pages_gathered(rest@, check_next) =~= acc0 + pages_gathered(
                before,
                check_next,
            ));
        }
    }
    proof {
        assert(acc@ + Seq::<T>::empty() =~= acc@);
    }
    (acc, count)
}

/// Drives one endpoint's pagination: hands out the offset of the next
/// page request and, fed each page's outcome, decides whether the loop
/// goes on. The caller makes the requests; this records the protocol.
pub struct Pager {
    /// Page size of the endpoint; also the offset step.
    pub limit: u64,
    /// Whether a page that names no further page ends the loop.
    pub check_next: bool,
    /// Offset the next request asks for.
    pub offset: u64,
    /// How many page requests have been recorded.
    pub requests: u64,
    /// Whether the loop is over.
    pub done: bool,
}

impl Pager {
    pub fn new(limit: u64, check_next: bool) -> (r: Pager)
        requires
            1 <= limit,
        ensures
            r.limit == limit,
            r.check_next == check_next,
            r.offset == 0,
            r.requests == 0,
            !r.done,
    {
        Pager { limit, check_next, offset: 0, requests: 0, done: false }
    }

    /// The offset to request next, or nothing once the loop is over.
    pub fn next_offset(&self) -> (r: Option<u64>)
        ensures
            r == if self.done {
                None::<u64>
            } else {
                Some(self.offset)
            },
    {
        if self.done {
            None
        } else {
            Some(self.offset)
        }
    }

    /// Records one fetched page: one more request was made, the offset
    /// advances by the page size, and the loop ends exactly on an
    /// empty page or — when `check_next` is set — a page that named no
    /// further page.
    pub fn record_page(&mut self, item_count: usize, has_next: bool)
        requires
            !old(self).done,
            old(self).offset + old(self).limit <= u64::MAX,
            old(self).requests < u64::MAX,
        ensures
            final(self).limit == old(self).limit,
            final(self).check_next == old(self).check_next,
            final(self).offset == old(self).offset + old(self).limit,
            final(self).requests == old(self).requests + 1,
            final(self).done == (item_count == 0 || (old(self).check_next && !has_next)),
    {
        self.offset = self.offset + self.limit;
        self.requests = self.requests + 1;
        self.done = item_count == 0 || (self.check_next && !has_next);
    }
}

/// The tracks actually present in a playlist's track entries: entries
/// whose track is missing are dropped, order otherwise kept.
pub open spec fn present_of(items: Seq<Option<Track>>) -> Seq<Track>
    decreases items.len(),
{
    if items.len() == 0 {
        Seq::empty()
    } else {
        match items[0] {
            Some(t) => seq![t] + present_of(items.drop_first()),
            None => present_of(items.drop_first()),
        }
    }
}

/// Keeps the tracks that are present in a playlist's track entries, in
/// order; entries carrying no track are dropped.
pub fn present_tracks(items: Vec<Option<Track>>) -> (r: Vec<Track>)
    ensures
        r@ == present_of(items@),
{
    let ghost all = items@;
    let mut rest = items;
    let mut r: Vec<Track> = Vec::new();
    while rest.len() > 0
        invariant
            all == items@,
            r@ + present_of(rest@) == present_of(all),
        decreases rest@.len(),
    {
        let ghost before = rest@;
        let item = rest.remove(0);
        proof {
            assert(rest@ =~= before.drop_first());
            assert(item == before[0]);
        }
        match item {
            Some(t) => {
                let ghost r0 = r@;
                r.push(t);
                proof {
                    assert(r@ + present_of(rest@) =~= r0 + (seq![t] + present_of(rest@)));
                }
            },
            None => {},
        }
    }
    proof {
        assert(r@ + Seq::<Track>::empty() =~= r@);
    }
    r
}

/// The write batches for a list of values: sub-lists of at most `max`
/// values, every one but the last exactly `max` long, whose
/// concatenation is the input — order kept, nothing dropped, nothing
/// repeated.
pub open spec fn chunks_of(s: Seq<String>, max: int) -> Seq<Seq<String>>
    decreases s.len(),
{
    if max < 1 || s.len() == 0 {
        Seq::empty()
    } else if s.len() <= max {
        seq![s]
    } else {
        seq![s.subrange(0, max)] + chunks_of(s.subrange(max, s.len() as int), max)
    }
}

/// The views of a list of batches.
pub open spec fn chunk_views(r: Seq<Vec<String>>) -> Seq<Seq<String>> {
    r.map_values(|v: Vec<String>| v@)
}

/// Cuts `ids` into write batches of at most `max` entries each, in
/// input order.
pub fn chunk_ids(ids: &Vec<String>, max: usize) -> (r: Vec<Vec<String>>)
    requires
        1 <= max,
    ensures
        chunk_views(r@) == chunks_of(ids@, max as int),
{
    let n = ids.len();
    let mut r: Vec<Vec<String>> = Vec::new();
    let mut i: usize = 0;
    proof {
        assert(ids@.subrange(0, n as int) =~= ids@);
        assert(chunk_views(r@) =~= Seq::<Seq<String>>::empty());
        assert(chunk_views(r@) + chunks_of(ids@, max as int) =~= chunks_of(ids@, max as int));
    }
    while i < n
        invariant
            i <= n == ids@.len(),
            1 <= max,
            chunk_views(r@) + chunks_of(ids@.subrange(i as int, n as int), max as int)
                =~= chunks_of(ids@, max as int),
        decreases n - i,
    {
        let end = if n - i < max {
            n
        } else {
            i + max
        };
        let mut chunk: Vec<String> = Vec::new();
        let mut j: usize = i;
        while j < end
            invariant
                i <= j <= end <= ids@.len(),
                chunk@ =~= ids@.subrange(i as int, j as int),
            decreases end - j,
        {
            chunk.push(ids[j].clone());
            proof {
                assert(chunk@ =~= ids@.subrange(i as int, j + 1 as int));
            }
            j = j + 1;
        }
        let ghost rest = ids@.subrange(i as int, n as int);
        proof {
            lemma_chunks_head(ids@, i as int, end as int, n as int, max as int);
            assert(chunk_views(r@.push(chunk)) =~= chunk_views(r@) + seq![chunk@]);
        }
        r.push(chunk);
        i = end;
    }
    proof {
        assert(ids@.subrange(i as int, n as int) =~= Seq::<String>::empty());
        assert(chunk_views(r@) + Seq::<Seq<String>>::empty() =~= chunk_views(r@));
    }
    r
}

/// Peeling the first batch off a nonempty tail of `s` keeps the batch
/// list intact: the batches of `s[i..]` are `s[i..end]` followed by
/// the batches of `s[end..]`, where `end` closes the first batch.
proof fn lemma_chunks_head(s: Seq<String>, i: int, end: int, n: int, max: int)
    requires
        1 <= max,
        0 <= i < n == s.len(),
        end == if n - i < max {
            n
        } else {
            i + max
        },
    ensures
        chunks_of(s.subrange(i, n), max) == seq![s.subrange(i, end)] + chunks_of(
            s.subrange(end, n),
            max,
        ),
{
    let rest = s.subrange(i, n);
    if n - i <= max {
        assert(rest.subrange(0, rest.len() as int) =~= rest);
        assert(s.subrange(i, end) =~= rest);
        assert(s.subrange(end, n) =~= Seq::<String>::empty());
        assert(chunks_of(s.subrange(end, n), max) =~= Seq::<Seq<String>>::empty());
        assert(seq![rest] + Seq::<Seq<String>>::empty() =~= seq![rest]);
    } else {
        assert(rest.subrange(0, max) =~= s.subrange(i, end));
        assert(rest.subrange(max, rest.len() as int) =~= s.subrange(end, n));
    }
}

/// Every batch respects the ceiling, no batch is empty, and every
/// batch before the last is full.
pub proof fn lemma_chunks_sizes(s: Seq<String>, max: int, i: int)
    requires
        1 <= max,
        0 <= i < chunks_of(s, max).len(),
    ensures
        1 <= chunks_of(s, max)[i].len() <= max,
        i < chunks_of(s, max).len() - 1 ==> chunks_of(s, max)[i].len() == max,
    decreases s.len(),
{
    if s.len() > max {
        if i > 0 {
            lemma_chunks_sizes(s.subrange(max, s.len() as int), max, i - 1);
        }
    }
}

/// The batches of a list concatenate back to the list itself: input
/// order is kept, and nothing is dropped, repeated, or reordered.
pub proof fn lemma_chunks_flatten(s: Seq<String>, max: int)
    requires
        1 <= max,
    ensures
        chunks_of(s, max).flatten() == s,
    decreases s.len(),
{
    if s.len() == 0 {
        assert(chunks_of(s, max).flatten() =~= s);
    } else if s.len() <= max {
        let c = chunks_of(s, max);
        assert(c.first() == s);
        assert(c.drop_first() =~= Seq::<Seq<String>>::empty());
        assert(c.drop_first().flatten() =~= Seq::<String>::empty());
        assert(c.flatten() =~= s);
    } else {
        let head = s.subrange(0, max);
        let tail = s.subrange(max, s.len() as int);
        lemma_chunks_flatten(tail, max);
        let c = chunks_of(s, max);
        assert(c.first() == head);
        assert(c.drop_first() =~= chunks_of(tail, max));
        assert(c.flatten() =~= head + tail);
        assert(head + tail =~= s);
    }
}

/// A list cuts into one batch per started `max`-block: none for an
/// empty list, and otherwise exactly as many requests as the ceiling
/// of its length over the batch size.
pub proof fn lemma_chunks_count(s: Seq<String>, max: int)
    requires
        1 <= max,
    ensures
        chunks_of(s, max).len() == if s.len() == 0 {
            0int
        } else {
            (s.len() - 1) / max + 1
        },
    decreases s.len(),
{
    if s.len() > max {
        let tail = s.subrange(max, s.len() as int);
        lemma_chunks_count(tail, max);
        assert((s.len() - 1) / max == (tail.len() - 1) / max + 1) by (nonlinear_arith)
            requires
                max >= 1,
                s.len() > max,
                tail.len() == s.len() - max,
        ;
    } else if s.len() > 0 {
        assert((s.len() - 1) / max == 0) by (nonlinear_arith)
            requires
                max >= 1,
                0 < s.len() <= max,
        ;
    }
}

/// Whether an HTTP status is a success in the remote API's terms.
pub open spec fn is_success_status(status: u16) -> bool {
    200 <= status < 300
}

/// Turns a response's status and body into the library's error policy:
/// success statuses pass, every other status is a `RemoteApiError`
/// carrying the status and body, which aborts the enclosing step.
pub fn check_response(status: u16, body: String) -> (r: Result<(), SyncError>)
    ensures
        is_success_status(status) ==> r == Ok::<(), SyncError>(()),
        !is_success_status(status) ==> r == Err::<(), _>(
            (SyncError::RemoteApiError { status, body }),
        ),
{
    if 200 <= status && status < 300 {
        Ok(())
    } else {
        Err(SyncError::RemoteApiError { status, body })
    }
}

} // verus!
