//! The page walk behind every auto-paginating (`*_iter`) endpoint.
//!
//! A walk requests pages `1, 2, 3, …` in order. It stops after a page that
//! fails (transport or decoding), after a page that comes back empty, and,
//! when the endpoint reports a total page count (`totalPages`), after the
//! last reported page, so that no page beyond the total is ever requested.
//! The total is taken from the first response that carries a value that
//! fits in a `u32`.
//!
//! The caller performs each fetch and hands the outcome to
//! [`PageWalk::record`], which returns what the stream yields for it.

use vstd::prelude::*;

use crate::error::ClientError;

verus! {

/// The state of a page walk, as the contracts speak of it.
pub struct WalkState {
    /// The page that the next request asks for (1-indexed).
    pub next_page: u32,
    /// The total page count, once an envelope reported one.
    pub total: Option<u32>,
    /// Whether the endpoint reports `totalPages` and the walk heeds it.
    pub tracks_total: bool,
    /// Whether the walk has ended.
    pub finished: bool,
}

/// What a fetched page tells the walk: a failure, or the page's reported
/// total (if any) and the number of items it held.
pub enum PageReport {
    Failed,
    Received { total_pages: Option<u64>, count: nat },
}

/// The outcome of fetching one page: the envelope's `totalPages` value (if
/// it holds one as an unsigned integer) and the page's items, or the
/// error met while decoding them.
pub struct PageData<T> {
    pub total_pages: Option<u64>,
    pub items: Result<Vec<T>, ClientError>,
}

/// A reported total as the walk keeps it: a value that fits in a `u32`.
pub open spec fn total_from_field(field: Option<u64>) -> Option<u32> {
    match field {
        Some(x) => if x <= u32::MAX { Some(x as u32) } else { None },
        None => None,
    }
}

/// The state a walk starts in.
pub open spec fn walk_start(tracks_total: bool) -> WalkState {
    WalkState { next_page: 1, total: None, tracks_total, finished: false }
}

/// The state after one fetched page.
pub open spec fn advance(w: WalkState, r: PageReport) -> WalkState {
    match r {
        PageReport::Failed => WalkState {
            next_page: w.next_page,
            total: w.total,
            tracks_total: w.tracks_total,
            finished: true,
        },
        PageReport::Received { total_pages, count } => {
            let total = if w.tracks_total && w.total is None {
                total_from_field(total_pages)
            } else {
                w.total
            };
            if count == 0 {
                WalkState {
                    next_page: w.next_page,
                    total,
                    tracks_total: w.tracks_total,
                    finished: true,
                }
            } else {
                let next = (w.next_page + 1) as u32;
                WalkState {
                    next_page: next,
                    total,
                    tracks_total: w.tracks_total,
                    finished: match total {
                        Some(t) => next > t,
                        None => false,
                    },
                }
            }
        },
    }
}

/// Whether a page may be recorded in state `w`: the walk has not ended,
/// and a non-empty page does not push the page number past `u32::MAX`.
pub open spec fn can_advance(w: WalkState, r: PageReport) -> bool {
    &&& !w.finished
    &&& (r matches PageReport::Received { count, .. } && count > 0) ==> w.next_page < u32::MAX
}

/// What a fetch outcome reports to the walk.
pub open spec fn report_of<T>(fetched: Result<PageData<T>, ClientError>) -> PageReport {
    match fetched {
        Err(_) => PageReport::Failed,
        Ok(data) => match data.items {
            Err(_) => PageReport::Failed,
            Ok(items) => PageReport::Received {
                total_pages: data.total_pages,
                count: items@.len(),
            },
        },
    }
}

/// What the stream yields for a fetch outcome: every item in order, or
/// the one error that ends the stream.
pub open spec fn yields_of<T>(fetched: Result<PageData<T>, ClientError>) -> Seq<Result<T, ClientError>> {
    match fetched {
        Err(e) => seq![Err(e)],
        Ok(data) => match data.items {
            Err(e) => seq![Err(e)],
            Ok(items) => items@.map_values(|t: T| Ok::<T, ClientError>(t)),
        },
    }
}

/// The state after a sequence of fetched pages.
pub open spec fn run(w: WalkState, reports: Seq<PageReport>) -> WalkState
    decreases reports.len(),
{
    if reports.len() == 0 {
        w
    } else {
        run(advance(w, reports[0]), reports.drop_first())
    }
}

/// Whether every page of the sequence may be recorded in turn.
pub open spec fn runnable(w: WalkState, reports: Seq<PageReport>) -> bool
    decreases reports.len(),
{
    reports.len() == 0 || (can_advance(w, reports[0]) && runnable(
        advance(w, reports[0]),
        reports.drop_first(),
    ))
}

/// The pages requested, in order, while the sequence of pages is recorded.
pub open spec fn requested_pages(w: WalkState, reports: Seq<PageReport>) -> Seq<u32>
    decreases reports.len(),
{
    if reports.len() == 0 {
        Seq::empty()
    } else {
        seq![w.next_page] + requested_pages(advance(w, reports[0]), reports.drop_first())
    }
}

/// The invariant of a walk: pages count from 1, only a walk that heeds
/// `totalPages` holds a total, and a walk that goes on never stands past
/// its total.
pub open spec fn walk_wf(w: WalkState) -> bool {
    &&& w.next_page >= 1
    &&& !w.tracks_total ==> w.total is None
    &&& (!w.finished && w.total is Some) ==> w.next_page <= w.total->0
}

/// A walk starts in a well-formed state.
pub proof fn law_start_is_wf(tracks_total: bool)
    ensures
        walk_wf(walk_start(tracks_total)),
{
}

/// Recording a page keeps a walk well formed; in particular a walk that
/// goes on never stands on a page past the reported total.
pub proof fn law_advance_keeps_wf(w: WalkState, r: PageReport)
    requires
        walk_wf(w),
        can_advance(w, r),
    ensures
        walk_wf(advance(w, r)),
{
}

/// A failed page, and a page that comes back empty, end the walk.
pub proof fn law_failure_or_empty_page_ends_walk(w: WalkState, total_pages: Option<u64>)
    ensures
        advance(w, PageReport::Failed).finished,
        advance(w, PageReport::Received { total_pages, count: 0 }).finished,
{
}

/// Once a total is known it never changes.
pub proof fn law_total_is_kept(w: WalkState, r: PageReport)
    requires
        w.total is Some,
    ensures
        advance(w, r).total == w.total,
{
}

proof fn lemma_take_drop_first(reports: Seq<PageReport>, i: int)
    requires
        1 <= i <= reports.len(),
    ensures
        reports.take(i).len() > 0,
        reports.take(i)[0] == reports[0],
        reports.take(i).drop_first() =~= reports.drop_first().take(i - 1),
{
}

proof fn lemma_requested_count_up(w: WalkState, reports: Seq<PageReport>)
    requires
        runnable(w, reports),
    ensures
        requested_pages(w, reports).len() == reports.len(),
        forall|i: int|
            0 <= i < reports.len() ==> requested_pages(w, reports)[i] == w.next_page + i,
    decreases reports.len(),
{
    if reports.len() > 0 {
        let w2 = advance(w, reports[0]);
        let rest = reports.drop_first();
        lemma_requested_count_up(w2, rest);
        if rest.len() > 0 {
            assert(runnable(w2, rest));
            assert(can_advance(w2, rest[0]));
            assert(!w2.finished);
            assert(w2.next_page == w.next_page + 1);
        }
        assert forall|i: int| 0 <= i < reports.len() implies requested_pages(w, reports)[i]
            == w.next_page + i by {
            if i > 0 {
                assert(requested_pages(w, reports)[i] == requested_pages(w2, rest)[i - 1]);
            }
        }
    }
}

/// The pages of a walk are requested in order `1, 2, 3, …`, one request
/// per recorded page.
pub proof fn law_pages_are_consecutive(tracks_total: bool, reports: Seq<PageReport>)
    requires
        runnable(walk_start(tracks_total), reports),
    ensures
        requested_pages(walk_start(tracks_total), reports) =~= Seq::new(
            reports.len(),
            |i: int| (i + 1) as u32,
        ),
{
    lemma_requested_count_up(walk_start(tracks_total), reports);
}

proof fn lemma_within_total(w: WalkState, reports: Seq<PageReport>)
    requires
        walk_wf(w),
        runnable(w, reports),
    ensures
        requested_pages(w, reports).len() == reports.len(),
        forall|i: int|
            #![trigger requested_pages(w, reports)[i]]
            0 <= i < reports.len() && run(w, reports.take(i)).total is Some
                ==> requested_pages(w, reports)[i] <= run(w, reports.take(i)).total->0,
    decreases reports.len(),
{
    if reports.len() > 0 {
        let w2 = advance(w, reports[0]);
        let rest = reports.drop_first();
        law_advance_keeps_wf(w, reports[0]);
        lemma_within_total(w2, rest);
        assert forall|i: int|
            #![trigger requested_pages(w, reports)[i]]
            0 <= i < reports.len() && run(w, reports.take(i)).total is Some implies
                requested_pages(w, reports)[i] <= run(w, reports.take(i)).total->0 by {
            if i == 0 {
                assert(reports.take(0) =~= Seq::<PageReport>::empty());
            } else {
                lemma_take_drop_first(reports, i);
                assert(run(w, reports.take(i)) == run(w2, rest.take(i - 1)));
                assert(requested_pages(w, reports)[i] == requested_pages(w2, rest)[i - 1]);
            }
        }
    }
}

/// No page past the reported total is ever requested: whenever a request
/// is made while a total is known, the requested page is at most that
/// total.
pub proof fn law_no_page_past_total(tracks_total: bool, reports: Seq<PageReport>)
    requires
        runnable(walk_start(tracks_total), reports),
    ensures
        forall|i: int|
            #![trigger requested_pages(walk_start(tracks_total), reports)[i]]
            0 <= i < reports.len() && run(walk_start(tracks_total), reports.take(i)).total is Some
                ==> requested_pages(walk_start(tracks_total), reports)[i] <= run(
                walk_start(tracks_total),
                reports.take(i),
            ).total->0,
{
    lemma_within_total(walk_start(tracks_total), reports);
}

proof fn lemma_run_keeps_total(w: WalkState, reports: Seq<PageReport>)
    requires
        w.total is Some,
    ensures
        run(w, reports).total == w.total,
    decreases reports.len(),
{
    if reports.len() > 0 {
        lemma_run_keeps_total(advance(w, reports[0]), reports.drop_first());
    }
}

/// When the first page of a walk that heeds `totalPages` reports a total
/// of `t` pages, the walk fetches at most `t` pages (one page when `t` is
/// zero): it stops after page `t` without probing page `t + 1`.
pub proof fn law_fetches_at_most_reported_total(reports: Seq<PageReport>, t: u64)
    requires
        runnable(walk_start(true), reports),
        reports.len() > 0,
        reports[0] matches PageReport::Received { total_pages, .. } && total_pages == Some(t),
        t <= u32::MAX,
    ensures
        reports.len() <= (if t == 0 { 1 } else { t as int }),
{
    let start = walk_start(true);
    let n = reports.len() as int;
    if n >= 2 {
        lemma_requested_count_up(start, reports);
        lemma_within_total(start, reports);
        lemma_take_drop_first(reports, n - 1);
        let w1 = advance(start, reports[0]);
        assert(w1.total == Some(t as u32));
        lemma_run_keeps_total(w1, reports.drop_first().take(n - 2));
        assert(run(start, reports.take(n - 1)) == run(w1, reports.drop_first().take(n - 2)));
        assert(requested_pages(start, reports)[n - 1] <= t);
        assert(requested_pages(start, reports)[n - 1] == n);
        if t == 0 {
            assert(w1.finished);
            assert(!runnable(w1, reports.drop_first()));
        }
    }
}

/// Whether a page outcome ends the walk by itself: a failure, or an empty
/// page.
pub open spec fn page_stops(r: PageReport) -> bool {
    match r {
        PageReport::Failed => true,
        PageReport::Received { count, .. } => count == 0,
    }
}

/// The total a walk holds after pages `1..=p` of a server whose answer to
/// page `q` is `pages[q - 1]`: the first total that a successful page
/// reports and that fits in a `u32`, when the walk heeds `totalPages`.
pub open spec fn total_after<T>(
    tracks_total: bool,
    pages: Seq<Result<PageData<T>, ClientError>>,
    p: int,
) -> Option<u32>
    decreases p,
{
    if p <= 0 {
        None
    } else {
        let before = total_after(tracks_total, pages, p - 1);
        if tracks_total && before is None {
            match report_of(pages[p - 1]) {
                PageReport::Received { total_pages, .. } => total_from_field(total_pages),
                PageReport::Failed => None,
            }
        } else {
            before
        }
    }
}

/// Whether page `p` is the last page a walk fetches from that server: it
/// failed, came back empty, or is at or past the total known after it.
pub open spec fn ends_walk<T>(
    tracks_total: bool,
    pages: Seq<Result<PageData<T>, ClientError>>,
    p: int,
) -> bool {
    ||| page_stops(report_of(pages[p - 1]))
    ||| (total_after(tracks_total, pages, p) matches Some(t) && p >= t)
}

/// Everything the stream yields for pages `1..=p`, in order.
pub open spec fn yields_through<T>(pages: Seq<Result<PageData<T>, ClientError>>, p: int) -> Seq<
    Result<T, ClientError>,
>
    decreases p,
{
    if p <= 0 {
        Seq::empty()
    } else {
        yields_through(pages, p - 1) + yields_of(pages[p - 1])
    }
}

/// A walk run against a server whose answer to page `q` is `pages[q - 1]`,
/// for at most `steps` fetches, as the stream runs it: while the walk
/// names a page, that page is fetched and recorded. The final state, the
/// pages fetched in order, and what the stream yields in order.
pub open spec fn walk_trace<T>(
    w: WalkState,
    pages: Seq<Result<PageData<T>, ClientError>>,
    steps: nat,
) -> (WalkState, Seq<u32>, Seq<Result<T, ClientError>>)
    decreases steps,
{
    if steps == 0 || w.finished || w.next_page < 1 || w.next_page > pages.len() {
        (w, Seq::empty(), Seq::empty())
    } else {
        let o = pages[w.next_page - 1];
        let rest = walk_trace(advance(w, report_of(o)), pages, (steps - 1) as nat);
        (rest.0, seq![w.next_page] + rest.1, yields_of(o) + rest.2)
    }
}

proof fn lemma_trace_from<T>(
    tracks_total: bool,
    pages: Seq<Result<PageData<T>, ClientError>>,
    k: int,
    w: WalkState,
    steps: nat,
    j: int,
)
    requires
        0 <= k < j <= pages.len(),
        pages.len() < u32::MAX,
        w.next_page == k + 1,
        w.total == total_after(tracks_total, pages, k),
        w.tracks_total == tracks_total,
        !w.finished,
        steps >= j - k,
        ends_walk(tracks_total, pages, j),
        forall|p: int| k < p < j ==> !ends_walk(tracks_total, pages, p),
    ensures
        walk_trace(w, pages, steps).1 =~= Seq::new((j - k) as nat, |i: int| (k + 1 + i) as u32),
        yields_through(pages, k) + walk_trace(w, pages, steps).2 =~= yields_through(pages, j),
        walk_trace(w, pages, steps).0.finished,
    decreases j - k,
{
    let o = pages[k];
    let w2 = advance(w, report_of(o));
    let rest = walk_trace(w2, pages, (steps - 1) as nat);
    assert(w2.total == total_after(tracks_total, pages, k + 1));
    assert(yields_through(pages, k + 1) == yields_through(pages, k) + yields_of(o));
    if j == k + 1 {
        assert(w2.finished);
        assert(rest.1 =~= Seq::<u32>::empty());
        assert(rest.2 =~= Seq::<Result<T, ClientError>>::empty());
        assert(walk_trace(w, pages, steps).1 =~= seq![(k + 1) as u32]);
    } else {
        assert(!ends_walk(tracks_total, pages, k + 1));
        assert(w2.next_page == k + 2);
        assert(!w2.finished);
        lemma_trace_from(tracks_total, pages, k + 1, w2, (steps - 1) as nat, j);
        assert(walk_trace(w, pages, steps).1 == seq![(k + 1) as u32] + rest.1);
        assert(walk_trace(w, pages, steps).2 == yields_of(o) + rest.2);
        assert(yields_through(pages, k) + (yields_of(o) + rest.2) =~= (yields_through(pages, k)
            + yields_of(o)) + rest.2);
    }
}

/// The walk from start to end, against any server: with `j` the first page
/// that ends it (a failed page, an empty page, or the page that reaches the
/// total reported so far), the walk fetches exactly pages `1, 2, …, j` in
/// that order and never a later one, yields every item of those pages in
/// order, nothing dropped, repeated or reordered (and, when page `j`
/// failed, that one error last), and then ends.
pub proof fn law_walk_runs_to_first_end<T>(
    tracks_total: bool,
    pages: Seq<Result<PageData<T>, ClientError>>,
    j: int,
)
    requires
        1 <= j <= pages.len(),
        pages.len() < u32::MAX,
        ends_walk(tracks_total, pages, j),
        forall|p: int| 1 <= p < j ==> !ends_walk(tracks_total, pages, p),
    ensures
        walk_trace(walk_start(tracks_total), pages, pages.len()).1 =~= Seq::new(
            j as nat,
            |i: int| (i + 1) as u32,
        ),
        walk_trace(walk_start(tracks_total), pages, pages.len()).2 =~= yields_through(pages, j),
        walk_trace(walk_start(tracks_total), pages, pages.len()).0.finished,
{
    lemma_trace_from(tracks_total, pages, 0, walk_start(tracks_total), pages.len(), j);
    assert(yields_through(pages, 0) =~= Seq::<Result<T, ClientError>>::empty());
    assert(Seq::<Result<T, ClientError>>::empty() + walk_trace(
        walk_start(tracks_total),
        pages,
        pages.len(),
    ).2 =~= walk_trace(walk_start(tracks_total), pages, pages.len()).2);
}

proof fn lemma_first_total_kept<T>(pages: Seq<Result<PageData<T>, ClientError>>, t: u32, p: int)
    requires
        1 <= p <= pages.len(),
        report_of(pages[0]) matches PageReport::Received { total_pages, .. } && total_from_field(
            total_pages,
        ) == Some(t),
    ensures
        total_after(true, pages, p) == Some(t),
    decreases p,
{
    if p > 1 {
        lemma_first_total_kept(pages, t, p - 1);
    } else {
        assert(total_after(true, pages, 0) is None);
    }
}

/// When the first page reports a usable total `t`, that total bounds the
/// whole walk: a page ends it exactly when it fails, comes back empty, or
/// is page `t` or later.
pub proof fn law_first_page_total_bounds_walk<T>(
    pages: Seq<Result<PageData<T>, ClientError>>,
    t: u32,
    p: int,
)
    requires
        1 <= p <= pages.len(),
        report_of(pages[0]) matches PageReport::Received { total_pages, .. } && total_from_field(
            total_pages,
        ) == Some(t),
    ensures
        ends_walk(true, pages, p) == (page_stops(report_of(pages[p - 1])) || p >= t),
{
    lemma_first_total_kept(pages, t, p);
}

proof fn lemma_untracked_total<T>(pages: Seq<Result<PageData<T>, ClientError>>, p: int)
    ensures
        total_after(false, pages, p) is None,
    decreases p,
{
    if p > 0 {
        lemma_untracked_total(pages, p - 1);
    }
}

/// A walk that does not heed `totalPages` (the match-history endpoint)
/// ends exactly at the first failed or empty page, whatever totals the
/// pages report.
pub proof fn law_untracked_walk_ends_at_failure_or_empty<T>(
    pages: Seq<Result<PageData<T>, ClientError>>,
    p: int,
)
    requires
        1 <= p <= pages.len(),
    ensures
        ends_walk(false, pages, p) == page_stops(report_of(pages[p - 1])),
{
    lemma_untracked_total(pages, p);
}

/// Whether no successful page of the server reports a total that fits in
/// a `u32` (the key is absent, or not such an integer).
pub open spec fn no_usable_total<T>(pages: Seq<Result<PageData<T>, ClientError>>) -> bool {
    forall|i: int|
        0 <= i < pages.len() ==> (#[trigger] report_of(pages[i]) matches PageReport::Received {
            total_pages,
            ..
        } ==> total_from_field(total_pages) is None)
}

proof fn lemma_unusable_totals<T>(
    pages: Seq<Result<PageData<T>, ClientError>>,
    w1: WalkState,
    w2: WalkState,
    steps: nat,
)
    requires
        no_usable_total(pages),
        w1.next_page == w2.next_page,
        w1.finished == w2.finished,
        w1.total is None,
        w2.total is None,
    ensures
        walk_trace(w1, pages, steps).1 == walk_trace(w2, pages, steps).1,
        walk_trace(w1, pages, steps).2 == walk_trace(w2, pages, steps).2,
    decreases steps,
{
    if !(steps == 0 || w1.finished || w1.next_page < 1 || w1.next_page > pages.len()) {
        let o = pages[w1.next_page - 1];
        assert(report_of(pages[w1.next_page - 1]) matches PageReport::Received { total_pages, .. }
            ==> total_from_field(total_pages) is None);
        lemma_unusable_totals(
            pages,
            advance(w1, report_of(o)),
            advance(w2, report_of(o)),
            (steps - 1) as nat,
        );
    }
}

/// When no page reports a total that fits in a `u32`, a walk that heeds
/// `totalPages` fetches the same pages and yields the same items as one
/// that does not: the bound is ignored, and only a failed or empty page
/// ends it.
pub proof fn law_unusable_totals_are_ignored<T>(
    pages: Seq<Result<PageData<T>, ClientError>>,
    steps: nat,
)
    requires
        no_usable_total(pages),
    ensures
        walk_trace(walk_start(true), pages, steps).1 == walk_trace(walk_start(false), pages, steps).1,
        walk_trace(walk_start(true), pages, steps).2 == walk_trace(walk_start(false), pages, steps).2,
{
    lemma_unusable_totals(pages, walk_start(true), walk_start(false), steps);
}

/// An auto-paginating walk over the pages of one endpoint.
pub struct PageWalk {
    next_page: u32,
    total: Option<u32>,
    tracks_total: bool,
    finished: bool,
}

impl View for PageWalk {
    type V = WalkState;

    closed spec fn view(&self) -> WalkState {
        WalkState {
            next_page: self.next_page,
            total: self.total,
            tracks_total: self.tracks_total,
            finished: self.finished,
        }
    }
}

impl PageWalk {
    /// A walk that starts at page 1. `tracks_total` is whether the
    /// endpoint's envelope reports `totalPages`.
    pub fn new(tracks_total: bool) -> (w: PageWalk)
        ensures
            w@ == walk_start(tracks_total),
    {
        PageWalk { next_page: 1, total: None, tracks_total, finished: false }
    }

    /// The page to request next, or `None` once the walk has ended.
    pub fn next_page(&self) -> (p: Option<u32>)
        ensures
            p == (if self@.finished { None } else { Some(self@.next_page) }),
    {
        if self.finished {
            None
        } else {
            Some(self.next_page)
        }
    }

    /// Whether the walk has ended.
    pub fn is_finished(&self) -> (b: bool)
        ensures
            b == self@.finished,
    {
        self.finished
    }

    /// Records the outcome of fetching the page that [`Self::next_page`]
    /// named, and returns what the stream yields for it.
    pub fn record<T>(&mut self, fetched: Result<PageData<T>, ClientError>) -> (out: Vec<
        Result<T, ClientError>,
    >)
        requires
            can_advance(old(self)@, report_of(fetched)),
        ensures
            final(self)@ == advance(old(self)@, report_of(fetched)),
            out@ == yields_of(fetched),
    {
        match fetched {
            Err(e) => {
                self.finished = true;
                let mut out = Vec::new();
                out.push(Err(e));
                out
            },
            Ok(data) => {
                let total_pages = data.total_pages;
                match data.items {
                    Err(e) => {
                        self.finished = true;
                        let mut out = Vec::new();
                        out.push(Err(e));
                        out
                    },
                    Ok(items) => {
                        if self.tracks_total && self.total.is_none() {
                            self.total = match total_pages {
                                Some(x) => if x <= 4294967295 {
                                    Some(x as u32)
                                } else {
                                    None
                                },
                                None => None,
                            };
                        }
                        if items.len() == 0 {
                            self.finished = true;
                        } else {
                            self.next_page = self.next_page + 1;
                            self.finished = match self.total {
                                Some(t) => self.next_page > t,
                                None => false,
                            };
                        }
                        wrap_ok(items)
                    },
                }
            },
        }
    }
}

fn wrap_ok<T>(items: Vec<T>) -> (out: Vec<Result<T, ClientError>>)
    ensures
        out@ == items@.map_values(|t: T| Ok::<T, ClientError>(t)),
{
    let ghost orig = items@;
    let mut rest = items;
    let mut out: Vec<Result<T, ClientError>> = Vec::new();
    while rest.len() > 0
        invariant
            out@.len() + rest@.len() == orig.len(),
            rest@ == orig.skip(out@.len() as int),
            out@ == orig.take(out@.len() as int).map_values(|t: T| Ok::<T, ClientError>(t)),
        decreases rest@.len(),
    {
        let ghost k = out@.len() as int;
        let x = rest.remove(0);
        out.push(Ok(x));
        assert(orig.take(k + 1) =~= orig.take(k).push(x));
        assert(rest@ =~= orig.skip(k + 1));
        assert(out@ =~= orig.take(k + 1).map_values(|t: T| Ok::<T, ClientError>(t)));
    }
    assert(orig.take(orig.len() as int) =~= orig);
    out
}

} // verus!
