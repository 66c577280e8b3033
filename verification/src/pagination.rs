//! Enumeration of paginated listings.
//!
//! Cursor-paginated listings are enumerated by a small state machine,
//! [`Depaginator`]: the caller performs each fetch and hands the decoded page
//! back, and the machine decides whether another page is wanted.  The
//! mathematical model of a whole enumeration is [`run`], which folds the
//! machine over the pages a server hands out, in the order it hands them out.

use vstd::prelude::*;

verus! {

/// Number of records asked for per page: the most the service accepts.
pub const PAGE_SIZE: u32 = 100;

/// Once more than this many records have been gathered, no further page is
/// requested.
pub const SAFETY_CEILING: usize = 100_000;

/// One decoded page of a cursor-paginated listing.
#[derive(Debug, Clone)]
pub struct CursorPage<T> {
    pub items: Vec<T>,
    pub next_cursor: Option<String>,
    pub has_next: bool,
}

/// What the enumeration wants next.
#[derive(Debug, Clone)]
pub enum PageRequest {
    /// Fetch one more page, resuming at `cursor` (`None` for the first page).
    Fetch { cursor: Option<String>, limit: u32 },
    /// The enumeration is over.
    Stop,
}

/// Abstract state of an enumeration.
pub struct PagerState<T> {
    /// Records gathered so far, in the order the server returned them.
    pub items: Seq<T>,
    /// Where the next fetch resumes.
    pub cursor: Option<Seq<char>>,
    /// Whether the enumeration has ended.
    pub done: bool,
}

/// Abstract history of an enumeration: its state, the number of fetches
/// made, and the progress counts reported, oldest first.
pub struct Trace<T> {
    pub state: PagerState<T>,
    pub fetched: nat,
    pub reports: Seq<nat>,
}

/// An optional string by its text.
pub open spec fn cursor_view(cursor: Option<String>) -> Option<Seq<char>> {
    match cursor {
        Some(c) => Some(c@),
        None => None,
    }
}

/// The state before the first fetch.
pub open spec fn initial_state<T>() -> PagerState<T> {
    PagerState { items: Seq::empty(), cursor: None, done: false }
}

/// The state after `page` arrives in state `s`.
///
/// An empty page ends the enumeration whatever its flags say.  A non-empty
/// page is appended; the enumeration then ends if the page announces no
/// successor, carries no cursor, or lifted the total above the ceiling.
pub open spec fn advance<T>(s: PagerState<T>, page: CursorPage<T>) -> PagerState<T> {
    if s.done {
        s
    } else if page.items@.len() == 0 {
        PagerState { done: true, ..s }
    } else if !page.has_next || page.next_cursor is None {
        PagerState { items: s.items + page.items@, cursor: s.cursor, done: true }
    } else {
        PagerState {
            items: s.items + page.items@,
            cursor: cursor_view(page.next_cursor),
            done: s.items.len() + page.items@.len() > SAFETY_CEILING,
        }
    }
}

/// The progress count to report when `page` arrives in state `s`: the new
/// total, for every non-empty page that is accepted.
pub open spec fn progress<T>(s: PagerState<T>, page: CursorPage<T>) -> Option<nat> {
    if s.done || page.items@.len() == 0 {
        None
    } else {
        Some(s.items.len() + page.items@.len())
    }
}

/// The history after one more fetch answered by `page`.
pub open spec fn record<T>(t: Trace<T>, page: CursorPage<T>) -> Trace<T> {
    if t.state.done {
        t
    } else {
        Trace {
            state: advance(t.state, page),
            fetched: t.fetched + 1,
            reports: match progress(t.state, page) {
                Some(n) => t.reports.push(n),
                None => t.reports,
            },
        }
    }
}

/// The history of an enumeration against a server that answers the i-th
/// fetch with `pages[i]`.  Pages after the one that ends the enumeration are
/// never fetched.
pub open spec fn run<T>(pages: Seq<CursorPage<T>>) -> Trace<T>
    decreases pages.len(),
{
    if pages.len() == 0 {
        Trace { state: initial_state(), fetched: 0, reports: Seq::empty() }
    } else {
        record(run(pages.drop_last()), pages.last())
    }
}

/// All records of `pages`, page after page.
pub open spec fn concat_items<T>(pages: Seq<CursorPage<T>>) -> Seq<T>
    decreases pages.len(),
{
    if pages.len() == 0 {
        Seq::empty()
    } else {
        concat_items(pages.drop_last()) + pages.last().items@
    }
}

/// A page that asks for the enumeration to go on: it holds records,
/// announces a successor and names the cursor to resume at.
pub open spec fn continues<T>(page: CursorPage<T>) -> bool {
    page.items@.len() > 0 && page.has_next && page.next_cursor is Some
}

/// The state machine behind the enumeration of a cursor-paginated listing.
pub struct Depaginator<T> {
    items: Vec<T>,
    cursor: Option<String>,
    done: bool,
}

impl<T> View for Depaginator<T> {
    type V = PagerState<T>;

    closed spec fn view(&self) -> PagerState<T> {
        PagerState { items: self.items@, cursor: cursor_view(self.cursor), done: self.done }
    }
}

impl<T> Depaginator<T> {
    /// An enumeration that has fetched nothing yet.
    pub fn new() -> (d: Self)
        ensures
            d@ == initial_state::<T>(),
    {
        Depaginator { items: Vec::new(), cursor: None, done: false }
    }

    /// Whether the enumeration has ended.
    pub fn is_done(&self) -> (b: bool)
        ensures
            b == self@.done,
    {
        self.done
    }

    /// Number of records gathered so far.
    pub fn len(&self) -> (n: usize)
        ensures
            n == self@.items.len(),
    {
        self.items.len()
    }

    /// The next fetch to perform, or `Stop` once the enumeration has ended.
    pub fn next_request(&self) -> (req: PageRequest)
        ensures
            self@.done ==> req is Stop,
            !self@.done ==> (req matches PageRequest::Fetch { cursor, limit } && cursor_view(cursor)
                == self@.cursor && limit == PAGE_SIZE),
    {
        if self.done {
            PageRequest::Stop
        } else {
            PageRequest::Fetch { cursor: self.cursor.clone(), limit: PAGE_SIZE }
        }
    }

    /// Takes in the page that answered the last request.  Returns the count
    /// to report as progress, if this page calls for a report.
    pub fn accept(&mut self, page: CursorPage<T>) -> (report: Option<usize>)
        ensures
            final(self)@ == advance(old(self)@, page),
            match progress(old(self)@, page) {
                Some(n) => report == Some(n as usize) && n <= usize::MAX,
                None => report is None,
            },
            !final(self)@.done ==> final(self)@.items.len() <= SAFETY_CEILING,
    {
        if self.done {
            return None;
        }
        let mut page = page;
        if page.items.len() == 0 {
            self.done = true;
            return None;
        }
        self.items.append(&mut page.items);
        let total: usize = self.items.len();
        if !page.has_next || page.next_cursor.is_none() {
            self.done = true;
            return Some(total);
        }
        self.cursor = page.next_cursor;
        if total > SAFETY_CEILING {
            self.done = true;
        }
        Some(total)
    }

    /// Ends the enumeration and hands out the records gathered.
    pub fn into_items(self) -> (items: Vec<T>)
        ensures
            items@ == self@.items,
    {
        self.items
    }
}

/// What an enumeration over pages already at hand produced.
#[derive(Debug, Clone)]
pub struct Replay<T> {
    /// The records gathered, in order.
    pub items: Vec<T>,
    /// Number of pages that were consumed.
    pub fetched: usize,
    /// The progress counts, one per non-empty page consumed.
    pub reports: Vec<usize>,
}

/// The progress counts as numbers.
pub open spec fn counts_view(reports: Seq<usize>) -> Seq<nat> {
    Seq::new(reports.len(), |i: int| reports[i] as nat)
}

/// Runs the enumeration against pages already at hand: the i-th request is
/// answered by `pages[i]`, and the enumeration ends early if the pages run
/// out.
pub fn collect_pages<T>(pages: Vec<CursorPage<T>>) -> (out: Replay<T>)
    ensures
        out.items@ == run(pages@).state.items,
        out.fetched == run(pages@).fetched,
        counts_view(out.reports@) == run(pages@).reports,
{
    let ghost all = pages@;
    let mut pager: Depaginator<T> = Depaginator::new();
    let mut fetched: usize = 0;
    let mut reports: Vec<usize> = Vec::with_capacity(pages.len());
    proof {
        assert(counts_view(reports@) =~= run(all.take(0)).reports);
    }
    for page in it: pages
        invariant
            it.seq() == all,
            all.len() <= usize::MAX,
            pager@ == run(all.take(it.index() as int)).state,
            fetched == run(all.take(it.index() as int)).fetched,
            fetched <= it.index(),
            counts_view(reports@) == run(all.take(it.index() as int)).reports,
    {
        let ghost k = it.index() as int;
        proof {
            assert(all.take(k + 1).drop_last() =~= all.take(k));
            assert(all.take(k + 1).last() == page);
        }
        if !pager.is_done() {
            let ghost before = reports@;
            let report = pager.accept(page);
            fetched = fetched + 1;
            if let Some(n) = report {
                reports.push(n);
                proof {
                    assert(counts_view(reports@) =~= counts_view(before).push(n as nat));
                }
            }
        }
    }
    proof {
        assert(all.take(all.len() as int) =~= all);
    }
    Replay { items: pager.into_items(), fetched, reports }
}

/// Records are only ever appended: every enumeration returns the pages it
/// consumed, concatenated in the order they were served, and consumes no
/// page after the one that ended it.
pub proof fn lemma_run_is_prefix_concat<T>(pages: Seq<CursorPage<T>>)
    ensures
        run(pages).fetched <= pages.len(),
        !run(pages).state.done ==> run(pages).fetched == pages.len(),
        run(pages).state.items == concat_items(pages.take(run(pages).fetched as int)),
    decreases pages.len(),
{
    if pages.len() == 0 {
        assert(pages.take(0) =~= pages);
    } else {
        let front = pages.drop_last();
        lemma_run_is_prefix_concat(front);
        let before = run(front);
        if before.state.done {
            assert(front.take(before.fetched as int) =~= pages.take(before.fetched as int));
        } else {
            let n = pages.len() as int;
            assert(front.take(n - 1) =~= front);
            assert(pages.take(n) =~= pages);
            if pages.last().items@.len() == 0 {
                assert(concat_items(pages) =~= concat_items(front));
            }
        }
    }
}

/// Once an enumeration has ended on a prefix of the pages, what the server
/// would have served afterwards changes nothing.
pub proof fn lemma_done_is_final<T>(pages: Seq<CursorPage<T>>, k: int)
    requires
        0 <= k <= pages.len(),
        run(pages.take(k)).state.done,
    ensures
        run(pages) == run(pages.take(k)),
    decreases pages.len() - k,
{
    if k == pages.len() {
        assert(pages.take(k) =~= pages);
    } else {
        let front = pages.drop_last();
        assert(front.take(k) =~= pages.take(k));
        lemma_done_is_final(front, k);
    }
}

/// The length of the concatenation grows with the prefix.
pub proof fn lemma_concat_len_monotone<T>(pages: Seq<CursorPage<T>>, i: int, j: int)
    requires
        0 <= i <= j <= pages.len(),
    ensures
        concat_items(pages.take(i)).len() <= concat_items(pages.take(j)).len(),
    decreases j - i,
{
    if i < j {
        lemma_concat_len_monotone(pages, i, j - 1);
        assert(pages.take(j).drop_last() =~= pages.take(j - 1));
    }
}

/// A listing served as any number of pages that each continue, followed by
/// one last page that announces no successor, is returned whole and in
/// order: the result is the concatenation of all pages, each record once.
/// The pages before the last must together stay within the safety ceiling,
/// or the last page is never asked for.
pub proof fn lemma_full_listing<T>(pages: Seq<CursorPage<T>>)
    requires
        pages.len() >= 1,
        forall|i: int| 0 <= i < pages.len() - 1 ==> continues(#[trigger] pages[i]),
        !pages.last().has_next,
        concat_items(pages.drop_last()).len() <= SAFETY_CEILING,
    ensures
        run(pages).state.done,
        run(pages).state.items == concat_items(pages),
        run(pages).fetched == pages.len(),
{
    let n = pages.len() as int;
    lemma_continuing_prefix(pages, n - 1);
    assert(pages.take(n - 1) =~= pages.drop_last());
    if pages.last().items@.len() == 0 {
        assert(concat_items(pages) =~= concat_items(pages.drop_last()));
    }
}

/// While every page so far continues and the total stays within the
/// ceiling, the enumeration is still going and holds all of them.
pub proof fn lemma_continuing_prefix<T>(pages: Seq<CursorPage<T>>, k: int)
    requires
        0 <= k <= pages.len(),
        forall|i: int| 0 <= i < k ==> continues(#[trigger] pages[i]),
        concat_items(pages.take(k)).len() <= SAFETY_CEILING,
    ensures
        !run(pages.take(k)).state.done,
        run(pages.take(k)).state.items == concat_items(pages.take(k)),
        run(pages.take(k)).fetched == k,
        run(pages.take(k)).reports.len() == k,
    decreases k,
{
    if k > 0 {
        assert(pages.take(k).drop_last() =~= pages.take(k - 1));
        assert(pages.take(k).last() == pages[k - 1]);
        lemma_concat_len_monotone(pages, k - 1, k);
        lemma_continuing_prefix(pages, k - 1);
    }
}

/// An empty page ends the enumeration at once, whatever its flags say: the
/// result is what had been gathered before it, and nothing is reported for
/// it.
pub proof fn lemma_empty_page_ends_run<T>(pages: Seq<CursorPage<T>>, k: int)
    requires
        0 <= k < pages.len(),
        !run(pages.take(k)).state.done,
        pages[k].items@.len() == 0,
    ensures
        run(pages).state.done,
        run(pages).state.items == run(pages.take(k)).state.items,
        run(pages).reports == run(pages.take(k)).reports,
        run(pages).fetched == k + 1,
{
    assert(pages.take(k + 1).drop_last() =~= pages.take(k));
    assert(pages.take(k + 1).last() == pages[k]);
    lemma_run_is_prefix_concat(pages.take(k));
    lemma_done_is_final(pages, k + 1);
}

/// The first page is asked for without a cursor, and every later page with
/// the cursor that the page before it named.
pub proof fn lemma_cursor_follows_server<T>(pages: Seq<CursorPage<T>>, k: int)
    requires
        0 <= k <= pages.len(),
        !run(pages.take(k)).state.done,
    ensures
        k == 0 ==> run(pages.take(k)).state.cursor is None,
        k > 0 ==> run(pages.take(k)).state.cursor == cursor_view(pages[k - 1].next_cursor),
{
    if k > 0 {
        assert(pages.take(k).drop_last() =~= pages.take(k - 1));
        assert(pages.take(k).last() == pages[k - 1]);
    }
}

/// No enumeration goes on without bound: against any server at all, it
/// makes at most `SAFETY_CEILING + 1` fetches, and as long as it has not
/// ended it holds at most `SAFETY_CEILING` records.
pub proof fn lemma_run_is_bounded<T>(pages: Seq<CursorPage<T>>)
    ensures
        run(pages).fetched <= SAFETY_CEILING + 1,
        !run(pages).state.done ==> run(pages).fetched <= run(pages).state.items.len()
            <= SAFETY_CEILING,
    decreases pages.len(),
{
    if pages.len() > 0 {
        lemma_run_is_bounded(pages.drop_last());
    }
}

/// Against a server that never serves an empty page and never signals the
/// end, the enumeration still ends, as soon as the total passes the safety
/// ceiling: it stops on the first page that lifts the total above the
/// ceiling and returns everything up to and including that page.
pub proof fn lemma_ceiling_ends_run<T>(pages: Seq<CursorPage<T>>)
    requires
        forall|i: int| 0 <= i < pages.len() ==> continues(#[trigger] pages[i]),
        pages.len() > SAFETY_CEILING,
    ensures
        run(pages).state.done,
        run(pages).state.items.len() > SAFETY_CEILING,
        1 <= run(pages).fetched <= SAFETY_CEILING + 1,
        run(pages).state.items == concat_items(pages.take(run(pages).fetched as int)),
        concat_items(pages.take(run(pages).fetched - 1)).len() <= SAFETY_CEILING,
{
    lemma_run_is_bounded(pages);
    lemma_run_is_prefix_concat(pages);
    lemma_stops_only_above_ceiling(pages, pages.len() as int);
    assert(pages.take(pages.len() as int) =~= pages);
}

/// Against pages that all continue, an enumeration that has ended did so by
/// passing the ceiling with the last page it consumed.
pub proof fn lemma_stops_only_above_ceiling<T>(pages: Seq<CursorPage<T>>, k: int)
    requires
        0 <= k <= pages.len(),
        forall|i: int| 0 <= i < k ==> continues(#[trigger] pages[i]),
    ensures
        run(pages.take(k)).state.done ==> {
            &&& run(pages.take(k)).fetched >= 1
            &&& run(pages.take(k)).state.items.len() > SAFETY_CEILING
            &&& concat_items(pages.take(run(pages.take(k)).fetched - 1)).len() <= SAFETY_CEILING
        },
    decreases k,
{
    if k > 0 {
        assert(pages.take(k).drop_last() =~= pages.take(k - 1));
        assert(pages.take(k).last() == pages[k - 1]);
        lemma_stops_only_above_ceiling(pages, k - 1);
        let before = run(pages.take(k - 1));
        if !before.state.done {
            lemma_run_is_prefix_concat(pages.take(k - 1));
            lemma_run_is_bounded(pages.take(k - 1));
            assert(pages.take(k - 1).take(k - 1) =~= pages.take(k - 1));
        }
    }
}

/// Progress is reported exactly once for each non-empty page consumed and
/// never for an empty one; each report is the number of records gathered up
/// to and including that page; and the reports never decrease.
pub proof fn lemma_progress_reports<T>(pages: Seq<CursorPage<T>>)
    ensures
        run(pages).reports.len() <= run(pages).fetched <= run(pages).reports.len() + 1,
        !run(pages).state.done ==> run(pages).reports.len() == run(pages).fetched,
        forall|i: int|
            0 <= i < run(pages).reports.len() ==> (#[trigger] pages[i]).items@.len() > 0,
        forall|i: int|
            0 <= i < run(pages).fetched && (#[trigger] pages[i]).items@.len() > 0 ==> i < run(
                pages,
            ).reports.len(),
        forall|i: int|
            0 <= i < run(pages).reports.len() ==> #[trigger] run(pages).reports[i]
                == concat_items(pages.take(i + 1)).len(),
        forall|i: int, j: int|
            0 <= i <= j < run(pages).reports.len() ==> run(pages).reports[i] <= run(
                pages,
            ).reports[j],
        run(pages).reports.len() > 0 ==> run(pages).reports.last()
            == run(pages).state.items.len(),
    decreases pages.len(),
{
    lemma_run_is_prefix_concat(pages);
    if pages.len() > 0 {
        let front = pages.drop_last();
        let n = pages.len() as int;
        lemma_progress_reports(front);
        lemma_run_is_prefix_concat(front);
        let before = run(front);
        let after = run(pages);
        assert forall|i: int| 0 <= i < after.reports.len() implies (#[trigger] pages[i]).items@.len()
            > 0 by {
            if i < before.reports.len() {
                assert(front[i] == pages[i]);
            }
        }
        assert forall|i: int|
            0 <= i < after.fetched && (#[trigger] pages[i]).items@.len() > 0 implies i
            < after.reports.len() by {
            if i < before.fetched {
                assert(front[i] == pages[i]);
            }
        }
        assert forall|i: int| 0 <= i < before.reports.len() implies #[trigger] front.take(i + 1)
            == pages.take(i + 1) by {
            assert(front.take(i + 1) =~= pages.take(i + 1));
        }
        assert forall|i: int| 0 <= i < after.reports.len() implies #[trigger] after.reports[i]
            == concat_items(pages.take(i + 1)).len() by {
            if i < before.reports.len() {
                assert(after.reports[i] == before.reports[i]);
            } else {
                assert(after.fetched == n);
                assert(i == n - 1);
            }
        }
        assert forall|i: int, j: int| 0 <= i <= j < after.reports.len() implies after.reports[i]
            <= after.reports[j] by {
            if j < before.reports.len() {
                assert(after.reports[i] == before.reports[i]);
                assert(after.reports[j] == before.reports[j]);
            } else if i < before.reports.len() {
                assert(after.reports[i] == before.reports[i]);
                assert(before.reports[i] <= before.reports.last());
            }
        }
    }
}

} // verus!
