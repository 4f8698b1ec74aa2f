//! The pager: it hands out a result page by page, keeps what a page did not
//! deliver under the handle of the backend and a sequence number, and lets
//! go of it when the last page is served or the query is cancelled.

use std::collections::HashMap;
use vstd::prelude::*;
use vstd::slice::slice_subrange;
use vstd::std_specs::iter::IteratorSpec;
use crate::paging::{lemma_page_len_is_greedy, page, select_slice_of_size};
use crate::values::{DbResult, Row, RowView, rows_view};

verus! {

/// The page size that a new pager starts with, in estimated bytes: two MiB.
pub const DEFAULT_MAX_PAGE_SIZE: usize = 2097152;

/// One page of a result, as it is handed to the caller.
pub struct DbResponse {
    /// The rows of the page.
    pub result: Option<DbResult>,
    /// The sequence number of the query that the page belongs to.
    pub sequence_number: i32,
    /// Number of rows of the whole result.
    pub row_count: usize,
    /// Index in the whole result of the first row of the page.
    pub start_index: usize,
}

/// A `DbResponse` as mathematical values.
pub struct DbResponseView {
    pub result: Option<Seq<RowView>>,
    pub sequence_number: i32,
    pub row_count: nat,
    pub start_index: nat,
}

impl View for DbResponse {
    type V = DbResponseView;

    open spec fn view(&self) -> DbResponseView {
        DbResponseView {
            result: match self.result {
                Some(r) => Some(r@),
                None => None,
            },
            sequence_number: self.sequence_number,
            row_count: self.row_count as nat,
            start_index: self.start_index as nat,
        }
    }
}

/// The rows of `rows` from `start_index` on; none where `start_index` is past
/// the last row.
pub open spec fn rows_from(rows: Seq<RowView>, start_index: nat) -> Seq<RowView> {
    if start_index < rows.len() {
        rows.skip(start_index as int)
    } else {
        Seq::empty()
    }
}

/// The state of a pager as mathematical values.
pub struct PagerView {
    /// The results that are not delivered in full, each under the handle of
    /// its backend and its sequence number.
    pub cached: Map<(i64, i32), Seq<RowView>>,
    /// The highest sequence number that counts as issued: the one that was
    /// issued last, or a higher one that a caller handed in with a first
    /// page; 0 before the first.
    pub sequence_number: i32,
    /// The budget of a page, in estimated bytes.
    pub max_page_size: usize,
}

impl PagerView {
    /// No cached result is empty, no sequence number issued is negative, and
    /// no cached result is kept under a number that is yet to be issued.
    pub open spec fn wf(self) -> bool {
        &&& self.sequence_number >= 0
        &&& forall|k: (i64, i32)| #[trigger] self.cached.contains_key(k) ==> self.cached[k].len() > 0
        &&& self.all_issued()
    }

    /// Every cached result is kept under a sequence number that counts as
    /// issued: none is ahead of the number that was issued last, so that
    /// the numbers yet to be issued are in use for no handle.
    pub open spec fn all_issued(self) -> bool {
        forall|k: (i64, i32)| #[trigger] self.cached.contains_key(k) ==> k.1 <= self.sequence_number
    }

    /// The state in which `sequence_number` counts as issued: the counter is
    /// raised to it where it was behind.
    pub open spec fn with_issued(self, sequence_number: i32) -> PagerView {
        PagerView {
            sequence_number: if self.sequence_number < sequence_number {
                sequence_number
            } else {
                self.sequence_number
            },
            ..self
        }
    }

    /// The sequence numbers under which results of `handle` are cached.
    pub open spec fn active(self, handle: i64) -> Set<i32> {
        Set::new(|s: i32| self.cached.contains_key((handle, s)))
    }

    /// The state with another budget for a page.
    pub open spec fn with_max_page_size(self, size: usize) -> PagerView {
        PagerView { max_page_size: size, ..self }
    }

    /// The state after the next sequence number was issued.
    pub open spec fn after_issue(self) -> PagerView {
        PagerView { sequence_number: (self.sequence_number + 1) as i32, ..self }
    }

    /// The first page of a result of `rows`.
    pub open spec fn first_response(self, rows: Seq<RowView>, sequence_number: i32) -> DbResponseView {
        DbResponseView {
            result: Some(page(rows, self.max_page_size as nat)),
            sequence_number,
            row_count: rows.len(),
            start_index: 0,
        }
    }

    /// The state after the first page of `rows` was served under
    /// `sequence_number`: the number counts as issued, and the result is
    /// cached where the page does not hold all of it.
    pub open spec fn after_first(self, handle: i64, rows: Seq<RowView>, sequence_number: i32) -> PagerView {
        let issued = self.with_issued(sequence_number);
        if page(rows, self.max_page_size as nat).len() < rows.len() {
            PagerView { cached: issued.cached.insert((handle, sequence_number), rows), ..issued }
        } else {
            issued
        }
    }

    /// The page that starts at `start_index` of the result cached under
    /// `handle` and `sequence_number`; `None` where no such result is cached.
    pub open spec fn next_response(self, handle: i64, sequence_number: i32, start_index: nat) -> Option<
        DbResponseView,
    > {
        if self.cached.contains_key((handle, sequence_number)) {
            let rows = self.cached[(handle, sequence_number)];
            Some(
                DbResponseView {
                    result: Some(page(rows_from(rows, start_index), self.max_page_size as nat)),
                    sequence_number,
                    row_count: rows.len(),
                    start_index,
                },
            )
        } else {
            None
        }
    }

    /// Whether the page that starts at `start_index` holds all the rows from
    /// there on.
    pub open spec fn is_last_page(self, handle: i64, sequence_number: i32, start_index: nat) -> bool {
        let rest = rows_from(self.cached[(handle, sequence_number)], start_index);
        page(rest, self.max_page_size as nat).len() == rest.len()
    }

    /// The state after the page that starts at `start_index` was served: the
    /// result is let go of with its last page.
    pub open spec fn after_next(self, handle: i64, sequence_number: i32, start_index: nat) -> PagerView {
        if self.cached.contains_key((handle, sequence_number)) && self.is_last_page(
            handle,
            sequence_number,
            start_index,
        ) {
            self.without(handle, sequence_number)
        } else {
            self
        }
    }

    /// The state without the result cached under `handle` and
    /// `sequence_number`.
    pub open spec fn without(self, handle: i64, sequence_number: i32) -> PagerView {
        PagerView { cached: self.cached.remove((handle, sequence_number)), ..self }
    }

    /// The state without the results cached under `handle`.
    pub open spec fn without_handle(self, handle: i64) -> PagerView {
        PagerView {
            cached: Map::new(
                |k: (i64, i32)| self.cached.contains_key(k) && k.0 != handle,
                |k: (i64, i32)| self.cached[k],
            ),
            ..self
        }
    }
}

impl PagerView {
    /// A bound on the number of pages that can still be fetched of the
    /// result cached under `handle` and `sequence_number`, from
    /// `start_index` on.
    pub open spec fn fetches_left(self, handle: i64, sequence_number: i32, start_index: nat) -> nat {
        if !self.cached.contains_key((handle, sequence_number)) {
            0
        } else if start_index >= self.cached[(handle, sequence_number)].len() {
            1
        } else {
            (self.cached[(handle, sequence_number)].len() - start_index + 1) as nat
        }
    }

    /// What a caller gets who fetches page after page of the result cached
    /// under `handle` and `sequence_number`, the first at `start_index` and
    /// each further one at the index that follows the page before, until no
    /// result is found: the rows of the pages, one after the other, and the
    /// state that is left.
    pub open spec fn fetch_all(self, handle: i64, sequence_number: i32, start_index: nat) -> (
        Seq<RowView>,
        PagerView,
    )
        decreases self.fetches_left(handle, sequence_number, start_index),
    {
        match self.next_response(handle, sequence_number, start_index) {
            None => (Seq::empty(), self),
            Some(response) => {
                let served = response.result->0;
                proof {
                    lemma_page_len_is_greedy(
                        rows_from(self.cached[(handle, sequence_number)], start_index),
                        self.max_page_size as nat,
                    );
                }
                let rest = self.after_next(handle, sequence_number, start_index).fetch_all(
                    handle,
                    sequence_number,
                    start_index + served.len(),
                );
                (served + rest.0, rest.1)
            },
        }
    }
}

/// The pager of one process: the results that are not delivered in full, the
/// counter of sequence numbers, and the budget of a page.
pub struct Pager {
    cache: HashMap<i64, HashMap<i32, DbResult>>,
    sequence_number: i32,
    max_page_size: usize,
}

impl View for Pager {
    type V = PagerView;

    closed spec fn view(&self) -> PagerView {
        PagerView {
            cached: Map::new(
                |k: (i64, i32)| self.cache@.contains_key(k.0) && self.cache@[k.0]@.contains_key(k.1),
                |k: (i64, i32)| self.cache@[k.0]@[k.1]@,
            ),
            sequence_number: self.sequence_number,
            max_page_size: self.max_page_size,
        }
    }
}

impl Pager {
    /// Whether the state is one that the operations below keep to.
    pub open spec fn wf(&self) -> bool {
        self@.wf()
    }

    /// A pager that has nothing cached and has issued no sequence number.
    pub fn new() -> (pager: Pager)
        ensures
            pager.wf(),
            pager@.all_issued(),
            pager@.cached == Map::<(i64, i32), Seq<RowView>>::empty(),
            pager@.sequence_number == 0,
            pager@.max_page_size == DEFAULT_MAX_PAGE_SIZE,
    {
        let pager = Pager {
            cache: HashMap::new(),
            sequence_number: 0,
            max_page_size: DEFAULT_MAX_PAGE_SIZE,
        };
        assert(pager@.cached =~= Map::<(i64, i32), Seq<RowView>>::empty());
        pager
    }

    /// Sets the budget of a page, in estimated bytes.
    pub fn set_max_page_size(&mut self, size: usize)
        ensures
            final(self)@ == old(self)@.with_max_page_size(size),
            old(self)@.all_issued() ==> final(self)@.all_issued(),
            old(self).wf() ==> final(self).wf(),
    {
        self.max_page_size = size;
        assert(self@ == old(self)@.with_max_page_size(size));
    }

    /// The budget of a page, in estimated bytes.
    pub fn get_max_page_size(&self) -> (size: usize)
        ensures
            size == self@.max_page_size,
    {
        self.max_page_size
    }

    /// The highest sequence number that counts as issued; 0 where none does.
    pub fn last_sequence_number(&self) -> (n: i32)
        ensures
            n == self@.sequence_number,
    {
        self.sequence_number
    }

    /// Issues the next sequence number: one more than the last, the first
    /// being 1. The number is in use for no handle. The counter is not
    /// guarded against running over: a caller has to stop before `i32::MAX`
    /// numbers were issued.
    pub fn next_sequence_number(&mut self) -> (n: i32)
        requires
            old(self).wf(),
            old(self)@.sequence_number < i32::MAX,
        ensures
            n == old(self)@.sequence_number + 1,
            n >= 1,
            forall|handle: i64| !old(self)@.cached.contains_key((handle, n)),
            final(self)@ == old(self)@.after_issue(),
            final(self)@.all_issued(),
            final(self).wf(),
    {
        self.sequence_number = self.sequence_number + 1;
        self.sequence_number
    }

    /// Lets go of the result cached under `ptr` and `sequence_number`, if
    /// there is one.
    pub fn flush_cache(&mut self, ptr: &i64, sequence_number: i32)
        ensures
            final(self)@ == old(self)@.without(*ptr, sequence_number),
            old(self)@.all_issued() ==> final(self)@.all_issued(),
            old(self).wf() ==> final(self).wf(),
    {
        match self.cache.remove(ptr) {
            Some(sequences) => {
                let mut sequences = sequences;
                sequences.remove(&sequence_number);
                self.cache.insert(*ptr, sequences);
            },
            None => {},
        }
        assert(self@.cached =~= old(self)@.without(*ptr, sequence_number).cached);
    }

    /// The sequence numbers under which results of `ptr` are cached, each
    /// once, in no particular order.
    pub fn active_sequences(&self, ptr: i64) -> (sequences: Vec<i32>)
        ensures
            sequences@.to_set() == self@.active(ptr),
            sequences@.no_duplicates(),
    {
        let mut sequences: Vec<i32> = Vec::new();
        match self.cache.get(&ptr) {
            Some(inner) => {
                let keys = inner.keys();
                let ghost all = keys.remaining();
                for k in it: keys
                    invariant
                        it.seq() == all,
                        sequences@ == all.take(it.index()).unref(),
                {
                    sequences.push(*k);
                    assert(sequences@ =~= all.take(it.index() + 1).unref());
                }
                assert(sequences@ =~= all.unref());
                assert(sequences@.to_set() =~= self@.active(ptr));
            },
            None => {
                assert(sequences@.to_set() =~= self@.active(ptr));
            },
        }
        sequences
    }

    /// Chooses the rows of the next page of `rows` under the budget that is
    /// set.
    pub fn select_next_slice(&self, rows: &[Row]) -> (selected: Vec<Row>)
        ensures
            rows_view(selected@) == page(rows_view(rows@), self@.max_page_size as nat),
    {
        select_slice_of_size(rows, self.max_page_size).1
    }

    /// Keeps `values` under `ptr` and `sequence_number`, in place of what was
    /// kept there before.
    fn store(&mut self, ptr: i64, sequence_number: i32, values: DbResult)
        ensures
            final(self)@ == (PagerView {
                cached: old(self)@.cached.insert((ptr, sequence_number), values@),
                ..old(self)@
            }),
    {
        let mut sequences = match self.cache.remove(&ptr) {
            Some(sequences) => sequences,
            None => HashMap::new(),
        };
        sequences.insert(sequence_number, values);
        self.cache.insert(ptr, sequences);
        assert(self@.cached =~= old(self)@.cached.insert((ptr, sequence_number), values@));
    }

    /// Issues the next sequence number, keeps `values` under `ptr` and that
    /// number, and returns the number. The number is in use for no handle
    /// before, so that no result that is kept is replaced.
    fn insert_cache(&mut self, ptr: i64, values: DbResult) -> (n: i32)
        requires
            old(self).wf(),
            old(self)@.all_issued(),
            old(self)@.sequence_number < i32::MAX,
            values@.len() > 0,
        ensures
            n == old(self)@.sequence_number + 1,
            n != 0,
            forall|handle: i64| !old(self)@.cached.contains_key((handle, n)),
            final(self)@ == (PagerView {
                cached: old(self)@.cached.insert((ptr, n), values@),
                sequence_number: n,
                ..old(self)@
            }),
            final(self)@.all_issued(),
            final(self).wf(),
    {
        let n = self.next_sequence_number();
        self.store(ptr, n, values);
        n
    }

    /// Serves the first page of `values` under `sequence_number`, and keeps
    /// `values` under `backend_ptr` and `sequence_number` where the page does
    /// not hold all of its rows, in place of what was kept there before. The
    /// number counts as issued from then on: the counter is raised to it
    /// where it was behind, so that no number that is issued later is this
    /// one.
    pub fn trim_and_cache_remaining(
        &mut self,
        backend_ptr: i64,
        values: DbResult,
        sequence_number: i32,
    ) -> (response: DbResponse)
        ensures
            response@ == old(self)@.first_response(values@, sequence_number),
            final(self)@ == old(self)@.after_first(backend_ptr, values@, sequence_number),
            old(self)@.all_issued() ==> final(self)@.all_issued(),
            old(self).wf() ==> final(self).wf(),
    {
        let first_result = self.select_next_slice(values.rows.as_slice());
        let row_count = values.rows.len();
        if self.sequence_number < sequence_number {
            self.sequence_number = sequence_number;
        }
        assert(self@ == old(self)@.with_issued(sequence_number));
        assert(old(self)@.all_issued() ==> self@.all_issued());
        if first_result.len() < values.rows.len() {
            self.store(backend_ptr, sequence_number, values);
            DbResponse {
                result: Some(DbResult { rows: first_result }),
                sequence_number,
                row_count,
                start_index: 0,
            }
        } else {
            proof {
                let first = page(values@, self@.max_page_size as nat);
                lemma_page_len_is_greedy(values@, self@.max_page_size as nat);
                assert(rows_view(first_result@).len() == first_result@.len());
                assert(first.len() == values@.len());
                assert(first =~= values@);
            }
            DbResponse { result: Some(values), sequence_number, row_count, start_index: 0 }
        }
    }

    /// Issues the next sequence number and serves the first page of `values`
    /// under it; `values` is kept under `backend_ptr` and that number where
    /// the page does not hold all of its rows. The number is in use for no
    /// handle before, so that no result that is kept is replaced.
    pub fn run_paged_query(&mut self, backend_ptr: i64, values: DbResult) -> (response: DbResponse)
        requires
            old(self).wf(),
            old(self)@.sequence_number < i32::MAX,
        ensures
            response.sequence_number == old(self)@.sequence_number + 1,
            response.sequence_number != 0,
            forall|handle: i64| !old(self)@.cached.contains_key((handle, response.sequence_number)),
            response@ == old(self)@.after_issue().first_response(
                values@,
                (old(self)@.sequence_number + 1) as i32,
            ),
            final(self)@ == old(self)@.after_issue().after_first(
                backend_ptr,
                values@,
                (old(self)@.sequence_number + 1) as i32,
            ),
            final(self)@.all_issued(),
            final(self).wf(),
    {
        let first_result = self.select_next_slice(values.rows.as_slice());
        let row_count = values.rows.len();
        if first_result.len() < values.rows.len() {
            let sequence_number = self.insert_cache(backend_ptr, values);
            DbResponse {
                result: Some(DbResult { rows: first_result }),
                sequence_number,
                row_count,
                start_index: 0,
            }
        } else {
            proof {
                let first = page(values@, self@.max_page_size as nat);
                lemma_page_len_is_greedy(values@, self@.max_page_size as nat);
                assert(rows_view(first_result@).len() == first_result@.len());
                assert(first.len() == values@.len());
                assert(first =~= values@);
            }
            let sequence_number = self.next_sequence_number();
            DbResponse { result: Some(values), sequence_number, row_count, start_index: 0 }
        }
    }

    /// The page that starts at `start_index` of the result kept under `ptr`
    /// and `sequence_number`; `None` where no such result is kept.
    fn get_next_result(&self, ptr: i64, sequence_number: i32, start_index: usize) -> (result: Option<
        DbResponse,
    >)
        ensures
            match result {
                Some(response) => self@.next_response(ptr, sequence_number, start_index as nat)
                    == Some(response@),
                None => self@.next_response(ptr, sequence_number, start_index as nat) is None,
            },
    {
        let sequences = match self.cache.get(&ptr) {
            Some(sequences) => sequences,
            None => {
                return None;
            },
        };
        let current = match sequences.get(&sequence_number) {
            Some(current) => current,
            None => {
                return None;
            },
        };
        let row_count = current.rows.len();
        let from = if start_index < row_count {
            start_index
        } else {
            row_count
        };
        let next_rows = slice_subrange(current.rows.as_slice(), from, row_count);
        assert(rows_view(next_rows@) =~= rows_from(current@, start_index as nat));
        let filtered_rows = self.select_next_slice(next_rows);
        Some(
            DbResponse {
                result: Some(DbResult { rows: filtered_rows }),
                sequence_number,
                row_count,
                start_index,
            },
        )
    }

    /// Serves the page that starts at `start_index` of the result kept under
    /// `ptr` and `sequence_number`, and lets go of the result where the page
    /// holds all the rows from `start_index` on. Returns `None`, and changes
    /// nothing, where no such result is kept.
    pub fn get_next(&mut self, ptr: i64, sequence_number: i32, start_index: usize) -> (result: Option<
        DbResponse,
    >)
        ensures
            match result {
                Some(response) => old(self)@.next_response(
                    ptr,
                    sequence_number,
                    start_index as nat,
                ) == Some(response@),
                None => old(self)@.next_response(ptr, sequence_number, start_index as nat) is None,
            },
            final(self)@ == old(self)@.after_next(ptr, sequence_number, start_index as nat),
            old(self)@.all_issued() ==> final(self)@.all_issued(),
            old(self).wf() ==> final(self).wf(),
    {
        let result = self.get_next_result(ptr, sequence_number, start_index);
        match &result {
            Some(x) => {
                let served = match &x.result {
                    Some(page) => page.rows.len(),
                    None => 0,
                };
                let left = if start_index < x.row_count {
                    x.row_count - start_index
                } else {
                    0
                };
                if served == left {
                    self.flush_cache(&ptr, sequence_number);
                }
            },
            None => {},
        }
        result
    }

    /// Lets go of every result cached under `ptr`.
    pub fn flush_all(&mut self, ptr: &i64)
        ensures
            final(self)@ == old(self)@.without_handle(*ptr),
            old(self)@.all_issued() ==> final(self)@.all_issued(),
            old(self).wf() ==> final(self).wf(),
    {
        self.cache.remove(ptr);
        assert(self@.cached =~= old(self)@.without_handle(*ptr).cached);
    }
}

/// A query that was cancelled is no longer active, and a fetch of it finds
/// nothing; the other results stay as they are.
pub proof fn lemma_cancelled_query_is_gone(
    state: PagerView,
    handle: i64,
    sequence_number: i32,
    start_index: nat,
)
    ensures
        !state.without(handle, sequence_number).active(handle).contains(sequence_number),
        state.without(handle, sequence_number).next_response(handle, sequence_number, start_index)
            is None,
        forall|k: (i64, i32)|
            k != (handle, sequence_number) ==> (#[trigger] state.without(
                handle,
                sequence_number,
            ).cached.contains_key(k) <==> state.cached.contains_key(k)),
        forall|k: (i64, i32)| #[trigger]
            state.without(handle, sequence_number).cached.contains_key(k) ==> state.without(
                handle,
                sequence_number,
            ).cached[k] == state.cached[k],
{
}

/// After all queries of a handle were cancelled, none of them is active, and
/// the results of the other handles stay as they are.
pub proof fn lemma_cancel_all_spares_other_handles(state: PagerView, handle: i64)
    ensures
        state.without_handle(handle).active(handle) == Set::<i32>::empty(),
        forall|other: i64|
            other != handle ==> #[trigger] state.without_handle(handle).active(other)
                == state.active(other),
        forall|k: (i64, i32)|
            k.0 != handle && #[trigger] state.cached.contains_key(k) ==> state.without_handle(
                handle,
            ).cached[k] == state.cached[k],
{
    assert(state.without_handle(handle).active(handle) =~= Set::<i32>::empty());
    assert forall|other: i64| other != handle implies #[trigger] state.without_handle(
        handle,
    ).active(other) == state.active(other) by {
        assert(state.without_handle(handle).active(other) =~= state.active(other));
    }
}

/// The fetch that serves the last page of a result lets go of the result: it
/// is no longer active, and the next fetch of it finds nothing.
pub proof fn lemma_last_page_evicts(
    state: PagerView,
    handle: i64,
    sequence_number: i32,
    start_index: nat,
    later: nat,
)
    requires
        state.cached.contains_key((handle, sequence_number)),
        state.is_last_page(handle, sequence_number, start_index),
    ensures
        !state.after_next(handle, sequence_number, start_index).active(handle).contains(
            sequence_number,
        ),
        state.after_next(handle, sequence_number, start_index).next_response(
            handle,
            sequence_number,
            later,
        ) is None,
{
}

/// Fetching page after page of a cached result, from an index within it,
/// delivers the rows from that index on, in their order and each once, and
/// leaves the state without the result.
pub proof fn lemma_fetch_all_delivers_the_rest(
    state: PagerView,
    handle: i64,
    sequence_number: i32,
    start_index: nat,
)
    requires
        state.cached.contains_key((handle, sequence_number)),
        start_index <= state.cached[(handle, sequence_number)].len(),
    ensures
        state.fetch_all(handle, sequence_number, start_index).0 == state.cached[(
            handle,
            sequence_number,
        )].skip(start_index as int),
        state.fetch_all(handle, sequence_number, start_index).1 == state.without(
            handle,
            sequence_number,
        ),
    decreases state.fetches_left(handle, sequence_number, start_index),
{
    let rows = state.cached[(handle, sequence_number)];
    let rest = rows_from(rows, start_index);
    let served = page(rest, state.max_page_size as nat);
    let next = state.after_next(handle, sequence_number, start_index);
    let cursor = start_index + served.len();
    lemma_page_len_is_greedy(rest, state.max_page_size as nat);
    assert(rest =~= rows.skip(start_index as int));
    if served.len() < rest.len() {
        // rows are left: the result stays cached, and the fetches go on
        // behind the page
        assert(next == state);
        lemma_fetch_all_delivers_the_rest(next, handle, sequence_number, cursor);
        assert(served + rows.skip(cursor as int) =~= rows.skip(start_index as int));
    } else {
        // the page is the last: the result is let go of, and the next fetch
        // finds nothing
        assert(served =~= rest);
        assert(next == state.without(handle, sequence_number));
        assert(next.fetch_all(handle, sequence_number, cursor) == (Seq::<RowView>::empty(), next));
        assert(served + Seq::<RowView>::empty() =~= served);
    }
}

/// The first page of a result under a sequence number that is not in use,
/// followed by the pages that fetching one after the other delivers, is the
/// result: every row in its place, none twice and none left out. After that
/// the query is no longer cached.
pub proof fn lemma_pages_deliver_the_result(
    state: PagerView,
    handle: i64,
    rows: Seq<RowView>,
    sequence_number: i32,
)
    requires
        !state.cached.contains_key((handle, sequence_number)),
    ensures
        ({
            let first = state.first_response(rows, sequence_number).result->0;
            let cached = state.after_first(handle, rows, sequence_number);
            let fetched = cached.fetch_all(handle, sequence_number, first.len());
            &&& first + fetched.0 == rows
            &&& !fetched.1.cached.contains_key((handle, sequence_number))
        }),
{
    let first = page(rows, state.max_page_size as nat);
    let cached = state.after_first(handle, rows, sequence_number);
    lemma_page_len_is_greedy(rows, state.max_page_size as nat);
    if first.len() < rows.len() {
        lemma_fetch_all_delivers_the_rest(cached, handle, sequence_number, first.len());
        assert(first + rows.skip(first.len() as int) =~= rows);
    } else {
        assert(first =~= rows);
        assert(first + Seq::<RowView>::empty() =~= rows);
    }
}

/// The next sequence number is in use for no handle, where every cached
/// result is kept under a number that counts as issued.
pub proof fn lemma_next_sequence_number_is_unused(state: PagerView, handle: i64)
    requires
        state.all_issued(),
        state.sequence_number < i32::MAX,
    ensures
        !state.cached.contains_key((handle, (state.sequence_number + 1) as i32)),
        !state.after_issue().active(handle).contains((state.sequence_number + 1) as i32),
        state.after_issue().all_issued(),
{
}

/// The first page of a query that is run under the next sequence number,
/// followed by the pages that fetching one after the other delivers, is the
/// result of the query, where every cached result is kept under a number
/// that was issued. After that the query is no longer cached.
pub proof fn lemma_paged_query_delivers_the_result(
    state: PagerView,
    handle: i64,
    rows: Seq<RowView>,
)
    requires
        state.all_issued(),
        state.sequence_number < i32::MAX,
    ensures
        ({
            let sequence_number = (state.sequence_number + 1) as i32;
            let issued = state.after_issue();
            let first = issued.first_response(rows, sequence_number).result->0;
            let cached = issued.after_first(handle, rows, sequence_number);
            let fetched = cached.fetch_all(handle, sequence_number, first.len());
            &&& first + fetched.0 == rows
            &&& !fetched.1.cached.contains_key((handle, sequence_number))
        }),
{
    lemma_next_sequence_number_is_unused(state, handle);
    lemma_pages_deliver_the_result(
        state.after_issue(),
        handle,
        rows,
        (state.sequence_number + 1) as i32,
    );
}

/// Serving pages and cancelling queries keeps every cached result under a
/// number that counts as issued, whatever the number that a first page is
/// served under.
pub proof fn lemma_issued_numbers_are_kept(
    state: PagerView,
    handle: i64,
    rows: Seq<RowView>,
    sequence_number: i32,
    start_index: nat,
)
    requires
        state.all_issued(),
    ensures
        state.after_first(handle, rows, sequence_number).all_issued(),
        state.after_next(handle, sequence_number, start_index).all_issued(),
        state.without(handle, sequence_number).all_issued(),
        state.without_handle(handle).all_issued(),
{
}

/// Serving pages and cancelling queries keeps the state well formed: no
/// empty result is cached, and none under a number that is yet to be issued.
pub proof fn lemma_no_empty_result_is_cached(
    state: PagerView,
    handle: i64,
    rows: Seq<RowView>,
    sequence_number: i32,
    start_index: nat,
)
    requires
        state.wf(),
    ensures
        state.after_first(handle, rows, sequence_number).wf(),
        state.after_next(handle, sequence_number, start_index).wf(),
        state.without(handle, sequence_number).wf(),
        state.without_handle(handle).wf(),
{
    lemma_page_len_is_greedy(rows, state.max_page_size as nat);
}

} // verus!
