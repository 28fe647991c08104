//! The paginated fetch loop as a state machine: it decides when to wait,
//! which page to request next and when to stop, while the caller performs
//! the requests and the waiting.
use vstd::prelude::*;

verus! {

/// Records requested per page.
pub const PAGE_LIMIT: u64 = 100;

/// Minimum time between the completion of one request and the start of the
/// next, in milliseconds.
pub const MIN_INTERVAL_MS: u64 = 1000;

/// Estimated size of one record, in bytes.
pub const RECORD_SIZE_ESTIMATE: u64 = 1000;

/// Soft cap on the estimated size of everything fetched, in bytes.
pub const SOFT_CAP_BYTES: u64 = 1_000_000;

/// What the fetch loop asks its driver to do next.
#[derive(Clone, Copy, Debug, PartialEq, Eq, Structural)]
pub enum FetchStep {
    /// Suspend for `ms` milliseconds, then ask again.
    Wait { ms: u64 },
    /// Fetch the page of `limit` records from `offset` on for the subject at
    /// index `subject`, then report it.
    Request { subject: usize, limit: u64, offset: u64 },
    /// Nothing is left to fetch.
    Done,
}

/// The state of a fetch over a list of subjects, as a mathematical value.
pub ghost struct FetchView<R> {
    pub subject_count: nat,
    /// Index of the subject being fetched.
    pub subject: nat,
    /// Offset of the next page of that subject.
    pub offset: nat,
    /// When the last request completed, in milliseconds.
    pub last_ms: nat,
    /// Everything fetched so far, in the order of the requests.
    pub records: Seq<R>,
    /// Whether the soft size cap has tripped.
    pub capped: bool,
}

/// Whether `n` records exceed the soft cap by their estimated size.
pub open spec fn over_soft_cap(n: nat) -> bool {
    n * (RECORD_SIZE_ESTIMATE as nat) > SOFT_CAP_BYTES as nat
}

/// Milliseconds from `last` to `now`; zero if `now` lies before `last`.
pub open spec fn elapsed_ms(last: nat, now: nat) -> nat {
    if now >= last {
        (now - last) as nat
    } else {
        0
    }
}

impl<R> FetchView<R> {
    /// The loop has stopped: every subject is exhausted, or the cap tripped.
    pub open spec fn finished(self) -> bool {
        self.capped || self.subject >= self.subject_count
    }

    /// The states that the loop can reach.
    pub open spec fn inv(self) -> bool {
        &&& self.subject <= self.subject_count
        &&& self.offset <= PAGE_LIMIT * self.records.len()
        &&& !self.capped ==> !over_soft_cap(self.records.len())
    }

    /// What the loop asks for at time `now`.
    pub open spec fn next_step(self, now: nat) -> FetchStep {
        if self.finished() {
            FetchStep::Done
        } else if elapsed_ms(self.last_ms, now) < MIN_INTERVAL_MS {
            FetchStep::Wait { ms: (MIN_INTERVAL_MS - elapsed_ms(self.last_ms, now)) as u64 }
        } else {
            FetchStep::Request {
                subject: self.subject as usize,
                limit: PAGE_LIMIT,
                offset: self.offset as u64,
            }
        }
    }

    /// The state after the requested page arrived at time `now`: an empty
    /// page moves on to the next subject; otherwise its records are appended,
    /// the offset advances by one page and the soft cap is checked.
    pub open spec fn after_page(self, page: Seq<R>, now: nat) -> FetchView<R> {
        if page.len() == 0 {
            FetchView {
                subject_count: self.subject_count,
                subject: self.subject + 1,
                offset: 0,
                last_ms: now,
                records: self.records,
                capped: self.capped,
            }
        } else {
            FetchView {
                subject_count: self.subject_count,
                subject: self.subject,
                offset: self.offset + PAGE_LIMIT as nat,
                last_ms: now,
                records: self.records + page,
                capped: over_soft_cap((self.records + page).len()),
            }
        }
    }
}

/// A rate-limited, paginated fetch over `subject_count` subjects, one after
/// the other, that accumulates the records of every page.
pub struct FetchLoop<R> {
    subject_count: usize,
    subject: usize,
    offset: u64,
    last_request_ms: u64,
    records: Vec<R>,
    capped: bool,
}

impl<R> View for FetchLoop<R> {
    type V = FetchView<R>;

    closed spec fn view(&self) -> FetchView<R> {
        FetchView {
            subject_count: self.subject_count as nat,
            subject: self.subject as nat,
            offset: self.offset as nat,
            last_ms: self.last_request_ms as nat,
            records: self.records@,
            capped: self.capped,
        }
    }
}

impl<R> FetchLoop<R> {
    /// A fetch that starts at `start_ms` with the first page of the first
    /// subject. The start counts as the last request for the rate gate.
    pub fn new(subject_count: usize, start_ms: u64) -> (r: Self)
        ensures
            r@.inv(),
            r@.subject_count == subject_count,
            r@.subject == 0,
            r@.offset == 0,
            r@.last_ms == start_ms,
            r@.records.len() == 0,
            !r@.capped,
    {
        FetchLoop {
            subject_count,
            subject: 0,
            offset: 0,
            last_request_ms: start_ms,
            records: Vec::new(),
            capped: false,
        }
    }

    /// What to do at time `now_ms`: wait out the rest of the minimum
    /// interval since the last request, request the next page, or stop.
    pub fn next_step(&self, now_ms: u64) -> (r: FetchStep)
        requires
            self@.inv(),
        ensures
            r == self@.next_step(now_ms as nat),
    {
        if self.capped || self.subject >= self.subject_count {
            return FetchStep::Done;
        }
        let elapsed: u64 = if now_ms >= self.last_request_ms {
            now_ms - self.last_request_ms
        } else {
            0
        };
        if elapsed < MIN_INTERVAL_MS {
            FetchStep::Wait { ms: MIN_INTERVAL_MS - elapsed }
        } else {
            FetchStep::Request { subject: self.subject, limit: PAGE_LIMIT, offset: self.offset }
        }
    }

    /// Takes the page that the last request returned, completed at `now_ms`.
    pub fn complete_page(&mut self, page: Vec<R>, now_ms: u64)
        requires
            old(self)@.inv(),
            !old(self)@.finished(),
        ensures
            final(self)@ == old(self)@.after_page(page@, now_ms as nat),
            final(self)@.inv(),
    {
        self.last_request_ms = now_ms;
        if page.len() == 0 {
            self.subject = self.subject + 1;
            self.offset = 0;
        } else {
            let ghost old_len = self.records@.len();
            let mut page = page;
            let ghost page_view = page@;
            self.records.append(&mut page);
            assert(self.offset <= 100 * old_len);
            assert(old_len <= 1000) by (nonlinear_arith)
                requires
                    !(old_len * 1000 > 1_000_000),
            ;
            self.offset = self.offset + PAGE_LIMIT;
            let n: u128 = self.records.len() as u128;
            assert(n * 1000 <= 1000 * 0x1_0000_0000_0000_0000) by (nonlinear_arith)
                requires
                    n <= 0x1_0000_0000_0000_0000,
            ;
            if n * (RECORD_SIZE_ESTIMATE as u128) > SOFT_CAP_BYTES as u128 {
                self.capped = true;
            }
            assert(self.records@ == old(self)@.records + page_view);
        }
    }

    /// Takes the outcome of the last request, completed at `now_ms`. A failure
    /// ends the whole fetch: the error comes back and everything fetched so
    /// far is dropped.
    pub fn accept_response<E>(self, response: Result<Vec<R>, E>, now_ms: u64) -> (r: Result<
        Self,
        E,
    >)
        requires
            self@.inv(),
            !self@.finished(),
        ensures
            match response {
                Ok(page) => r matches Ok(next) && next@ == self@.after_page(page@, now_ms as nat)
                    && next@.inv(),
                Err(e) => r == Err::<Self, E>(e),
            },
    {
        match response {
            Ok(page) => {
                let mut next = self;
                next.complete_page(page, now_ms);
                Ok(next)
            },
            Err(e) => Err(e),
        }
    }

    /// Whether the fetch has stopped.
    pub fn is_done(&self) -> (r: bool)
        ensures
            r == self@.finished(),
    {
        self.capped || self.subject >= self.subject_count
    }

    /// Whether the soft size cap stopped the fetch early.
    pub fn hit_soft_cap(&self) -> (r: bool)
        ensures
            r == self@.capped,
    {
        self.capped
    }

    /// Everything fetched, in the order of the requests.
    pub fn into_records(self) -> (r: Vec<R>)
        ensures
            r@ == self@.records,
    {
        self.records
    }
}

/// The rate gate: while subjects remain, a page is requested exactly when at
/// least the minimum interval has passed since the last request completed;
/// until then the loop waits for what is left of the interval, and no longer
/// (a clock that reads earlier than the last completion waits a full interval).
pub proof fn lemma_rate_gate<R>(v: FetchView<R>, now: nat)
    requires
        v.inv(),
        !v.finished(),
    ensures
        v.next_step(now) is Request <==> now >= v.last_ms + MIN_INTERVAL_MS,
        v.next_step(now) matches FetchStep::Wait { ms } ==> 0 < ms <= MIN_INTERVAL_MS && (now
            >= v.last_ms ==> now + ms == v.last_ms + MIN_INTERVAL_MS),
{
}

/// The interval is measured from when the previous request finished: after a
/// page arrives at `done`, the next request goes out no sooner than `done`
/// plus the minimum interval.
pub proof fn lemma_gate_after_page<R>(v: FetchView<R>, page: Seq<R>, done: nat, now: nat)
    requires
        v.inv(),
        !v.finished(),
        !v.after_page(page, done).finished(),
    ensures
        v.after_page(page, done).next_step(now) is Request <==> now >= done + MIN_INTERVAL_MS,
{
}

/// Subjects are fetched one after the other: a page never moves the loop back
/// to an earlier subject, it moves on to the next subject only on an empty
/// page and then starts that subject at offset zero, and the records of each
/// page are appended after everything fetched before.
pub proof fn lemma_subjects_in_order<R>(v: FetchView<R>, page: Seq<R>, now: nat)
    requires
        v.inv(),
        !v.finished(),
    ensures
        v.after_page(page, now).subject == v.subject || (v.after_page(page, now).subject
            == v.subject + 1 && page.len() == 0 && v.after_page(page, now).offset == 0),
        v.after_page(page, now).subject == v.subject ==> v.after_page(page, now).offset
            == v.offset + PAGE_LIMIT,
        v.after_page(page, now).records == v.records + page,
{
    if page.len() == 0 {
        assert(v.records + page =~= v.records);
    }
}

/// The soft cap ends the whole fetch: once it trips, no further page of any
/// subject is requested.
pub proof fn lemma_cap_stops_all<R>(v: FetchView<R>, page: Seq<R>, now: nat, later: nat)
    requires
        v.inv(),
        !v.finished(),
        over_soft_cap((v.records + page).len()),
        page.len() > 0,
    ensures
        v.after_page(page, now).capped,
        v.after_page(page, now).next_step(later) is Done,
{
}

} // verus!
