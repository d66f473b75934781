use vstd::prelude::*;
use vstd::string::StringExecFns;
use crate::caption::caption_for;
use crate::caption::caption_spec;
use crate::filter::max_id_of;
use crate::filter::new_of;
use crate::filter::select;
use crate::filter::lemma_max_id_exact;
use crate::item::ContentItem;
use crate::item::cursor_floor;
use crate::link::url_is_valid;
use crate::link::url_parses;
use crate::query::api_url;
use crate::query::api_url_spec;
use crate::query::dec_digits;
use crate::query::u64_to_decimal;

verus! {

/// How a run ended.
#[derive(Clone, Copy, Debug, PartialEq, Eq, Structural)]
pub enum RunOutcome {
    /// New items were handled and the cursor was persisted.
    Completed,
    /// Nothing new was observed.
    NothingNew,
    /// The fetch failed; the run was abandoned with the cursor untouched.
    FetchFailed,
    /// The cursor write failed, after deliveries had already happened.
    PersistFailed,
}

/// The aggregate report a run hands back to its trigger.
#[derive(Clone, Copy, Debug, PartialEq, Eq, Structural)]
pub struct RunSummary {
    pub outcome: RunOutcome,
    /// Items strictly above the cursor at filter time.
    pub new_count: usize,
    /// Channel sends attempted: new items with a locator that parses.
    pub attempted: usize,
    /// Sends that succeeded.
    pub delivered: usize,
    /// Per-item delivery errors: missing locators, locators that do not
    /// parse, and sends that failed.
    pub failed: usize,
}

impl RunSummary {
    /// The short text reported upward.
    pub open spec fn message_spec(self) -> Seq<char> {
        if self.outcome is FetchFailed {
            "fetch failed"@
        } else if self.outcome is PersistFailed {
            "persist failed"@
        } else if self.outcome is NothingNew {
            "no new items"@
        } else {
            "delivered "@ + dec_digits(self.delivered as int) + " of "@ + dec_digits(
                self.new_count as int,
            ) + " new items"@
        }
    }

    /// Renders the report as one line of text.
    pub fn message(&self) -> (r: String)
        ensures
            r@ == self.message_spec(),
    {
        match self.outcome {
            RunOutcome::FetchFailed => "fetch failed".to_owned(),
            RunOutcome::PersistFailed => "persist failed".to_owned(),
            RunOutcome::NothingNew => "no new items".to_owned(),
            RunOutcome::Completed => {
                let mut m = "delivered ".to_owned();
                let d = u64_to_decimal(self.delivered as u64);
                m.append(d.as_str());
                m.append(" of ");
                let n = u64_to_decimal(self.new_count as u64);
                m.append(n.as_str());
                m.append(" new items");
                proof {
                    assert((self.delivered as u64) as int == self.delivered as int);
                    assert((self.new_count as u64) as int == self.new_count as int);
                    assert(m@ =~= self.message_spec());
                }
                m
            },
        }
    }
}

/// Where a run stands.  The host drives the machine: it performs the
/// outside work each action asks for and reports the outcome back.
#[derive(Clone, Copy, Debug, PartialEq, Eq, Structural)]
pub enum Stage {
    /// The fetch is outstanding.
    AwaitFetch,
    /// New items are handed out one at a time.
    Dispatching,
    /// A send is outstanding and its outcome not yet reported.
    AwaitingDelivery,
    /// The cursor write is outstanding.
    AwaitPersist,
    /// The run is over.
    Finished,
}

/// One step of outside work the host must perform next.
pub enum Action {
    /// Nothing to perform; ask for the next action again.  Returned
    /// when an item was skipped for want of a usable locator.
    Skip,
    /// Send the media behind `url` to the channel with `caption`, then
    /// report the outcome through `on_delivery`.
    Deliver { url: String, caption: String },
    /// Write `value` as the new cursor, then report the outcome through
    /// `on_persist`.
    Persist { value: u64 },
    /// The run is over; `summary` is its report.
    Done { summary: RunSummary },
}

/// One run of the pipeline: read cursor, fetch, filter, dispatch each
/// new item in isolation, persist the watermark exactly once, report.
pub struct Run {
    /// The cursor read at the start of the run; never changed by the
    /// machine itself.
    pub cursor: Option<u64>,
    pub stage: Stage,
    /// The watermark a Persist action will carry: the highest
    /// identifier observed across the whole batch, floored at the
    /// cursor.
    pub max_id: u64,
    /// How many items of the batch were new.
    pub new_count: usize,
    /// The new items not yet handed out, in batch order.
    pub queue: Vec<ContentItem>,
    pub attempted: usize,
    pub delivered: usize,
    pub failed: usize,
}

impl Run {
    /// The machine's bookkeeping is consistent: every new item is
    /// accounted for as pending, in flight, delivered, or failed, and
    /// the watermark never lies below the cursor's floor.
    pub open spec fn wf(self) -> bool {
        &&& self.delivered <= self.attempted
        &&& self.attempted <= self.delivered + self.failed + (if self.stage is AwaitingDelivery {
            1int
        } else {
            0int
        })
        &&& match self.stage {
            Stage::AwaitFetch => self.queue@.len() == 0 && self.new_count == 0 && self.attempted
                == 0 && self.delivered == 0 && self.failed == 0,
            Stage::Dispatching => self.max_id >= cursor_floor(self.cursor) && self.delivered
                + self.failed + self.queue@.len() == self.new_count,
            Stage::AwaitingDelivery => self.max_id >= cursor_floor(self.cursor) && self.delivered
                + self.failed + self.queue@.len() + 1 == self.new_count && self.delivered
                < self.attempted,
            Stage::AwaitPersist => self.max_id >= cursor_floor(self.cursor) && self.delivered
                + self.failed == self.new_count && self.queue@.len() == 0,
            Stage::Finished => true,
        }
    }

    /// Begins a run against the cursor the host has read.  The returned
    /// string is the fetch query the host must issue; it then reports
    /// the outcome through `on_batch` or `on_fetch_error`.
    pub fn start(cursor: Option<u64>) -> (r: (Run, String))
        ensures
            r.0.wf(),
            r.0.cursor == cursor,
            r.0.stage is AwaitFetch,
            r.1@ == api_url_spec(cursor),
    {
        let url = api_url(cursor);
        let run = Run {
            cursor,
            stage: Stage::AwaitFetch,
            max_id: 0,
            new_count: 0,
            queue: Vec::new(),
            attempted: 0,
            delivered: 0,
            failed: 0,
        };
        (run, url)
    }

    /// The fetch failed: the run is abandoned and the cursor untouched —
    /// the machine reaches its end without ever issuing a Persist
    /// action, and no delivery is attempted.
    pub fn on_fetch_error(&mut self) -> (s: RunSummary)
        requires
            old(self).stage is AwaitFetch,
            old(self).wf(),
        ensures
            final(self).wf(),
            final(self).stage is Finished,
            final(self).cursor == old(self).cursor,
            s.outcome is FetchFailed,
            s.new_count == 0 && s.attempted == 0 && s.delivered == 0 && s.failed == 0,
    {
        self.stage = Stage::Finished;
        RunSummary {
            outcome: RunOutcome::FetchFailed,
            new_count: 0,
            attempted: 0,
            delivered: 0,
            failed: 0,
        }
    }

    /// The fetch succeeded: the batch is filtered against the cursor.
    /// The machine will hand out exactly the new items, in batch order,
    /// and the value it will persist is the batch-wide watermark.
    pub fn on_batch(&mut self, batch: Vec<ContentItem>)
        requires
            old(self).stage is AwaitFetch,
            old(self).wf(),
        ensures
            final(self).wf(),
            final(self).cursor == old(self).cursor,
            final(self).stage is Dispatching,
            final(self).queue@ == new_of(batch@, old(self).cursor),
            final(self).max_id == max_id_of(batch@, old(self).cursor),
            final(self).new_count == new_of(batch@, old(self).cursor).len(),
            final(self).attempted == 0 && final(self).delivered == 0 && final(self).failed == 0,
    {
        let ghost c = self.cursor;
        let r = select(batch, self.cursor);
        proof {
            lemma_max_id_exact(batch@, c);
        }
        self.new_count = r.new_items.len();
        self.max_id = r.max_id;
        self.queue = r.new_items;
        self.stage = Stage::Dispatching;
    }

    /// Hands the host its next piece of outside work.  An item whose
    /// locator is missing or does not parse is skipped: it is counted
    /// as a failed delivery, no send is attempted for it, and the items
    /// behind it are unaffected.  Once the queue is empty the machine
    /// asks for the cursor write — always when new items existed, and
    /// otherwise only when the watermark moved above the stored cursor.
    pub fn next(&mut self) -> (a: Action)
        requires
            old(self).stage is Dispatching,
            old(self).wf(),
        ensures
            final(self).wf(),
            final(self).cursor == old(self).cursor,
            final(self).max_id == old(self).max_id,
            final(self).new_count == old(self).new_count,
            final(self).delivered == old(self).delivered,
            ({
                let q = old(self).queue@;
                if q.len() > 0 {
                    &&& final(self).queue@ == q.drop_first()
                    &&& match q[0].url {
                        Option::None => {
                            &&& a is Skip
                            &&& final(self).stage is Dispatching
                            &&& final(self).failed == old(self).failed + 1
                            &&& final(self).attempted == old(self).attempted
                        },
                        Option::Some(u) => {
                            if url_is_valid(u@) {
                                &&& (a matches Action::Deliver { url, caption } && url@ == u@
                                    && caption@ == caption_spec(q[0].artists.deep_view()))
                                &&& final(self).stage is AwaitingDelivery
                                &&& final(self).failed == old(self).failed
                                &&& final(self).attempted == old(self).attempted + 1
                            } else {
                                &&& a is Skip
                                &&& final(self).stage is Dispatching
                                &&& final(self).failed == old(self).failed + 1
                                &&& final(self).attempted == old(self).attempted
                            }
                        },
                    }
                } else {
                    &&& final(self).queue@ == q
                    &&& final(self).failed == old(self).failed
                    &&& final(self).attempted == old(self).attempted
                    &&& if old(self).new_count > 0 || old(self).max_id > cursor_floor(
                        old(self).cursor,
                    ) {
                        &&& (a matches Action::Persist { value } && value == old(self).max_id)
                        &&& final(self).stage is AwaitPersist
                    } else {
                        &&& (a matches Action::Done { summary } && summary == (RunSummary {
                            outcome: RunOutcome::NothingNew,
                            new_count: old(self).new_count,
                            attempted: old(self).attempted,
                            delivered: old(self).delivered,
                            failed: old(self).failed,
                        }))
                        &&& final(self).stage is Finished
                    }
                }
            }),
    {
        if self.queue.len() > 0 {
            let item = self.queue.remove(0);
            proof {
                assert(self.queue@ =~= old(self).queue@.drop_first());
            }
            match item.url {
                Option::None => {
                    self.failed = self.failed + 1;
                    Action::Skip
                },
                Option::Some(u) => {
                    if url_parses(u.as_str()) {
                        let caption = caption_for(&item.artists);
                        self.attempted = self.attempted + 1;
                        self.stage = Stage::AwaitingDelivery;
                        Action::Deliver { url: u, caption }
                    } else {
                        self.failed = self.failed + 1;
                        Action::Skip
                    }
                },
            }
        } else {
            let floor = match self.cursor {
                Some(c) => c,
                None => 0,
            };
            if self.new_count > 0 || self.max_id > floor {
                self.stage = Stage::AwaitPersist;
                Action::Persist { value: self.max_id }
            } else {
                self.stage = Stage::Finished;
                Action::Done {
                    summary: RunSummary {
                        outcome: RunOutcome::NothingNew,
                        new_count: self.new_count,
                        attempted: self.attempted,
                        delivered: self.delivered,
                        failed: self.failed,
                    },
                }
            }
        }
    }

    /// The host reports the outcome of the send it was handed.
    /// Whatever the outcome, the remaining items, the watermark and the
    /// other counts are untouched: a delivery failure is isolated to
    /// its item and never blocks the items behind it, nor the cursor.
    pub fn on_delivery(&mut self, ok: bool)
        requires
            old(self).stage is AwaitingDelivery,
            old(self).wf(),
        ensures
            final(self).wf(),
            final(self).stage is Dispatching,
            final(self).cursor == old(self).cursor,
            final(self).max_id == old(self).max_id,
            final(self).queue@ == old(self).queue@,
            final(self).new_count == old(self).new_count,
            final(self).attempted == old(self).attempted,
            ok ==> final(self).delivered == old(self).delivered + 1 && final(self).failed == old(
                self,
            ).failed,
            !ok ==> final(self).failed == old(self).failed + 1 && final(self).delivered == old(
                self,
            ).delivered,
    {
        if ok {
            self.delivered = self.delivered + 1;
        } else {
            self.failed = self.failed + 1;
        }
        self.stage = Stage::Dispatching;
    }

    /// The host reports the cursor write's outcome.  The write comes
    /// after all deliveries: a failure makes the run a net failure, but
    /// nothing is rolled back and every new item was accounted for.
    pub fn on_persist(&mut self, ok: bool) -> (s: RunSummary)
        requires
            old(self).stage is AwaitPersist,
            old(self).wf(),
        ensures
            final(self).wf(),
            final(self).stage is Finished,
            final(self).cursor == old(self).cursor,
            s.new_count == old(self).new_count,
            s.attempted == old(self).attempted,
            s.delivered == old(self).delivered,
            s.failed == old(self).failed,
            s.delivered + s.failed == s.new_count,
            s.outcome == (if !ok {
                RunOutcome::PersistFailed
            } else if old(self).new_count == 0 {
                RunOutcome::NothingNew
            } else {
                RunOutcome::Completed
            }),
    {
        let outcome = if !ok {
            RunOutcome::PersistFailed
        } else if self.new_count == 0 {
            RunOutcome::NothingNew
        } else {
            RunOutcome::Completed
        };
        self.stage = Stage::Finished;
        RunSummary {
            outcome,
            new_count: self.new_count,
            attempted: self.attempted,
            delivered: self.delivered,
            failed: self.failed,
        }
    }
}

/// The persisted cursor after a sequence of successful runs, each run
/// folding its batch's watermark into the cursor it started from.
pub open spec fn cursor_after_runs(start: Option<u64>, batches: Seq<Seq<ContentItem>>) -> u64
    decreases batches.len(),
{
    if batches.len() == 0 {
        cursor_floor(start)
    } else {
        max_id_of(batches.last(), Some(cursor_after_runs(start, batches.drop_last())))
    }
}

/// Monotonicity: across any sequence of successful runs, the persisted
/// cursor never decreases from one run to the next.
pub proof fn lemma_cursor_monotone(start: Option<u64>, batches: Seq<Seq<ContentItem>>, k: int)
    requires
        0 <= k < batches.len(),
    ensures
        cursor_after_runs(start, batches.take(k)) <= cursor_after_runs(start, batches.take(k + 1)),
{
    let prev = cursor_after_runs(start, batches.take(k));
    assert(batches.take(k + 1).drop_last() =~= batches.take(k));
    assert(batches.take(k + 1).last() == batches[k]);
    lemma_max_id_exact(batches[k], Some(prev));
}

/// The persisted cursor never falls below where it started, however
/// many successful runs happen.
pub proof fn lemma_cursor_above_start(start: Option<u64>, batches: Seq<Seq<ContentItem>>)
    ensures
        cursor_floor(start) <= cursor_after_runs(start, batches),
    decreases batches.len(),
{
    if batches.len() > 0 {
        lemma_cursor_above_start(start, batches.drop_last());
        lemma_max_id_exact(batches.last(), Some(cursor_after_runs(start, batches.drop_last())));
    }
}

/// Idempotence: when a second run observes nothing newer than what the
/// first run persisted, it selects no items and leaves the cursor
/// exactly where the first run put it.
pub proof fn lemma_second_run_idempotent(
    start: Option<u64>,
    first: Seq<ContentItem>,
    second: Seq<ContentItem>,
)
    requires
        forall|k: int|
            0 <= k < second.len() ==> #[trigger] second[k].id <= cursor_after_runs(
                start,
                seq![first],
            ),
    ensures
        cursor_after_runs(start, seq![first, second]) == cursor_after_runs(start, seq![first]),
        new_of(second, Some(cursor_after_runs(start, seq![first]))) == Seq::<ContentItem>::empty(),
{
    let c1 = cursor_after_runs(start, seq![first]);
    assert(seq![first, second].drop_last() =~= seq![first]);
    assert(seq![first, second].last() == second);
    crate::filter::lemma_nothing_new_keeps_cursor(second, c1);
}

} // verus!
