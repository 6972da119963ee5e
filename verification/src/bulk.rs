//! The progress of a delay test of all nodes.

use crate::notes::Notes;
use crate::number;
use crate::order;
use crate::proxies;
use crate::proxies::ProxyGroupView;
use crate::text;
use vstd::hash_map::StringHashMap;
use vstd::prelude::*;

verus! {

/// What the task that tests the nodes reports.
#[derive(Debug)]
pub enum BulkDelayEvent {
    Started { total: usize, url: String, timeout_ms: u64 },
    Item { node: String, delay: Option<u64>, error: Option<String> },
    Finished,
}

#[derive(Debug)]
pub struct BulkDelay {
    pub running: bool,
    pub total: usize,
    pub done: usize,
    pub success: usize,
    pub failed: usize,
    pub url: String,
    pub timeout_ms: u64,
}

pub struct BulkModel {
    pub running: bool,
    pub total: usize,
    pub done: usize,
    pub success: usize,
    pub failed: usize,
    pub url: Seq<char>,
    pub timeout_ms: u64,
}

impl View for BulkDelay {
    type V = BulkModel;

    open spec fn view(&self) -> BulkModel {
        BulkModel {
            running: self.running,
            total: self.total,
            done: self.done,
            success: self.success,
            failed: self.failed,
            url: self.url@,
            timeout_ms: self.timeout_ms,
        }
    }
}

impl BulkModel {
    /// No test was made yet.
    pub open spec fn initial() -> BulkModel {
        BulkModel {
            running: false,
            total: 0,
            done: 0,
            success: 0,
            failed: 0,
            url: Seq::<char>::empty(),
            timeout_ms: 0,
        }
    }

    /// Every tested node counts once, as reached or as failed.
    pub open spec fn adds_up(self) -> bool {
        self.success + self.failed == self.done
    }
}

/// A counter that stops at its greatest value.
pub open spec fn counted_up(n: usize) -> usize {
    if n < usize::MAX {
        (n + 1) as usize
    } else {
        n
    }
}

fn count_up(n: usize) -> (r: usize)
    ensures
        r == counted_up(n),
{
    if n < usize::MAX {
        n + 1
    } else {
        n
    }
}

/// A test that begins.
pub open spec fn begun(total: usize, url: Seq<char>, timeout_ms: u64) -> BulkModel {
    BulkModel { running: true, total, done: 0, success: 0, failed: 0, url, timeout_ms }
}

/// The progress, the delays that are known, the lines for the log, and whether the end was reported.
#[verifier::ext_equal]
pub struct BulkRun {
    pub progress: BulkModel,
    pub delays: Map<Seq<char>, u64>,
    pub notes: Seq<Seq<char>>,
    pub finished: bool,
}

pub open spec fn started_note(total: usize, url: Seq<char>, timeout_ms: u64) -> Seq<char> {
    "bulk delay started: "@ + number::dec(total as nat) + " nodes, url="@ + url + ", timeout="@
        + number::dec(timeout_ms as nat) + "ms"@
}

pub open spec fn progress_note(p: BulkModel) -> Seq<char> {
    "bulk delay progress: "@ + number::dec(p.done as nat) + "/"@ + number::dec(p.total as nat)
        + " (ok "@ + number::dec(p.success as nat) + ", fail "@ + number::dec(p.failed as nat)
        + ")"@
}

pub open spec fn finished_note(p: BulkModel) -> Seq<char> {
    "bulk delay finished: "@ + number::dec(p.success as nat) + "/"@ + number::dec(p.total as nat)
        + " ok, "@ + number::dec(p.failed as nat) + " failed"@
}

/// Progress is told after every twentieth node and after the last.
pub open spec fn tells_progress(p: BulkModel) -> bool {
    p.done == p.total || p.done % 20 == 0
}

/// The counters after one more node.
pub open spec fn counted(p: BulkModel, reached: bool) -> BulkModel {
    if reached {
        BulkModel { done: counted_up(p.done), success: counted_up(p.success), ..p }
    } else {
        BulkModel { done: counted_up(p.done), failed: counted_up(p.failed), ..p }
    }
}

pub open spec fn after_event(run: BulkRun, event: BulkDelayEvent) -> BulkRun {
    match event {
        BulkDelayEvent::Started { total, url, timeout_ms } => BulkRun {
            progress: begun(total, url@, timeout_ms),
            notes: run.notes.push(started_note(total, url@, timeout_ms)),
            ..run
        },
        BulkDelayEvent::Item { node, delay, error } => {
            let progress = counted(run.progress, delay is Some);
            let notes = if delay is None && error is Some {
                run.notes.push("delay failed: "@ + node@ + " ("@ + error->0@ + ")"@)
            } else {
                run.notes
            };
            BulkRun {
                progress,
                delays: match delay {
                    Some(ms) => run.delays.insert(node@, ms),
                    None => run.delays,
                },
                notes: if tells_progress(progress) {
                    notes.push(progress_note(progress))
                } else {
                    notes
                },
                ..run
            }
        },
        BulkDelayEvent::Finished => BulkRun { finished: true, ..run },
    }
}

pub open spec fn after_events(run: BulkRun, events: Seq<BulkDelayEvent>) -> BulkRun
    decreases events.len(),
{
    if events.len() == 0 {
        run
    } else {
        after_event(after_events(run, events.drop_last()), events.last())
    }
}

/// The run after everything that was reported, with the end told where it was among it.
pub open spec fn closed(run: BulkRun) -> BulkRun {
    if run.finished {
        BulkRun {
            progress: BulkModel { running: false, ..run.progress },
            notes: run.notes.push(finished_note(run.progress)),
            ..run
        }
    } else {
        run
    }
}

/// What is done about a wish for a test of all nodes.
#[derive(Debug)]
pub enum BulkStart {
    /// Nothing but a line for the log.
    Refused(String),
    /// These nodes are tested.
    Test(Vec<String>),
}

impl BulkDelay {
    pub fn new() -> (r: BulkDelay)
        ensures
            r@ == BulkModel::initial(),
    {
        let r = BulkDelay {
            running: false,
            total: 0,
            done: 0,
            success: 0,
            failed: 0,
            url: String::new(),
            timeout_ms: 0,
        };
        assert(r.url@ =~= Seq::<char>::empty());
        r
    }

    /// Starts a test, unless one is running or there is nothing to test.
    pub fn start_bulk_delay_test(
        &mut self,
        groups: &Vec<ProxyGroupView>,
        url: &str,
        timeout_ms: u64,
    ) -> (r: BulkStart)
        ensures
            ({
                let all = proxies::groups_view(groups@);
                if old(self).running {
                    &&& r matches BulkStart::Refused(line)
                    &&& line@ == "bulk delay is already running"@
                    &&& *final(self) == *old(self)
                } else if forall|t: Seq<char>| !(#[trigger] proxies::is_target(all, t)) {
                    &&& r matches BulkStart::Refused(line)
                    &&& line@ == "no testable nodes found for bulk delay"@
                    &&& *final(self) == *old(self)
                } else {
                    &&& r matches BulkStart::Test(nodes)
                    &&& order::increasing(text::texts(nodes@))
                    &&& forall|t: Seq<char>| #[trigger]
                        text::texts(nodes@).contains(t) <==> proxies::is_target(all, t)
                    &&& final(self)@ == begun(nodes@.len() as usize, url@, timeout_ms)
                }
            }),
    {
        if self.running {
            return BulkStart::Refused("bulk delay is already running".to_owned());
        }
        let nodes = proxies::collect_bulk_delay_targets(groups);
        let ghost names = text::texts(nodes@);
        let ghost all = proxies::groups_view(groups@);
        if nodes.len() == 0 {
            assert forall|t: Seq<char>| !(#[trigger] proxies::is_target(all, t)) by {
                assert(!names.contains(t));
            }
            return BulkStart::Refused("no testable nodes found for bulk delay".to_owned());
        }
        assert(names[0] == nodes@[0]@);
        assert(names.contains(names[0]));
        assert(proxies::is_target(all, names[0]));
        self.running = true;
        self.total = nodes.len();
        self.done = 0;
        self.success = 0;
        self.failed = 0;
        self.url = url.to_owned();
        self.timeout_ms = timeout_ms;
        BulkStart::Test(nodes)
    }

    fn on_event(
        &mut self,
        delays: &mut StringHashMap<u64>,
        notes: &mut Notes,
        event: BulkDelayEvent,
    ) -> (finished: bool)
        ensures
            (BulkRun {
                progress: final(self)@,
                delays: final(delays)@,
                notes: final(notes)@,
                finished,
            }) == after_event(
                BulkRun {
                    progress: old(self)@,
                    delays: old(delays)@,
                    notes: old(notes)@,
                    finished: false,
                },
                event,
            ),
    {
        match event {
            BulkDelayEvent::Started { total, url, timeout_ms } => {
                let head = text::cat5(
                    "bulk delay started: ",
                    number::to_dec(total as u64).as_str(),
                    " nodes, url=",
                    url.as_str(),
                    ", timeout=",
                );
                notes.add(
                    text::cat3(head.as_str(), number::to_dec(timeout_ms).as_str(), "ms"),
                );
                self.running = true;
                self.total = total;
                self.done = 0;
                self.success = 0;
                self.failed = 0;
                self.url = url;
                self.timeout_ms = timeout_ms;
                false
            },
            BulkDelayEvent::Item { node, delay, error } => {
                self.done = count_up(self.done);
                match delay {
                    Some(ms) => {
                        delays.insert(node, ms);
                        self.success = count_up(self.success);
                    },
                    None => {
                        self.failed = count_up(self.failed);
                        if let Some(err) = error {
                            notes.add(
                                text::cat5(
                                    "delay failed: ",
                                    node.as_str(),
                                    " (",
                                    err.as_str(),
                                    ")",
                                ),
                            );
                        }
                    },
                }
                if self.done == self.total || self.done % 20 == 0 {
                    let line = self.progress_line();
                    notes.add(line);
                }
                false
            },
            BulkDelayEvent::Finished => true,
        }
    }

    fn progress_line(&self) -> (r: String)
        ensures
            r@ == progress_note(self@),
    {
        let head = text::cat5(
            "bulk delay progress: ",
            number::to_dec(self.done as u64).as_str(),
            "/",
            number::to_dec(self.total as u64).as_str(),
            " (ok ",
        );
        text::cat5(
            head.as_str(),
            number::to_dec(self.success as u64).as_str(),
            ", fail ",
            number::to_dec(self.failed as u64).as_str(),
            ")",
        )
    }

    fn finished_line(&self) -> (r: String)
        ensures
            r@ == finished_note(self@),
    {
        let head = text::cat5(
            "bulk delay finished: ",
            number::to_dec(self.success as u64).as_str(),
            "/",
            number::to_dec(self.total as u64).as_str(),
            " ok, ",
        );
        text::cat3(head.as_str(), number::to_dec(self.failed as u64).as_str(), " failed")
    }

    /// Takes in what was reported since the last tick. Gives the lines for the log, and whether
    /// the test has ended.
    pub fn take_in(&mut self, delays: &mut StringHashMap<u64>, events: Vec<BulkDelayEvent>) -> (r: (
        Notes,
        bool,
    ))
        ensures
            (BulkRun {
                progress: final(self)@,
                delays: final(delays)@,
                notes: r.0@,
                finished: r.1,
            }) == closed(
                after_events(
                    BulkRun {
                        progress: old(self)@,
                        delays: old(delays)@,
                        notes: seq![],
                        finished: false,
                    },
                    events@,
                ),
            ),
    {
        let ghost start = BulkRun {
            progress: self@,
            delays: delays@,
            notes: seq![],
            finished: false,
        };
        let ghost all = events@;
        let mut notes = Notes::none();
        let mut finished = false;
        let mut rest = events;
        let mut queue: Vec<BulkDelayEvent> = Vec::new();
        while rest.len() > 0
            invariant
                all == rest@ + queue@.reverse(),
            decreases rest@.len(),
        {
            let ghost r0 = rest@;
            let ghost q0 = queue@;
            if let Some(event) = rest.pop() {
                queue.push(event);
                assert(r0 == rest@.push(event));
                assert(queue@.reverse() == seq![event] + q0.reverse());
                assert(r0 + q0.reverse() == rest@ + queue@.reverse());
            }
        }
        assert(all == queue@.reverse());
        assert(all.take(0) == Seq::<BulkDelayEvent>::empty());
        let ghost mut n: int = 0;
        while queue.len() > 0
            invariant
                0 <= n <= all.len(),
                queue@.reverse() == all.skip(n),
                start.finished == false,
                (BulkRun {
                    progress: self@,
                    delays: delays@,
                    notes: notes@,
                    finished,
                }) == after_events(start, all.take(n)),
            decreases queue@.len(),
        {
            let ghost q0 = queue@;
            if let Some(event) = queue.pop() {
                proof {
                    assert(q0 == queue@.push(event));
                    assert(q0.reverse()[0] == event);
                    assert(q0.reverse() == all.skip(n));
                    assert(all.skip(n).len() > 0);
                    assert(all[n] == event);
                    assert(queue@.reverse() == q0.reverse().skip(1));
                    assert(all.skip(n).skip(1) == all.skip(n + 1));
                    assert(all.take(n + 1).drop_last() == all.take(n));
                    assert(all.take(n + 1).last() == event);
                }
                let end = self.on_event(delays, &mut notes, event);
                finished = finished || end;
                proof {
                    n = n + 1;
                }
            }
        }
        assert(all.skip(n).len() == 0);
        assert(all.take(n) == all);
        if finished {
            notes.add(self.finished_line());
            self.running = false;
        }
        (notes, finished)
    }
}

/// The counters of a test always add up, as long as they are not full.
pub proof fn law_counters_add_up(run: BulkRun, events: Seq<BulkDelayEvent>)
    requires
        run.progress.adds_up(),
        run.progress.done + events.len() <= usize::MAX,
    ensures
        closed(after_events(run, events)).progress.adds_up(),
{
    lemma_adds_up(run, events);
}

proof fn lemma_adds_up(run: BulkRun, events: Seq<BulkDelayEvent>)
    requires
        run.progress.adds_up(),
        run.progress.done + events.len() <= usize::MAX,
    ensures
        after_events(run, events).progress.adds_up(),
        after_events(run, events).progress.done <= run.progress.done + events.len(),
    decreases events.len(),
{
    if events.len() > 0 {
        lemma_adds_up(run, events.drop_last());
    }
}

} // verus!
