//! The sequential lifecycle orchestrator.
//!
//! The orchestrator drives the entries of a target document to their desired
//! end states, one at a time and in the document's order. Every blocking
//! capability — querying and commanding the control backend, sleeping,
//! writing the progress artifact — runs outside the library; the machine
//! here owns all the decisions and the progress document, and each call
//! tells the caller what outside work to perform next.
//!
//! One entry passes through four phases: `begin_entry` observes cancellation
//! and drops unnamed entries, `on_baseline` takes the backend's pre-check and
//! derives the action, `on_transition_done` closes the issued transition
//! with its authoritative timestamp, and `on_load_stable` appends the entry
//! to the progress document once the pacing gate has opened.

use vstd::prelude::*;

use crate::model::{
    fully_stamped, has_name, same_config, spec_should_start, OrdemTargets, ServiceEntry,
    ServiceEntryView,
};

verus! {

/// Deadline, in seconds, for one state transition to be observed.
pub const SERVICE_STATE_TIMEOUT_SECS: u64 = 60;

/// Where the machine stands between two calls.
#[derive(Debug, PartialEq, Eq, Structural)]
pub enum Phase {
    /// Ready to take up the next entry.
    Ready,
    /// An entry is in flight; the backend's pre-check is owed.
    Baseline,
    /// A start or stop was issued; the wait's outcome is owed.
    Transition,
    /// The transition is closed; the pacing gate's outcome is owed.
    Pacing,
    /// Cancellation was observed; the run is over.
    Halted,
    /// Every entry was taken up; the run is over.
    Finished,
}

/// Which command the in-flight entry's transition issued.
#[derive(Debug, Clone, Copy, PartialEq, Eq, Structural)]
pub enum Intent {
    StartService,
    StopService,
}

/// What `begin_entry` asks of the caller.
#[derive(Debug)]
pub enum BeginStep {
    /// Cancellation was observed: the run is over, nothing more is owed.
    Halted,
    /// No entries are left: the run is over, nothing more is owed.
    Finished,
    /// The entry carried no identifier and was dropped; take up the next.
    Skipped,
    /// Query the named service's state as the authoritative pre-check and
    /// report it to `on_baseline`.
    Query(String),
}

/// What `on_baseline` asks of the caller.
#[derive(Debug)]
pub enum ActionStep {
    /// Issue a start for the named service, wait for `RUNNING`, and report
    /// to `on_transition_done`.
    IssueStart(String),
    /// Issue a stop for the named service, wait for `STOPPED`, and report
    /// to `on_transition_done`.
    IssueStop(String),
    /// No command is owed: run the pacing gate and report to
    /// `on_load_stable`.
    NoAction,
}

/// The kind of action an entry derives.
#[derive(Debug, PartialEq, Eq, Structural)]
pub enum ActionKind {
    Start,
    Stop,
    Nothing,
}

/// The action an entry's desired end state derives, given whether the
/// service was observed running: an absent or empty end state asks for
/// nothing; one containing `automatic` asks for a start unless the service
/// already runs; any other asks for a stop unless it is already stopped.
pub open spec fn action_of(c: ServiceEntryView, was_running: bool) -> ActionKind {
    if !(c.end_mode matches Some(m) && m.len() > 0) {
        ActionKind::Nothing
    } else if spec_should_start(c) {
        if was_running {
            ActionKind::Nothing
        } else {
            ActionKind::Start
        }
    } else {
        if was_running {
            ActionKind::Stop
        } else {
            ActionKind::Nothing
        }
    }
}

/// The progress document records exactly the named entries among the first
/// `k` of the document, in order, each with its configuration preserved and
/// all four checkpoint timestamps populated.
pub open spec fn is_progress_of(doc: Seq<ServiceEntryView>, k: int, prog: Seq<ServiceEntryView>) -> bool
    decreases k,
{
    if k <= 0 {
        prog.len() == 0
    } else if has_name(doc[k - 1]) {
        &&& prog.len() > 0
        &&& same_config(doc[k - 1], prog.last())
        &&& fully_stamped(prog.last())
        &&& is_progress_of(doc, k - 1, prog.drop_last())
    } else {
        is_progress_of(doc, k - 1, prog)
    }
}

/// The sequential orchestrator: the target document's remaining entries, the
/// entry in flight, and the progress document accumulated so far.
pub struct Orchestrator {
    /// Entries not yet taken up, in the document's order.
    pub pending: Vec<ServiceEntry>,
    /// The entry in flight, between `begin_entry` and `on_load_stable`.
    pub current: Option<ServiceEntry>,
    /// The command the in-flight transition issued.
    pub intent: Option<Intent>,
    /// Where the machine stands.
    pub phase: Phase,
    /// The progress document: one entry appended per completed iteration.
    pub progress: OrdemTargets,
    /// The whole target document, as handed to `new`.
    pub doc: Ghost<Seq<ServiceEntryView>>,
}

impl Orchestrator {
    /// How many of the document's entries have been taken up.
    pub open spec fn consumed(&self) -> int {
        self.doc@.len() - self.pending@.len()
    }

    /// The machine's well-formedness: the pending entries are the document's
    /// untouched tail, and the progress document records what was completed.
    pub open spec fn inv(&self) -> bool {
        &&& self.pending@.map_values(|e: ServiceEntry| e@) == self.doc@.subrange(
            self.consumed(),
            self.doc@.len() as int,
        )
        &&& 0 <= self.consumed() <= self.doc@.len()
        &&& match self.phase {
            Phase::Ready | Phase::Finished | Phase::Halted => {
                &&& self.current is None
                &&& is_progress_of(self.doc@, self.consumed(), self.progress@)
            },
            Phase::Baseline | Phase::Transition | Phase::Pacing => {
                &&& self.current matches Some(c)
                &&& self.consumed() >= 1
                &&& has_name(self.doc@[self.consumed() - 1])
                &&& same_config(self.doc@[self.consumed() - 1], c@)
                &&& is_progress_of(self.doc@, self.consumed() - 1, self.progress@)
                &&& c@.start_processing_time is Some
                &&& (self.phase is Transition || self.phase is Pacing) ==> (
                    c@.stop_time is Some && c@.end_time is Some)
                &&& self.phase is Transition ==> self.intent is Some
            },
        }
        &&& (self.phase is Finished ==> self.consumed() == self.doc@.len())
    }

    /// A fresh machine over the given document: nothing taken up, nothing
    /// recorded.
    pub fn new(document: OrdemTargets) -> (o: Orchestrator)
        ensures
            o.inv(),
            o.phase is Ready,
            o.doc@ == document@,
            o.consumed() == 0,
            o.progress@.len() == 0,
    {
        let o = Orchestrator {
            pending: document.services,
            current: None,
            intent: None,
            phase: Phase::Ready,
            progress: OrdemTargets::new(),
            doc: Ghost(document@),
        };
        proof {
            assert(o.pending@.map_values(|e: ServiceEntry| e@) =~= o.doc@.subrange(
                0,
                o.doc@.len() as int,
            ));
        }
        o
    }

    /// Takes up the next entry. Cancellation is observed here, before the
    /// entry starts: a cancelled run halts with the progress it has.
    /// An entry without an identifier is dropped before any timestamp is
    /// set. Otherwise the entry's start-processing checkpoint is recorded
    /// and the caller owes the backend's pre-check for the returned name.
    pub fn begin_entry(&mut self, cancelled: bool) -> (r: BeginStep)
        requires
            old(self).inv(),
            old(self).phase is Ready,
        ensures
            final(self).inv(),
            final(self).doc == old(self).doc,
            cancelled ==> {
                &&& r is Halted
                &&& final(self).phase is Halted
                &&& final(self).progress@ == old(self).progress@
                &&& final(self).consumed() == old(self).consumed()
            },
            !cancelled && old(self).pending@.len() == 0 ==> {
                &&& r is Finished
                &&& final(self).phase is Finished
                &&& final(self).progress@ == old(self).progress@
                &&& final(self).consumed() == old(self).consumed()
            },
            !cancelled && old(self).pending@.len() > 0 && !has_name(old(self).pending@[0]@) ==> {
                &&& r is Skipped
                &&& final(self).phase is Ready
                &&& final(self).progress@ == old(self).progress@
                &&& final(self).consumed() == old(self).consumed() + 1
            },
            !cancelled && old(self).pending@.len() > 0 && has_name(old(self).pending@[0]@) ==> {
                &&& r matches BeginStep::Query(n)
                &&& n@ == old(self).pending@[0]@.name.unwrap()
                &&& final(self).phase is Baseline
                &&& final(self).progress@ == old(self).progress@
                &&& final(self).consumed() == old(self).consumed() + 1
                &&& final(self).current matches Some(c)
                &&& same_config(old(self).pending@[0]@, c@)
            },
    {
        if cancelled {
            self.phase = Phase::Halted;
            return BeginStep::Halted;
        }
        if self.pending.len() == 0 {
            self.phase = Phase::Finished;
            proof {
                assert(self.pending@.map_values(|e: ServiceEntry| e@).len() == 0);
            }
            return BeginStep::Finished;
        }
        let mut e = self.pending.remove(0);
        proof {
            let f = |x: ServiceEntry| x@;
            assert(self.pending@.map_values(f) =~= self.doc@.subrange(
                self.consumed(),
                self.doc@.len() as int,
            )) by {
                assert(old(self).pending@.map_values(f) == self.doc@.subrange(
                    old(self).consumed(),
                    self.doc@.len() as int,
                ));
                assert forall|i: int| 0 <= i < self.pending@.len() implies
                    #[trigger] self.pending@.map_values(f)[i] == self.doc@.subrange(
                        self.consumed(),
                        self.doc@.len() as int,
                    )[i] by {
                    assert(self.pending@[i] == old(self).pending@[i + 1]);
                    assert(old(self).pending@.map_values(f)[i + 1] == f(old(self).pending@[i + 1]));
                };
            };
            assert(e@ == old(self).pending@.map_values(f)[0]);
            assert(e@ == self.doc@[old(self).consumed()]);
        }
        let named = e.name().is_some();
        if !named {
            return BeginStep::Skipped;
        }
        e.record_start_processing();
        let svc_name = match &e.name {
            Some(s) => s.clone(),
            None => String::new(),
        };
        self.current = Some(e);
        self.phase = Phase::Baseline;
        BeginStep::Query(svc_name)
    }

    /// Takes the backend's pre-check for the in-flight entry, records the
    /// provisional stop and completion checkpoints, and derives the action
    /// from the desired end state. The returned command, if any, is owed to
    /// the backend; its exit status is never consulted — the outcome is
    /// judged only by the subsequent wait.
    pub fn on_baseline(&mut self, was_running: bool) -> (r: ActionStep)
        requires
            old(self).inv(),
            old(self).phase is Baseline,
        ensures
            final(self).inv(),
            final(self).doc == old(self).doc,
            final(self).progress@ == old(self).progress@,
            final(self).consumed() == old(self).consumed(),
            ({
                let c = old(self).current.unwrap()@;
                let d = final(self).current.unwrap()@;
                &&& final(self).current is Some
                &&& same_config(c, d)
                &&& d.start_processing_time == c.start_processing_time
                &&& d.stop_time is Some
                &&& d.end_time is Some
                &&& (match action_of(c, was_running) {
                    ActionKind::Start => {
                        &&& r matches ActionStep::IssueStart(n) && n@ == c.name.unwrap()
                        &&& final(self).phase is Transition
                        &&& final(self).intent == Some(Intent::StartService)
                    },
                    ActionKind::Stop => {
                        &&& r matches ActionStep::IssueStop(n) && n@ == c.name.unwrap()
                        &&& final(self).phase is Transition
                        &&& final(self).intent == Some(Intent::StopService)
                    },
                    ActionKind::Nothing => {
                        &&& r is NoAction
                        &&& final(self).phase is Pacing
                    },
                })
            }),
    {
        let mut e = self.current.take().unwrap();
        e.record_stop();
        e.record_end();
        let has_mode = match &e.end_mode {
            Some(m) => !m.as_str().is_empty(),
            None => false,
        };
        if !has_mode {
            self.current = Some(e);
            self.intent = None;
            self.phase = Phase::Pacing;
            return ActionStep::NoAction;
        }
        let start = e.should_start();
        if start && was_running {
            self.current = Some(e);
            self.intent = None;
            self.phase = Phase::Pacing;
            return ActionStep::NoAction;
        }
        if !start && !was_running {
            self.current = Some(e);
            self.intent = None;
            self.phase = Phase::Pacing;
            return ActionStep::NoAction;
        }
        let svc_name = match &e.name {
            Some(s) => s.clone(),
            None => String::new(),
        };
        self.current = Some(e);
        self.phase = Phase::Transition;
        if start {
            self.intent = Some(Intent::StartService);
            ActionStep::IssueStart(svc_name)
        } else {
            self.intent = Some(Intent::StopService);
            ActionStep::IssueStop(svc_name)
        }
    }

    /// Closes the in-flight transition, whatever the wait's outcome was: a
    /// start-intent overwrites the completion checkpoint, a stop-intent the
    /// stop checkpoint, each with the authoritative time. The caller then
    /// owes the pacing gate.
    pub fn on_transition_done(&mut self) -> (r: ())
        requires
            old(self).inv(),
            old(self).phase is Transition,
        ensures
            final(self).inv(),
            final(self).doc == old(self).doc,
            final(self).progress@ == old(self).progress@,
            final(self).consumed() == old(self).consumed(),
            final(self).phase is Pacing,
            ({
                let c = old(self).current.unwrap()@;
                let d = final(self).current.unwrap()@;
                &&& final(self).current is Some
                &&& same_config(c, d)
                &&& d.start_processing_time == c.start_processing_time
                &&& d.stop_time is Some
                &&& d.end_time is Some
                &&& (old(self).intent == Some(Intent::StartService) ==> d.stop_time == c.stop_time)
                &&& (old(self).intent == Some(Intent::StopService) ==> d.end_time == c.end_time)
            }),
    {
        let mut e = self.current.take().unwrap();
        match self.intent {
            Some(Intent::StartService) => e.record_end(),
            Some(Intent::StopService) => e.record_stop(),
            None => {
                proof {
                    assert(false);
                }
            },
        }
        self.current = Some(e);
        self.phase = Phase::Pacing;
    }

    /// Takes the pacing gate's exit, records the load-stable checkpoint,
    /// and appends the completed entry to the progress document. The caller
    /// then owes a flush of the whole document to the progress artifact.
    pub fn on_load_stable(&mut self)
        requires
            old(self).inv(),
            old(self).phase is Pacing,
        ensures
            final(self).inv(),
            final(self).doc == old(self).doc,
            final(self).consumed() == old(self).consumed(),
            final(self).phase is Ready,
            final(self).progress@.len() == old(self).progress@.len() + 1,
            final(self).progress@ == old(self).progress@.push(final(self).progress@.last()),
            same_config(old(self).current.unwrap()@, final(self).progress@.last()),
            fully_stamped(final(self).progress@.last()),
    {
        let mut e = self.current.take().unwrap();
        e.record_cpu_responsive();
        self.progress.services.push(e);
        self.phase = Phase::Ready;
        proof {
            let f = |x: ServiceEntry| x@;
            assert(self.progress.services@.map_values(f) =~= old(
                self,
            ).progress.services@.map_values(f).push(e@));
            assert(self.progress@.drop_last() =~= old(self).progress@);
            assert(self.progress@ =~= old(self).progress@.push(self.progress@.last()));
        }
    }

    /// The progress document accumulated so far.
    pub fn progress(&self) -> (r: &OrdemTargets)
        ensures
            r@ == self.progress@,
    {
        &self.progress
    }
}

/// A run over well-formed entries that has taken up the first `k` of them
/// has recorded exactly those `k`, in order, each with its configuration
/// preserved and all four checkpoint timestamps populated. In particular,
/// when cancellation fires after entry `k` completes, entries beyond `k`
/// are absent from the output.
pub proof fn lemma_progress_is_exact_prefix(
    doc: Seq<ServiceEntryView>,
    k: int,
    prog: Seq<ServiceEntryView>,
)
    requires
        0 <= k <= doc.len(),
        is_progress_of(doc, k, prog),
        forall|i: int| 0 <= i < k ==> has_name(#[trigger] doc[i]),
    ensures
        prog.len() == k,
        forall|i: int|
            0 <= i < k ==> same_config(#[trigger] doc[i], prog[i]) && fully_stamped(prog[i]),
    decreases k,
{
    if k > 0 {
        lemma_progress_is_exact_prefix(doc, k - 1, prog.drop_last());
        assert forall|i: int| 0 <= i < k implies same_config(#[trigger] doc[i], prog[i])
            && fully_stamped(prog[i]) by {
            if i < k - 1 {
                assert(prog.drop_last()[i] == prog[i]);
            }
        };
    }
}

/// A run over well-formed entries that finishes without cancellation has
/// recorded every entry: the output has exactly the document's length, in
/// the document's order, each entry fully stamped.
pub proof fn lemma_full_run_records_all(doc: Seq<ServiceEntryView>, prog: Seq<ServiceEntryView>)
    requires
        is_progress_of(doc, doc.len() as int, prog),
        forall|i: int| 0 <= i < doc.len() ==> has_name(#[trigger] doc[i]),
    ensures
        prog.len() == doc.len(),
        forall|i: int|
            0 <= i < doc.len() ==> same_config(#[trigger] doc[i], prog[i]) && fully_stamped(
                prog[i],
            ),
{
    lemma_progress_is_exact_prefix(doc, doc.len() as int, prog);
}

/// What a machine that finished, or halted on cancellation, has recorded,
/// when every entry it took up carried an identifier: exactly the taken-up
/// prefix of the document, in order, each entry fully stamped.
pub proof fn lemma_machine_output_is_prefix(o: &Orchestrator)
    requires
        o.inv(),
        o.phase is Finished || o.phase is Halted,
        forall|i: int| 0 <= i < o.consumed() ==> has_name(#[trigger] o.doc@[i]),
    ensures
        o.progress@.len() == o.consumed(),
        forall|i: int|
            0 <= i < o.consumed() ==> same_config(#[trigger] o.doc@[i], o.progress@[i])
                && fully_stamped(o.progress@[i]),
{
    lemma_progress_is_exact_prefix(o.doc@, o.consumed(), o.progress@);
}

/// A run cancelled before the first entry starts records nothing: the
/// output is empty.
pub proof fn lemma_cancelled_before_start_is_empty(
    doc: Seq<ServiceEntryView>,
    prog: Seq<ServiceEntryView>,
)
    requires
        is_progress_of(doc, 0, prog),
    ensures
        prog.len() == 0,
{
}

} // verus!
