//! The data model: one service target and the ordered target document.

use vstd::prelude::*;

use crate::clock::now_rfc3339;
use crate::textmatch::{contains_str, lower_of, lowercase, seq_contains};

verus! {

/// The abstract value of one service target: every field as the character
/// sequence it holds, or nothing where the field is absent.
pub struct ServiceEntryView {
    pub name: Option<Seq<char>>,
    pub description: Option<Seq<char>>,
    pub status: Option<Seq<char>>,
    pub start_mode: Option<Seq<char>>,
    pub end_mode: Option<Seq<char>>,
    pub log_on_as: Option<Seq<char>>,
    pub path: Option<Seq<char>>,
    pub start_processing_time: Option<Seq<char>>,
    pub stop_time: Option<Seq<char>>,
    pub end_time: Option<Seq<char>>,
    pub cpu_responsive_time: Option<Seq<char>>,
}

/// One service target: its identity and desired end state, and the four
/// checkpoint timestamps written while it is processed.
pub struct ServiceEntry {
    /// Service name identifier; entries without one are dropped.
    pub name: Option<String>,
    /// Human-readable description.
    pub description: Option<String>,
    /// Observed status snapshot at configuration time.
    pub status: Option<String>,
    /// Declared start mode.
    pub start_mode: Option<String>,
    /// Desired end state; a value containing `automatic` (case-insensitive)
    /// asks for a start, any other non-empty value for a stop.
    pub end_mode: Option<String>,
    /// Account under which the service runs.
    pub log_on_as: Option<String>,
    /// Path to the service executable.
    pub path: Option<String>,
    /// When processing of this entry began.
    pub start_processing_time: Option<String>,
    /// When a stop was issued, or its provisional stand-in.
    pub stop_time: Option<String>,
    /// When processing of this entry completed.
    pub end_time: Option<String>,
    /// When system load settled after this entry's transition.
    pub cpu_responsive_time: Option<String>,
}

pub open spec fn opt_str_view(o: Option<String>) -> Option<Seq<char>> {
    match o {
        Some(s) => Some(s@),
        None => None,
    }
}

impl View for ServiceEntry {
    type V = ServiceEntryView;

    open spec fn view(&self) -> ServiceEntryView {
        ServiceEntryView {
            name: opt_str_view(self.name),
            description: opt_str_view(self.description),
            status: opt_str_view(self.status),
            start_mode: opt_str_view(self.start_mode),
            end_mode: opt_str_view(self.end_mode),
            log_on_as: opt_str_view(self.log_on_as),
            path: opt_str_view(self.path),
            start_processing_time: opt_str_view(self.start_processing_time),
            stop_time: opt_str_view(self.stop_time),
            end_time: opt_str_view(self.end_time),
            cpu_responsive_time: opt_str_view(self.cpu_responsive_time),
        }
    }
}

/// The entry with every field absent.
pub open spec fn empty_entry() -> ServiceEntryView {
    ServiceEntryView {
        name: None,
        description: None,
        status: None,
        start_mode: None,
        end_mode: None,
        log_on_as: None,
        path: None,
        start_processing_time: None,
        stop_time: None,
        end_time: None,
        cpu_responsive_time: None,
    }
}

/// A well-formed entry carries a non-empty identifier.
pub open spec fn has_name(e: ServiceEntryView) -> bool {
    e.name matches Some(n) && n.len() > 0
}

/// The two entries agree on every configuration field; only the checkpoint
/// timestamps may differ.
pub open spec fn same_config(a: ServiceEntryView, b: ServiceEntryView) -> bool {
    &&& a.name == b.name
    &&& a.description == b.description
    &&& a.status == b.status
    &&& a.start_mode == b.start_mode
    &&& a.end_mode == b.end_mode
    &&& a.log_on_as == b.log_on_as
    &&& a.path == b.path
}

/// All four checkpoint timestamps are populated.
pub open spec fn fully_stamped(e: ServiceEntryView) -> bool {
    &&& e.start_processing_time is Some
    &&& e.stop_time is Some
    &&& e.end_time is Some
    &&& e.cpu_responsive_time is Some
}

/// The entry asks for a start: its desired end state contains `automatic`,
/// case-insensitively.
pub open spec fn spec_should_start(e: ServiceEntryView) -> bool {
    e.end_mode matches Some(m) && seq_contains(lower_of(m), "automatic"@)
}

impl Default for ServiceEntry {
    /// The entry with every field absent.
    fn default() -> (e: Self)
        ensures
            e@ == empty_entry(),
    {
        ServiceEntry {
            name: None,
            description: None,
            status: None,
            start_mode: None,
            end_mode: None,
            log_on_as: None,
            path: None,
            start_processing_time: None,
            stop_time: None,
            end_time: None,
            cpu_responsive_time: None,
        }
    }
}

/// A copy of an optional piece of text, holding the same characters.
pub(crate) fn clone_opt_string(o: &Option<String>) -> (r: Option<String>)
    ensures
        opt_str_view(r) == opt_str_view(*o),
{
    match o {
        Some(s) => Some(s.clone()),
        None => None,
    }
}

impl Clone for ServiceEntry {
    /// A copy holding the same abstract value.
    fn clone(&self) -> (r: Self)
        ensures
            r@ == self@,
    {
        ServiceEntry {
            name: clone_opt_string(&self.name),
            description: clone_opt_string(&self.description),
            status: clone_opt_string(&self.status),
            start_mode: clone_opt_string(&self.start_mode),
            end_mode: clone_opt_string(&self.end_mode),
            log_on_as: clone_opt_string(&self.log_on_as),
            path: clone_opt_string(&self.path),
            start_processing_time: clone_opt_string(&self.start_processing_time),
            stop_time: clone_opt_string(&self.stop_time),
            end_time: clone_opt_string(&self.end_time),
            cpu_responsive_time: clone_opt_string(&self.cpu_responsive_time),
        }
    }
}

impl ServiceEntry {
    /// The service identifier, or nothing when it is absent or empty.
    pub fn name(&self) -> (r: Option<&str>)
        ensures
            (r is Some) == has_name(self@),
            r is Some ==> r.unwrap()@ == self@.name.unwrap(),
    {
        match &self.name {
            Some(s) => {
                if s.as_str().is_empty() {
                    None
                } else {
                    Some(s.as_str())
                }
            },
            None => None,
        }
    }

    /// Whether this entry asks for a start: its desired end state contains
    /// `automatic`, case-insensitively.
    pub fn should_start(&self) -> (r: bool)
        ensures
            r == spec_should_start(self@),
    {
        match &self.end_mode {
            Some(m) => {
                let folded = lowercase(m.as_str());
                contains_str(folded.as_str(), "automatic")
            },
            None => false,
        }
    }

    /// Records the current time as the start-processing checkpoint.
    pub fn record_start_processing(&mut self)
        ensures
            same_config(old(self)@, final(self)@),
            final(self)@.start_processing_time is Some,
            final(self)@.stop_time == old(self)@.stop_time,
            final(self)@.end_time == old(self)@.end_time,
            final(self)@.cpu_responsive_time == old(self)@.cpu_responsive_time,
    {
        self.start_processing_time = Some(now_rfc3339());
    }

    /// Records the current time as the stop checkpoint.
    pub fn record_stop(&mut self)
        ensures
            same_config(old(self)@, final(self)@),
            final(self)@.stop_time is Some,
            final(self)@.start_processing_time == old(self)@.start_processing_time,
            final(self)@.end_time == old(self)@.end_time,
            final(self)@.cpu_responsive_time == old(self)@.cpu_responsive_time,
    {
        self.stop_time = Some(now_rfc3339());
    }

    /// Records the current time as the completion checkpoint.
    pub fn record_end(&mut self)
        ensures
            same_config(old(self)@, final(self)@),
            final(self)@.end_time is Some,
            final(self)@.start_processing_time == old(self)@.start_processing_time,
            final(self)@.stop_time == old(self)@.stop_time,
            final(self)@.cpu_responsive_time == old(self)@.cpu_responsive_time,
    {
        self.end_time = Some(now_rfc3339());
    }

    /// Records the current time as the load-stable checkpoint.
    pub fn record_cpu_responsive(&mut self)
        ensures
            same_config(old(self)@, final(self)@),
            final(self)@.cpu_responsive_time is Some,
            final(self)@.start_processing_time == old(self)@.start_processing_time,
            final(self)@.stop_time == old(self)@.stop_time,
            final(self)@.end_time == old(self)@.end_time,
    {
        self.cpu_responsive_time = Some(now_rfc3339());
    }
}

/// The abstract values of a run of entries, in order.
pub open spec fn views_of(v: Seq<ServiceEntry>) -> Seq<ServiceEntryView> {
    v.map_values(|e: ServiceEntry| e@)
}

/// The ordered target document: the run processes its entries front to back.
pub struct OrdemTargets {
    /// The entries, in processing order.
    pub services: Vec<ServiceEntry>,
}

impl View for OrdemTargets {
    type V = Seq<ServiceEntryView>;

    open spec fn view(&self) -> Seq<ServiceEntryView> {
        views_of(self.services@)
    }
}

impl Default for OrdemTargets {
    /// The document with no entries.
    fn default() -> (d: Self)
        ensures
            d@.len() == 0,
    {
        OrdemTargets { services: Vec::new() }
    }
}

impl OrdemTargets {
    /// The document with no entries.
    pub fn new() -> (d: Self)
        ensures
            d@.len() == 0,
    {
        Self::default()
    }

    /// The document with no entries, with room reserved for a known count.
    pub fn with_capacity(capacity: usize) -> (d: Self)
        ensures
            d@.len() == 0,
    {
        OrdemTargets { services: Vec::with_capacity(capacity) }
    }

    /// The number of entries.
    pub fn len(&self) -> (n: usize)
        ensures
            n == self@.len(),
    {
        self.services.len()
    }

    /// Whether the document holds no entries.
    pub fn is_empty(&self) -> (r: bool)
        ensures
            r == (self@.len() == 0),
    {
        self.services.is_empty()
    }
}

/// How an entry looks after the run has filled its timestamps for a
/// demonstration: the configuration stands, every checkpoint is populated,
/// and a checkpoint that was already set keeps its value.
pub open spec fn stamped_from(o: ServiceEntryView, n: ServiceEntryView) -> bool {
    &&& same_config(o, n)
    &&& fully_stamped(n)
    &&& (o.start_processing_time is Some ==> n.start_processing_time == o.start_processing_time)
    &&& (o.stop_time is Some ==> n.stop_time == o.stop_time)
    &&& (o.end_time is Some ==> n.end_time == o.end_time)
    &&& (o.cpu_responsive_time is Some ==> n.cpu_responsive_time == o.cpu_responsive_time)
}

/// Populates every absent checkpoint timestamp of every entry with the
/// current time; checkpoints that are already set are preserved.
pub fn populate_test_timestamps(progress: &mut OrdemTargets)
    ensures
        final(progress)@.len() == old(progress)@.len(),
        forall|i: int|
            0 <= i < old(progress)@.len() ==> stamped_from(
                #[trigger] old(progress)@[i],
                final(progress)@[i],
            ),
{
    let now = now_rfc3339();
    let n = progress.services.len();
    let mut i: usize = 0;
    while i < n
        invariant
            i <= n,
            n == progress.services@.len(),
            n == old(progress).services@.len(),
            forall|j: int|
                0 <= j < i ==> stamped_from(
                    #[trigger] old(progress).services@[j]@,
                    progress.services@[j]@,
                ),
            forall|j: int|
                i <= j < n ==> progress.services@[j] == #[trigger] old(
                    progress,
                ).services@[j],
        decreases n - i,
    {
        let e = &mut progress.services[i];
        if e.start_processing_time.is_none() {
            e.start_processing_time = Some(now.clone());
        }
        if e.stop_time.is_none() {
            e.stop_time = Some(now.clone());
        }
        if e.end_time.is_none() {
            e.end_time = Some(now.clone());
        }
        if e.cpu_responsive_time.is_none() {
            e.cpu_responsive_time = Some(now.clone());
        }
        i += 1;
    }
}

} // verus!
