//! Decisions of the worker that drains one event channel into one output
//! container. The caller performs the I/O: it appends each datum that a
//! step hands back, and flushes when told to.
use vstd::prelude::*;
use crate::cdm::{envelope, is_leading_host, leading_host, wraps, Record, SchemaVersion};
use crate::classify::{classifies, classify};
use crate::encode::{encode, encodes, CdmDatum};
use crate::model::MutationEvent;

verus! {

/// Life cycle of a worker.
#[derive(Clone, Copy, Debug, PartialEq, Eq, Structural)]
pub enum SinkState {
    Starting,
    Running,
    Draining,
    Terminated,
}

/// `d` is the datum that the worker appends for the leading host record.
pub open spec fn is_host_datum(v: SchemaVersion, d: CdmDatum) -> bool {
    exists|r: Record, e| is_leading_host(r) && wraps(e, r, v) && encodes(e, d)
}

/// `d` is the datum that the worker appends for event `ev`.
pub open spec fn is_event_datum(v: SchemaVersion, ev: MutationEvent, d: CdmDatum) -> bool {
    exists|r: Record, e| classifies(ev, r) && wraps(e, r, v) && encodes(e, d)
}

/// A worker for one stream, bound to one schema version.
pub struct CdmSink {
    state: SinkState,
    version: SchemaVersion,
    appended: u64,
}

impl CdmSink {
    #[verifier::type_invariant]
    spec fn inv(&self) -> bool {
        self.state == SinkState::Starting ==> self.appended == 0
    }

    pub closed spec fn spec_state(&self) -> SinkState {
        self.state
    }

    pub closed spec fn spec_version(&self) -> SchemaVersion {
        self.version
    }

    /// Number of data handed out for appending so far.
    pub closed spec fn spec_appended(&self) -> nat {
        self.appended as nat
    }

    /// A worker that has not yet written anything.
    pub fn new(version: SchemaVersion) -> (r: CdmSink)
        ensures
            r.spec_state() == SinkState::Starting,
            r.spec_version() == version,
            r.spec_appended() == 0,
    {
        CdmSink { state: SinkState::Starting, version, appended: 0 }
    }

    pub fn state(&self) -> (r: SinkState)
        ensures
            r == self.spec_state(),
    {
        self.state
    }

    pub fn version(&self) -> (r: SchemaVersion)
        ensures
            r == self.spec_version(),
    {
        self.version
    }

    pub fn appended(&self) -> (r: u64)
        ensures
            r == self.spec_appended(),
    {
        self.appended
    }

    /// Starts the stream: the leading host record is the first datum.
    pub fn start(&mut self) -> (d: CdmDatum)
        requires
            old(self).spec_state() == SinkState::Starting,
        ensures
            final(self).spec_state() == SinkState::Running,
            final(self).spec_version() == old(self).spec_version(),
            final(self).spec_appended() == 1,
            is_host_datum(old(self).spec_version(), d),
    {
        proof {
            use_type_invariant(&*self);
        }
        let r = leading_host();
        let ghost rg = r;
        let e = envelope(r, self.version);
        let ghost eg = e;
        let d = encode(e);
        assert(is_leading_host(rg) && wraps(eg, rg, self.version) && encodes(eg, d));
        self.state = SinkState::Running;
        self.appended = 1;
        d
    }

    /// One received event gives exactly one datum, appended in arrival order.
    pub fn on_event(&mut self, ev: &MutationEvent) -> (d: CdmDatum)
        requires
            old(self).spec_state() == SinkState::Running,
            old(self).spec_appended() < u64::MAX,
        ensures
            final(self).spec_state() == SinkState::Running,
            final(self).spec_version() == old(self).spec_version(),
            final(self).spec_appended() == old(self).spec_appended() + 1,
            is_event_datum(old(self).spec_version(), *ev, d),
    {
        let r = classify(ev);
        let ghost rg = r;
        let e = envelope(r, self.version);
        let ghost eg = e;
        let d = encode(e);
        assert(classifies(*ev, rg) && wraps(eg, rg, self.version) && encodes(eg, d));
        self.appended = self.appended + 1;
        d
    }

    /// The channel has closed: the output must now be flushed.
    pub fn on_close(&mut self)
        requires
            old(self).spec_state() == SinkState::Running,
        ensures
            final(self).spec_state() == SinkState::Draining,
            final(self).spec_version() == old(self).spec_version(),
            final(self).spec_appended() == old(self).spec_appended(),
    {
        self.state = SinkState::Draining;
    }

    /// The output has been flushed: the worker is done for good.
    pub fn on_flushed(&mut self)
        requires
            old(self).spec_state() == SinkState::Draining,
        ensures
            final(self).spec_state() == SinkState::Terminated,
            final(self).spec_version() == old(self).spec_version(),
            final(self).spec_appended() == old(self).spec_appended(),
    {
        self.state = SinkState::Terminated;
    }
}

/// Runs a worker over a whole event sequence: the leading host datum, then
/// one datum per event in input order.
pub fn export(events: &Vec<MutationEvent>, version: SchemaVersion) -> (r: Vec<CdmDatum>)
    requires
        events@.len() < u64::MAX,
    ensures
        r@.len() == events@.len() + 1,
        is_host_datum(version, r@[0]),
        forall|i: int| 0 <= i < events@.len() ==> is_event_datum(version, events@[i], #[trigger] r@[i + 1]),
{
    let mut sink = CdmSink::new(version);
    let mut out: Vec<CdmDatum> = Vec::new();
    out.push(sink.start());
    let mut i: usize = 0;
    while i < events.len()
        invariant
            i <= events@.len(),
            events@.len() < u64::MAX,
            sink.spec_state() == SinkState::Running,
            sink.spec_version() == version,
            sink.spec_appended() == i + 1,
            out@.len() == i + 1,
            is_host_datum(version, out@[0]),
            forall|j: int| 0 <= j < i ==> is_event_datum(version, events@[j], #[trigger] out@[j + 1]),
        decreases events@.len() - i,
    {
        let d = sink.on_event(&events[i]);
        out.push(d);
        i = i + 1;
    }
    sink.on_close();
    sink.on_flushed();
    out
}

} // verus!
