//! The external record model: record kinds, their enumerated codes in each
//! supported schema version, and the envelope around every record.
use vstd::prelude::*;
use crate::ident::{ExtId, spec_nil};
use crate::props::PropBag;

verus! {

/// A released version of the target schema.
#[derive(Clone, Copy, Debug, PartialEq, Eq, Structural)]
pub enum SchemaVersion {
    V19,
    V20,
}

/// The version string written into every envelope.
pub open spec fn version_text(v: SchemaVersion) -> Seq<char> {
    match v {
        SchemaVersion::V19 => "19"@,
        SchemaVersion::V20 => "20"@,
    }
}

/// Every enumerated symbol that the records use.
#[derive(Clone, Copy, Debug, PartialEq, Eq, Structural)]
pub enum Symbol {
    RecordHost,
    RecordProvenanceTagNode,
    RecordSubject,
    RecordSrcSinkObject,
    RecordEvent,
    HostOther,
    SubjectOther,
    SrcSinkUnknown,
    EventFlowsTo,
    EventOther,
    SourcePvm,
}

/// Integer code of a symbol in the code table of a version.
pub open spec fn code_of(v: SchemaVersion, s: Symbol) -> i32 {
    match v {
        SchemaVersion::V19 => match s {
            Symbol::RecordHost => 14,
            Symbol::RecordProvenanceTagNode => 1,
            Symbol::RecordSubject => 3,
            Symbol::RecordSrcSinkObject => 9,
            Symbol::RecordEvent => 10,
            Symbol::HostOther => 2,
            Symbol::SubjectOther => 3,
            Symbol::SrcSinkUnknown => 121,
            Symbol::EventFlowsTo => 15,
            Symbol::EventOther => 30,
            Symbol::SourcePvm => 15,
        },
        SchemaVersion::V20 => match s {
            Symbol::RecordHost => 0,
            Symbol::RecordProvenanceTagNode => 2,
            Symbol::RecordSubject => 4,
            Symbol::RecordSrcSinkObject => 11,
            Symbol::RecordEvent => 12,
            Symbol::HostOther => 3,
            Symbol::SubjectOther => 4,
            Symbol::SrcSinkUnknown => 123,
            Symbol::EventFlowsTo => 16,
            Symbol::EventOther => 31,
            Symbol::SourcePvm => 16,
        },
    }
}

/// Symbolic name of a symbol in a version.
pub open spec fn symbol_text(v: SchemaVersion, s: Symbol) -> Seq<char> {
    match s {
        Symbol::RecordHost => "RECORD_HOST"@,
        Symbol::RecordProvenanceTagNode => "RECORD_PROVENANCE_TAG_NODE"@,
        Symbol::RecordSubject => "RECORD_SUBJECT"@,
        Symbol::RecordSrcSinkObject => "RECORD_SRC_SINK_OBJECT"@,
        Symbol::RecordEvent => "RECORD_EVENT"@,
        Symbol::HostOther => "HOST_OTHER"@,
        Symbol::SubjectOther => "SUBJECT_OTHER"@,
        Symbol::SrcSinkUnknown => "SRCSINK_UNKNOWN"@,
        Symbol::EventFlowsTo => "EVENT_FLOWS_TO"@,
        Symbol::EventOther => "EVENT_OTHER"@,
        Symbol::SourcePvm => match v {
            SchemaVersion::V19 => "SOURCE_CADETS_PVM"@,
            SchemaVersion::V20 => "SOURCE_PVM_CADETS"@,
        },
    }
}

impl SchemaVersion {
    /// The version string.
    pub fn text(&self) -> (r: &'static str)
        ensures
            r@ == version_text(*self),
    {
        match self {
            SchemaVersion::V19 => "19",
            SchemaVersion::V20 => "20",
        }
    }

    /// The version that a version string names, if it is a supported one.
    pub fn from_text(s: &str) -> (r: Option<SchemaVersion>)
        ensures
            r matches Some(v) ==> version_text(v) == s@,
            r is None ==> s@ != version_text(SchemaVersion::V19) && s@ != version_text(
                SchemaVersion::V20,
            ),
    {
        let t = String::from_str(s);
        let a = String::from_str("19");
        let b = String::from_str("20");
        if t == a {
            Some(SchemaVersion::V19)
        } else if t == b {
            Some(SchemaVersion::V20)
        } else {
            None
        }
    }
}

/// An enumerated value as the schema encodes it: integer code and symbol.
pub struct EnumCode {
    pub index: i32,
    pub symbol: String,
}

impl EnumCode {
    pub open spec fn is(&self, v: SchemaVersion, s: Symbol) -> bool {
        self.index == code_of(v, s) && self.symbol@ == symbol_text(v, s)
    }
}

/// Looks a symbol up in the code table of a version.
pub fn code(v: SchemaVersion, s: Symbol) -> (r: EnumCode)
    ensures
        r.is(v, s),
{
    let index: i32 = match v {
        SchemaVersion::V19 => match s {
            Symbol::RecordHost => 14,
            Symbol::RecordProvenanceTagNode => 1,
            Symbol::RecordSubject => 3,
            Symbol::RecordSrcSinkObject => 9,
            Symbol::RecordEvent => 10,
            Symbol::HostOther => 2,
            Symbol::SubjectOther => 3,
            Symbol::SrcSinkUnknown => 121,
            Symbol::EventFlowsTo => 15,
            Symbol::EventOther => 30,
            Symbol::SourcePvm => 15,
        },
        SchemaVersion::V20 => match s {
            Symbol::RecordHost => 0,
            Symbol::RecordProvenanceTagNode => 2,
            Symbol::RecordSubject => 4,
            Symbol::RecordSrcSinkObject => 11,
            Symbol::RecordEvent => 12,
            Symbol::HostOther => 3,
            Symbol::SubjectOther => 4,
            Symbol::SrcSinkUnknown => 123,
            Symbol::EventFlowsTo => 16,
            Symbol::EventOther => 31,
            Symbol::SourcePvm => 16,
        },
    };
    let symbol: &str = match s {
        Symbol::RecordHost => "RECORD_HOST",
        Symbol::RecordProvenanceTagNode => "RECORD_PROVENANCE_TAG_NODE",
        Symbol::RecordSubject => "RECORD_SUBJECT",
        Symbol::RecordSrcSinkObject => "RECORD_SRC_SINK_OBJECT",
        Symbol::RecordEvent => "RECORD_EVENT",
        Symbol::HostOther => "HOST_OTHER",
        Symbol::SubjectOther => "SUBJECT_OTHER",
        Symbol::SrcSinkUnknown => "SRCSINK_UNKNOWN",
        Symbol::EventFlowsTo => "EVENT_FLOWS_TO",
        Symbol::EventOther => "EVENT_OTHER",
        Symbol::SourcePvm => match v {
            SchemaVersion::V19 => "SOURCE_CADETS_PVM",
            SchemaVersion::V20 => "SOURCE_PVM_CADETS",
        },
    };
    EnumCode { index, symbol: String::from_str(symbol) }
}

/// The two versions give every symbol a different integer code.
pub proof fn lemma_versions_differ(s: Symbol)
    ensures
        code_of(SchemaVersion::V19, s) != code_of(SchemaVersion::V20, s),
{
}

/// Kind of host.
#[derive(Clone, Copy, Debug, PartialEq, Eq, Structural)]
pub enum HostType {
    Other,
}

/// Kind of subject.
#[derive(Clone, Copy, Debug, PartialEq, Eq, Structural)]
pub enum SubjectType {
    Other,
}

/// Kind of source or sink.
#[derive(Clone, Copy, Debug, PartialEq, Eq, Structural)]
pub enum SrcSinkType {
    Unknown,
}

/// Kind of event.
#[derive(Clone, Copy, Debug, PartialEq, Eq, Structural)]
pub enum EventType {
    FlowsTo,
    Other,
}

/// The record kinds that this library emits.
#[derive(Clone, Copy, Debug, PartialEq, Eq, Structural)]
pub enum RecordKind {
    Host,
    ProvenanceTagNode,
    Subject,
    SrcSinkObject,
    Event,
}

pub open spec fn host_type_symbol(t: HostType) -> Symbol {
    Symbol::HostOther
}

pub open spec fn subject_type_symbol(t: SubjectType) -> Symbol {
    Symbol::SubjectOther
}

pub open spec fn src_sink_type_symbol(t: SrcSinkType) -> Symbol {
    Symbol::SrcSinkUnknown
}

pub open spec fn event_type_symbol(t: EventType) -> Symbol {
    match t {
        EventType::FlowsTo => Symbol::EventFlowsTo,
        EventType::Other => Symbol::EventOther,
    }
}

pub open spec fn record_kind_symbol(k: RecordKind) -> Symbol {
    match k {
        RecordKind::Host => Symbol::RecordHost,
        RecordKind::ProvenanceTagNode => Symbol::RecordProvenanceTagNode,
        RecordKind::Subject => Symbol::RecordSubject,
        RecordKind::SrcSinkObject => Symbol::RecordSrcSinkObject,
        RecordKind::Event => Symbol::RecordEvent,
    }
}

impl HostType {
    pub fn symbol(&self) -> (r: Symbol)
        ensures
            r == host_type_symbol(*self),
    {
        Symbol::HostOther
    }
}

impl SubjectType {
    pub fn symbol(&self) -> (r: Symbol)
        ensures
            r == subject_type_symbol(*self),
    {
        Symbol::SubjectOther
    }
}

impl SrcSinkType {
    pub fn symbol(&self) -> (r: Symbol)
        ensures
            r == src_sink_type_symbol(*self),
    {
        Symbol::SrcSinkUnknown
    }
}

impl EventType {
    pub fn symbol(&self) -> (r: Symbol)
        ensures
            r == event_type_symbol(*self),
    {
        match self {
            EventType::FlowsTo => Symbol::EventFlowsTo,
            EventType::Other => Symbol::EventOther,
        }
    }
}

impl RecordKind {
    pub fn symbol(&self) -> (r: Symbol)
        ensures
            r == record_kind_symbol(*self),
    {
        match self {
            RecordKind::Host => Symbol::RecordHost,
            RecordKind::ProvenanceTagNode => Symbol::RecordProvenanceTagNode,
            RecordKind::Subject => Symbol::RecordSubject,
            RecordKind::SrcSinkObject => Symbol::RecordSrcSinkObject,
            RecordKind::Event => Symbol::RecordEvent,
        }
    }
}

/// Description of the machine that the records come from.
pub struct Host {
    pub host_name: String,
    pub ta1_version: String,
    pub host_type: HostType,
}

/// A tag node: a bag of properties under an identifier.
pub struct ProvenanceTagNode {
    pub tag_id: ExtId,
    pub properties: PropBag,
}

/// An acting entity, such as a process.
pub struct Subject {
    pub uuid: ExtId,
    pub ty: SubjectType,
    pub properties: PropBag,
}

/// The part common to all objects.
pub struct AbstractObject {
    pub properties: PropBag,
}

/// An object that data flows into or out of.
pub struct SrcSinkObject {
    pub uuid: ExtId,
    pub base_object: AbstractObject,
    pub ty: SrcSinkType,
}

/// An interaction between a subject and up to two objects.
pub struct Event {
    pub uuid: ExtId,
    pub ty: EventType,
    pub subject: Option<ExtId>,
    pub predicate_object: Option<ExtId>,
    pub predicate_object2: Option<ExtId>,
    pub timestamp_nanos: i64,
    pub properties: PropBag,
}

/// One external record.
pub enum Record {
    Host(Host),
    ProvenanceTagNode(ProvenanceTagNode),
    Subject(Subject),
    SrcSinkObject(SrcSinkObject),
    Event(Event),
}

/// The concrete kind of a record.
pub open spec fn kind_of(r: Record) -> RecordKind {
    match r {
        Record::Host(_) => RecordKind::Host,
        Record::ProvenanceTagNode(_) => RecordKind::ProvenanceTagNode,
        Record::Subject(_) => RecordKind::Subject,
        Record::SrcSinkObject(_) => RecordKind::SrcSinkObject,
        Record::Event(_) => RecordKind::Event,
    }
}

/// Every property bag in the record has unique keys.
pub open spec fn record_wf(r: Record) -> bool {
    match r {
        Record::Host(_) => true,
        Record::ProvenanceTagNode(t) => t.properties.wf(),
        Record::Subject(s) => s.properties.wf(),
        Record::SrcSinkObject(o) => o.base_object.properties.wf(),
        Record::Event(e) => e.properties.wf(),
    }
}

impl Record {
    pub fn kind(&self) -> (r: RecordKind)
        ensures
            r == kind_of(*self),
    {
        match self {
            Record::Host(_) => RecordKind::Host,
            Record::ProvenanceTagNode(_) => RecordKind::ProvenanceTagNode,
            Record::Subject(_) => RecordKind::Subject,
            Record::SrcSinkObject(_) => RecordKind::SrcSinkObject,
            Record::Event(_) => RecordKind::Event,
        }
    }
}

/// The synthetic host record that opens every stream.
pub open spec fn is_leading_host(r: Record) -> bool {
    &&& r matches Record::Host(h)
    &&& h.host_name@ == Seq::<char>::empty()
    &&& h.ta1_version@ == Seq::<char>::empty()
    &&& h.host_type == HostType::Other
}

/// Builds the synthetic host record: empty name and version, "other" type.
pub fn leading_host() -> (r: Record)
    ensures
        is_leading_host(r),
        record_wf(r),
{
    Record::Host(Host { host_name: String::new(), ta1_version: String::new(), host_type: HostType::Other })
}

/// The outer wrapper of every record.
pub struct Envelope {
    pub datum: Record,
    pub kind: RecordKind,
    pub version: SchemaVersion,
    pub host_id: ExtId,
    pub session_number: i32,
}

/// An envelope that wraps `r` for version `v`: its discriminator agrees
/// with the record, its host identifier is nil and its session number zero.
pub open spec fn wraps(e: Envelope, r: Record, v: SchemaVersion) -> bool {
    &&& e.datum == r
    &&& e.kind == kind_of(r)
    &&& e.version == v
    &&& e.host_id == spec_nil()
    &&& e.session_number == 0
}

/// Wraps a record in its envelope.
pub fn envelope(r: Record, v: SchemaVersion) -> (e: Envelope)
    ensures
        wraps(e, r, v),
        e.kind == kind_of(e.datum),
{
    let kind = r.kind();
    Envelope { datum: r, kind, version: v, host_id: ExtId::nil(), session_number: 0 }
}

} // verus!
