//! Resolution of an envelope into the datum that the binary container
//! holds: every enumerated value becomes its (code, symbol) pair of the
//! active schema version, and absent fields take their defaults.
use vstd::prelude::*;
use crate::cdm::{
    code, event_type_symbol, host_type_symbol, kind_of, record_kind_symbol, src_sink_type_symbol,
    subject_type_symbol, version_text, EnumCode, Envelope, Record, RecordKind, SchemaVersion, Symbol,
};
use crate::ident::{spec_nil, ExtId};
use crate::props::PropBag;

verus! {

pub struct HostDatum {
    pub uuid: ExtId,
    pub host_name: String,
    pub host_type: EnumCode,
    /// Present in the schema versions that have the field.
    pub ta1_version: Option<String>,
}

pub struct TagNodeDatum {
    pub tag_id: ExtId,
    pub subject: ExtId,
    pub properties: PropBag,
}

pub struct SubjectDatum {
    pub uuid: ExtId,
    pub ty: EnumCode,
    pub cid: i32,
    pub properties: PropBag,
}

pub struct SrcSinkDatum {
    pub uuid: ExtId,
    /// Properties of the wrapped abstract object.
    pub base_properties: PropBag,
    pub ty: EnumCode,
}

pub struct EventDatum {
    pub uuid: ExtId,
    pub ty: EnumCode,
    pub subject: Option<ExtId>,
    pub predicate_object: Option<ExtId>,
    pub predicate_object2: Option<ExtId>,
    pub timestamp_nanos: i64,
    pub properties: PropBag,
}

pub enum RecordDatum {
    Host(HostDatum),
    ProvenanceTagNode(TagNodeDatum),
    Subject(SubjectDatum),
    SrcSinkObject(SrcSinkDatum),
    Event(EventDatum),
}

/// The top-level datum of the container: one record and its envelope.
pub struct CdmDatum {
    pub datum: RecordDatum,
    pub cdm_version: String,
    pub record_type: EnumCode,
    pub host_id: ExtId,
    pub session_number: i32,
    pub source: EnumCode,
}

/// The record kind that a datum holds.
pub open spec fn datum_kind(d: RecordDatum) -> RecordKind {
    match d {
        RecordDatum::Host(_) => RecordKind::Host,
        RecordDatum::ProvenanceTagNode(_) => RecordKind::ProvenanceTagNode,
        RecordDatum::Subject(_) => RecordKind::Subject,
        RecordDatum::SrcSinkObject(_) => RecordKind::SrcSinkObject,
        RecordDatum::Event(_) => RecordKind::Event,
    }
}

/// `d` is the datum of record `r` under version `v`.
pub open spec fn record_encodes(r: Record, v: SchemaVersion, d: RecordDatum) -> bool {
    match r {
        Record::Host(h) => {
            &&& d matches RecordDatum::Host(x)
            &&& x.uuid == spec_nil()
            &&& x.host_name@ == h.host_name@
            &&& x.host_type.is(v, host_type_symbol(h.host_type))
            &&& match v {
                SchemaVersion::V19 => x.ta1_version is None,
                SchemaVersion::V20 => x.ta1_version matches Some(t) && t@ == h.ta1_version@,
            }
        },
        Record::ProvenanceTagNode(t) => {
            &&& d matches RecordDatum::ProvenanceTagNode(x)
            &&& x.tag_id == t.tag_id
            &&& x.subject == spec_nil()
            &&& x.properties == t.properties
        },
        Record::Subject(s) => {
            &&& d matches RecordDatum::Subject(x)
            &&& x.uuid == s.uuid
            &&& x.ty.is(v, subject_type_symbol(s.ty))
            &&& x.cid == 0
            &&& x.properties == s.properties
        },
        Record::SrcSinkObject(o) => {
            &&& d matches RecordDatum::SrcSinkObject(x)
            &&& x.uuid == o.uuid
            &&& x.base_properties == o.base_object.properties
            &&& x.ty.is(v, src_sink_type_symbol(o.ty))
        },
        Record::Event(e) => {
            &&& d matches RecordDatum::Event(x)
            &&& x.uuid == e.uuid
            &&& x.ty.is(v, event_type_symbol(e.ty))
            &&& x.subject == e.subject
            &&& x.predicate_object == e.predicate_object
            &&& x.predicate_object2 == e.predicate_object2
            &&& x.timestamp_nanos == e.timestamp_nanos
            &&& x.properties == e.properties
        },
    }
}

/// `d` is the datum of envelope `e`.
pub open spec fn encodes(e: Envelope, d: CdmDatum) -> bool {
    &&& record_encodes(e.datum, e.version, d.datum)
    &&& d.cdm_version@ == version_text(e.version)
    &&& d.record_type.is(e.version, record_kind_symbol(e.kind))
    &&& d.host_id == e.host_id
    &&& d.session_number == e.session_number
    &&& d.source.is(e.version, Symbol::SourcePvm)
}

/// Resolves an envelope into its datum.
pub fn encode(e: Envelope) -> (d: CdmDatum)
    ensures
        encodes(e, d),
        e.kind == kind_of(e.datum) ==> d.record_type.is(
            e.version,
            record_kind_symbol(datum_kind(d.datum)),
        ),
{
    let v = e.version;
    let record_type = code(v, e.kind.symbol());
    let datum = match e.datum {
        Record::Host(h) => {
            let ta1_version = match v {
                SchemaVersion::V19 => None,
                SchemaVersion::V20 => Some(h.ta1_version),
            };
            RecordDatum::Host(
                HostDatum {
                    uuid: ExtId::nil(),
                    host_name: h.host_name,
                    host_type: code(v, h.host_type.symbol()),
                    ta1_version,
                },
            )
        },
        Record::ProvenanceTagNode(t) => RecordDatum::ProvenanceTagNode(
            TagNodeDatum { tag_id: t.tag_id, subject: ExtId::nil(), properties: t.properties },
        ),
        Record::Subject(s) => RecordDatum::Subject(
            SubjectDatum {
                uuid: s.uuid,
                ty: code(v, s.ty.symbol()),
                cid: 0,
                properties: s.properties,
            },
        ),
        Record::SrcSinkObject(o) => RecordDatum::SrcSinkObject(
            SrcSinkDatum {
                uuid: o.uuid,
                base_properties: o.base_object.properties,
                ty: code(v, o.ty.symbol()),
            },
        ),
        Record::Event(x) => RecordDatum::Event(
            EventDatum {
                uuid: x.uuid,
                ty: code(v, x.ty.symbol()),
                subject: x.subject,
                predicate_object: x.predicate_object,
                predicate_object2: x.predicate_object2,
                timestamp_nanos: x.timestamp_nanos,
                properties: x.properties,
            },
        ),
    };
    CdmDatum {
        datum,
        cdm_version: String::from_str(v.text()),
        record_type,
        host_id: e.host_id,
        session_number: e.session_number,
        source: code(v, Symbol::SourcePvm),
    }
}

} // verus!
