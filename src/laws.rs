//! Properties that relate the classifier, the envelope and the encoder.
use vstd::prelude::*;
use crate::cdm::{
    kind_of, record_kind_symbol, version_text, wraps, EnumCode, Envelope, Record, RecordKind,
    SchemaVersion,
};
use crate::classify::classifies;
use crate::encode::{datum_kind, encodes, record_encodes, CdmDatum, RecordDatum};
use crate::model::{DataKind, MutationEvent, Node};

verus! {

/// The record kind that the mapping table assigns to an event.
pub open spec fn mapped_kind(ev: MutationEvent) -> RecordKind {
    match ev {
        MutationEvent::CreateNode(n) => node_kind(n),
        MutationEvent::UpdateNode(n) => node_kind(n),
        MutationEvent::CreateRel(_) => RecordKind::Event,
        MutationEvent::UpdateRel(_) => RecordKind::Event,
    }
}

pub open spec fn node_kind(n: Node) -> RecordKind {
    match n {
        Node::Data(d) => if d.kind == DataKind::Actor {
            RecordKind::Subject
        } else {
            RecordKind::SrcSinkObject
        },
        _ => RecordKind::ProvenanceTagNode,
    }
}

/// Every event has exactly one row of the mapping table: whatever record
/// an event classifies to has the kind that the table gives it.
pub proof fn lemma_classification_exhaustive(ev: MutationEvent, r: Record)
    requires
        classifies(ev, r),
    ensures
        kind_of(r) == mapped_kind(ev),
{
}

/// The record datum holds the kind of the record it encodes.
pub proof fn lemma_datum_kind(r: Record, v: SchemaVersion, d: RecordDatum)
    requires
        record_encodes(r, v, d),
    ensures
        datum_kind(d) == kind_of(r),
{
}

/// In every produced datum the discriminator is the code of the kind of the
/// record that it wraps.
pub proof fn lemma_discriminator_agrees(r: Record, v: SchemaVersion, e: Envelope, d: CdmDatum)
    requires
        wraps(e, r, v),
        encodes(e, d),
    ensures
        d.record_type.is(v, record_kind_symbol(datum_kind(d.datum))),
{
    lemma_datum_kind(r, v, d.datum);
}

/// Integer code of the subtype that a datum carries, if it carries one.
pub open spec fn subtype_code(d: RecordDatum) -> Option<i32> {
    match d {
        RecordDatum::Host(x) => Some(x.host_type.index),
        RecordDatum::ProvenanceTagNode(_) => None,
        RecordDatum::Subject(x) => Some(x.ty.index),
        RecordDatum::SrcSinkObject(x) => Some(x.ty.index),
        RecordDatum::Event(x) => Some(x.ty.index),
    }
}

pub open spec fn same_code(a: EnumCode, b: EnumCode) -> bool {
    a.index == b.index && a.symbol@ == b.symbol@
}

/// Two record data agree in every field.
pub open spec fn same_record_datum(a: RecordDatum, b: RecordDatum) -> bool {
    match (a, b) {
        (RecordDatum::Host(x), RecordDatum::Host(y)) => {
            &&& x.uuid == y.uuid
            &&& x.host_name@ == y.host_name@
            &&& same_code(x.host_type, y.host_type)
            &&& match (x.ta1_version, y.ta1_version) {
                (None, None) => true,
                (Some(s), Some(t)) => s@ == t@,
                _ => false,
            }
        },
        (RecordDatum::ProvenanceTagNode(x), RecordDatum::ProvenanceTagNode(y)) => {
            &&& x.tag_id == y.tag_id
            &&& x.subject == y.subject
            &&& x.properties@ == y.properties@
        },
        (RecordDatum::Subject(x), RecordDatum::Subject(y)) => {
            &&& x.uuid == y.uuid
            &&& same_code(x.ty, y.ty)
            &&& x.cid == y.cid
            &&& x.properties@ == y.properties@
        },
        (RecordDatum::SrcSinkObject(x), RecordDatum::SrcSinkObject(y)) => {
            &&& x.uuid == y.uuid
            &&& same_code(x.ty, y.ty)
            &&& x.base_properties@ == y.base_properties@
        },
        (RecordDatum::Event(x), RecordDatum::Event(y)) => {
            &&& x.uuid == y.uuid
            &&& same_code(x.ty, y.ty)
            &&& x.subject == y.subject
            &&& x.predicate_object == y.predicate_object
            &&& x.predicate_object2 == y.predicate_object2
            &&& x.timestamp_nanos == y.timestamp_nanos
            &&& x.properties@ == y.properties@
        },
        _ => false,
    }
}

/// Two data agree in every field.
pub open spec fn same_datum(a: CdmDatum, b: CdmDatum) -> bool {
    &&& same_record_datum(a.datum, b.datum)
    &&& a.cdm_version@ == b.cdm_version@
    &&& same_code(a.record_type, b.record_type)
    &&& a.host_id == b.host_id
    &&& a.session_number == b.session_number
    &&& same_code(a.source, b.source)
}

/// Encoding one envelope twice gives the same datum.
pub proof fn lemma_encoding_deterministic(e: Envelope, a: CdmDatum, b: CdmDatum)
    requires
        encodes(e, a),
        encodes(e, b),
    ensures
        same_datum(a, b),
{
}

/// One record encoded under the two versions: the version strings differ,
/// and so do the integer codes of the discriminator and of the subtype.
pub proof fn lemma_version_isolation(
    r: Record,
    e19: Envelope,
    e20: Envelope,
    d19: CdmDatum,
    d20: CdmDatum,
)
    requires
        wraps(e19, r, SchemaVersion::V19),
        wraps(e20, r, SchemaVersion::V20),
        encodes(e19, d19),
        encodes(e20, d20),
    ensures
        d19.cdm_version@ != d20.cdm_version@,
        d19.record_type.index != d20.record_type.index,
        d19.record_type.symbol@ == d20.record_type.symbol@,
        subtype_code(d19.datum) is Some <==> subtype_code(d20.datum) is Some,
        subtype_code(d19.datum) is Some ==> subtype_code(d19.datum) != subtype_code(d20.datum),
{
    reveal_strlit("19");
    reveal_strlit("20");
    assert(version_text(SchemaVersion::V19)[0] == '1');
    assert(version_text(SchemaVersion::V20)[0] == '2');
}

} // verus!
