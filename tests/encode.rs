use cdm_views::cdm::{code, envelope, leading_host, Record, RecordKind, SchemaVersion, Symbol};
use cdm_views::classify::classify;
use cdm_views::encode::{encode, RecordDatum};
use cdm_views::ident::{external_id, ExtId, Id};
use cdm_views::model::{MutationEvent, NamedEdge, Rel};

fn named() -> MutationEvent {
    MutationEvent::CreateRel(Rel::Named(NamedEdge {
        id: Id { raw: 1 },
        src: Id { raw: 2 },
        dst: Id { raw: 3 },
        start: Id { raw: 4 },
        end: Id { raw: 5 },
    }))
}

const ALL: [Symbol; 11] = [
    Symbol::RecordHost,
    Symbol::RecordProvenanceTagNode,
    Symbol::RecordSubject,
    Symbol::RecordSrcSinkObject,
    Symbol::RecordEvent,
    Symbol::HostOther,
    Symbol::SubjectOther,
    Symbol::SrcSinkUnknown,
    Symbol::EventFlowsTo,
    Symbol::EventOther,
    Symbol::SourcePvm,
];

#[test]
fn version_20_code_table() {
    let c = code(SchemaVersion::V20, Symbol::RecordHost);
    assert_eq!((c.index, c.symbol.as_str()), (0, "RECORD_HOST"));
    let c = code(SchemaVersion::V20, Symbol::RecordEvent);
    assert_eq!((c.index, c.symbol.as_str()), (12, "RECORD_EVENT"));
    let c = code(SchemaVersion::V20, Symbol::SrcSinkUnknown);
    assert_eq!((c.index, c.symbol.as_str()), (123, "SRCSINK_UNKNOWN"));
    let c = code(SchemaVersion::V20, Symbol::EventOther);
    assert_eq!((c.index, c.symbol.as_str()), (31, "EVENT_OTHER"));
    let c = code(SchemaVersion::V20, Symbol::SourcePvm);
    assert_eq!((c.index, c.symbol.as_str()), (16, "SOURCE_PVM_CADETS"));
}

#[test]
fn versions_differ_in_every_code() {
    for s in ALL {
        assert_ne!(code(SchemaVersion::V19, s).index, code(SchemaVersion::V20, s).index);
    }
    assert_ne!(
        code(SchemaVersion::V19, Symbol::SourcePvm).symbol,
        code(SchemaVersion::V20, Symbol::SourcePvm).symbol
    );
}

#[test]
fn envelope_discriminator_matches_record() {
    let r = classify(&named());
    let e = envelope(r, SchemaVersion::V20);
    assert_eq!(e.kind, RecordKind::Event);
    assert_eq!(e.host_id, ExtId::nil());
    assert_eq!(e.session_number, 0);
    let d = encode(e);
    assert_eq!(d.record_type.index, 12);
    assert!(matches!(d.datum, RecordDatum::Event(_)));
    assert_eq!(d.cdm_version, "20");
    assert_eq!(d.source.symbol, "SOURCE_PVM_CADETS");
}

#[test]
fn event_datum_fields() {
    let d = encode(envelope(classify(&named()), SchemaVersion::V20));
    match d.datum {
        RecordDatum::Event(x) => {
            assert_eq!(x.uuid, external_id(Id { raw: 1 }));
            assert_eq!((x.ty.index, x.ty.symbol.as_str()), (31, "EVENT_OTHER"));
            assert_eq!(x.subject, Some(external_id(Id { raw: 2 })));
            assert_eq!(x.predicate_object2, None);
        }
        _ => panic!("expected an event datum"),
    }
}

#[test]
fn same_event_two_versions() {
    let a = encode(envelope(classify(&named()), SchemaVersion::V19));
    let b = encode(envelope(classify(&named()), SchemaVersion::V20));
    assert_eq!(a.cdm_version, "19");
    assert_eq!(b.cdm_version, "20");
    assert_ne!(a.record_type.index, b.record_type.index);
    assert_eq!(a.record_type.symbol, b.record_type.symbol);
    match (a.datum, b.datum) {
        (RecordDatum::Event(x), RecordDatum::Event(y)) => {
            assert_ne!(x.ty.index, y.ty.index);
            assert_eq!(x.ty.symbol, y.ty.symbol);
        }
        _ => panic!("expected event data"),
    }
}

#[test]
fn same_version_twice_identical() {
    let a = encode(envelope(classify(&named()), SchemaVersion::V20));
    let b = encode(envelope(classify(&named()), SchemaVersion::V20));
    assert_eq!(a.record_type.index, b.record_type.index);
    match (a.datum, b.datum) {
        (RecordDatum::Event(x), RecordDatum::Event(y)) => {
            assert_eq!(x.uuid, y.uuid);
            assert_eq!(x.ty.index, y.ty.index);
            assert_eq!(x.properties.into_entries(), y.properties.into_entries());
        }
        _ => panic!("expected event data"),
    }
}

#[test]
fn host_record_per_version() {
    let r = leading_host();
    assert!(matches!(r, Record::Host(_)));
    let d20 = encode(envelope(leading_host(), SchemaVersion::V20));
    assert_eq!(d20.record_type.index, 0);
    match d20.datum {
        RecordDatum::Host(h) => {
            assert_eq!(h.uuid, ExtId::nil());
            assert_eq!(h.host_name, "");
            assert_eq!((h.host_type.index, h.host_type.symbol.as_str()), (3, "HOST_OTHER"));
            assert_eq!(h.ta1_version, Some(String::new()));
        }
        _ => panic!("expected a host datum"),
    }
    let d19 = encode(envelope(leading_host(), SchemaVersion::V19));
    match d19.datum {
        RecordDatum::Host(h) => assert_eq!(h.ta1_version, None),
        _ => panic!("expected a host datum"),
    }
}
