use cdm_views::cdm::{EventType, Record, RecordKind, SrcSinkType, SubjectType};
use cdm_views::classify::{classify, join_names};
use cdm_views::ident::{external_id, ExtId, Id};
use cdm_views::model::{
    CtxNode, CtxSchema, DataKind, DataNode, DataSchema, InfEdge, MutationEvent, NameNode, NamedEdge,
    Node, Rel, SchemaNode,
};
use cdm_views::props::PropBag;

fn data(id: u64, kind: DataKind) -> DataNode {
    DataNode {
        id: Id { raw: id },
        kind,
        uuid: ExtId { value: 0x0123456789abcdef0011223344556677 },
        schema: "ProcessX".to_string(),
        ctx: Id { raw: 7 },
        meta: vec![],
    }
}

fn prop<'a>(b: &'a PropBag, k: &str) -> &'a str {
    b.get(k).unwrap().as_str()
}

fn ext(raw: u64) -> String {
    external_id(Id { raw }).hyphenated()
}

#[test]
fn actor_creation_gives_subject() {
    let r = classify(&MutationEvent::CreateNode(Node::Data(data(5, DataKind::Actor))));
    assert_eq!(r.kind(), RecordKind::Subject);
    match r {
        Record::Subject(s) => {
            assert_eq!(s.uuid, external_id(Id { raw: 5 }));
            assert_eq!(s.uuid.value, 0x8e54c82f04255365ab9f2597ea3b7fd0);
            assert_eq!(s.ty, SubjectType::Other);
            assert_eq!(s.properties.len(), 4);
            assert_eq!(prop(&s.properties, "type"), "Node;Actor");
            assert_eq!(prop(&s.properties, "schema"), "ProcessX");
            assert_eq!(prop(&s.properties, "uuid"), "01234567-89ab-cdef-0011-223344556677");
            assert_eq!(prop(&s.properties, "ctx"), "728ae957-e873-5498-b524-b744234c98a8");
        }
        _ => panic!("expected a subject"),
    }
}

#[test]
fn update_maps_like_create() {
    let r = classify(&MutationEvent::UpdateNode(Node::Data(data(5, DataKind::Actor))));
    assert_eq!(r.kind(), RecordKind::Subject);
}

#[test]
fn store_conduit_session_give_src_sink_objects() {
    for (kind, tag) in [
        (DataKind::Store, "Node;Object;Store"),
        (DataKind::Conduit, "Node;Object;Conduit"),
        (DataKind::EditSession, "Node;Object;EditSession"),
    ] {
        let r = classify(&MutationEvent::CreateNode(Node::Data(data(9, kind))));
        match r {
            Record::SrcSinkObject(o) => {
                assert_eq!(o.uuid, external_id(Id { raw: 9 }));
                assert_eq!(o.ty, SrcSinkType::Unknown);
                let p = &o.base_object.properties;
                assert_eq!(p.len(), 4);
                assert_eq!(prop(p, "type"), tag);
                assert_eq!(prop(p, "schema"), "ProcessX");
                assert_eq!(prop(p, "ctx"), ext(7));
            }
            _ => panic!("expected a source/sink object"),
        }
    }
}

#[test]
fn named_edge_gives_other_event() {
    let e = NamedEdge {
        id: Id { raw: 1 },
        src: Id { raw: 2 },
        dst: Id { raw: 3 },
        start: Id { raw: 4 },
        end: Id { raw: 9 },
    };
    let r = classify(&MutationEvent::CreateRel(Rel::Named(e)));
    match r {
        Record::Event(ev) => {
            assert_eq!(ev.uuid, external_id(Id { raw: 1 }));
            assert_eq!(ev.ty, EventType::Other);
            assert_eq!(ev.subject, Some(external_id(Id { raw: 2 })));
            assert_eq!(ev.predicate_object, Some(external_id(Id { raw: 3 })));
            assert_eq!(ev.predicate_object2, None);
            assert_eq!(ev.timestamp_nanos, 0);
            assert_eq!(ev.properties.len(), 3);
            assert_eq!(prop(&ev.properties, "type"), "NAMED");
            assert_eq!(prop(&ev.properties, "start"), "56d4a9af-c021-5e89-8c70-b976ae6bca06");
            assert_eq!(prop(&ev.properties, "end"), "e2fb205b-709e-5b4a-9e72-569833e17be2");
        }
        _ => panic!("expected an event"),
    }
}

#[test]
fn inference_edge_gives_flows_to_event() {
    let e = InfEdge { id: Id { raw: 1 }, src: Id { raw: 2 }, dst: Id { raw: 3 }, ctx: Id { raw: 4 } };
    let r = classify(&MutationEvent::UpdateRel(Rel::Inf(e)));
    match r {
        Record::Event(ev) => {
            assert_eq!(ev.ty, EventType::FlowsTo);
            assert_eq!(ev.subject, None);
            assert_eq!(ev.predicate_object, Some(external_id(Id { raw: 2 })));
            assert_eq!(ev.predicate_object2, Some(external_id(Id { raw: 3 })));
            assert_eq!(ev.properties.len(), 2);
            assert_eq!(prop(&ev.properties, "type"), "INF");
            assert_eq!(prop(&ev.properties, "ctx"), ext(4));
        }
        _ => panic!("expected an event"),
    }
}

#[test]
fn path_name_gives_tag_node() {
    let r = classify(&MutationEvent::CreateNode(Node::Name(NameNode::Path(
        Id { raw: 3 },
        "/etc/passwd".to_string(),
    ))));
    match r {
        Record::ProvenanceTagNode(t) => {
            assert_eq!(t.tag_id, external_id(Id { raw: 3 }));
            assert_eq!(t.properties.len(), 2);
            assert_eq!(prop(&t.properties, "type"), "Node;Name;Path");
            assert_eq!(prop(&t.properties, "path"), "/etc/passwd");
        }
        _ => panic!("expected a tag node"),
    }
}

#[test]
fn network_name_stringifies_port() {
    let r = classify(&MutationEvent::CreateNode(Node::Name(NameNode::Net(
        Id { raw: 3 },
        "10.0.0.1".to_string(),
        8080,
    ))));
    match r {
        Record::ProvenanceTagNode(t) => {
            assert_eq!(t.properties.len(), 3);
            assert_eq!(prop(&t.properties, "type"), "Node;Name;Net");
            assert_eq!(prop(&t.properties, "addr"), "10.0.0.1");
            assert_eq!(prop(&t.properties, "port"), "8080");
        }
        _ => panic!("expected a tag node"),
    }
}

#[test]
fn context_fields_merge_into_properties() {
    let c = CtxNode {
        id: Id { raw: 4 },
        schema: "Syscall".to_string(),
        fields: vec![
            ("pid".to_string(), "12".to_string()),
            ("schema".to_string(), "overridden".to_string()),
            ("pid".to_string(), "13".to_string()),
        ],
    };
    let r = classify(&MutationEvent::CreateNode(Node::Ctx(c)));
    match r {
        Record::ProvenanceTagNode(t) => {
            assert_eq!(t.tag_id, external_id(Id { raw: 4 }));
            assert_eq!(t.properties.len(), 3);
            assert_eq!(prop(&t.properties, "type"), "Node;Context");
            assert_eq!(prop(&t.properties, "schema"), "overridden");
            assert_eq!(prop(&t.properties, "pid"), "13");
        }
        _ => panic!("expected a tag node"),
    }
}

#[test]
fn data_schema_joins_property_names() {
    let s = DataSchema {
        name: "Process".to_string(),
        base: DataKind::Actor,
        props: vec!["pid".to_string(), "cmdline".to_string(), "cwd".to_string()],
    };
    let r = classify(&MutationEvent::CreateNode(Node::Schema(SchemaNode::Data(Id { raw: 2 }, s))));
    match r {
        Record::ProvenanceTagNode(t) => {
            assert_eq!(t.properties.len(), 4);
            assert_eq!(prop(&t.properties, "type"), "Node;Schema");
            assert_eq!(prop(&t.properties, "name"), "Process");
            assert_eq!(prop(&t.properties, "base"), "Actor");
            assert_eq!(prop(&t.properties, "props"), "pid;cmdline;cwd");
        }
        _ => panic!("expected a tag node"),
    }
}

#[test]
fn context_schema_has_context_base() {
    let s = CtxSchema { name: "Syscall".to_string(), props: vec!["pid".to_string()] };
    let r = classify(&MutationEvent::UpdateNode(Node::Schema(SchemaNode::Context(Id { raw: 2 }, s))));
    match r {
        Record::ProvenanceTagNode(t) => {
            assert_eq!(prop(&t.properties, "base"), "Context");
            assert_eq!(prop(&t.properties, "props"), "pid");
        }
        _ => panic!("expected a tag node"),
    }
}

#[test]
fn join_names_edges() {
    assert_eq!(join_names(&vec![]), "");
    assert_eq!(join_names(&vec!["a".to_string()]), "a");
    assert_eq!(join_names(&vec!["a".to_string(), "".to_string(), "b".to_string()]), "a;;b");
}
