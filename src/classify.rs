//! The mapping from one mutation event to one external record.
use vstd::prelude::*;
use crate::cdm::{
    AbstractObject, Event, EventType, ProvenanceTagNode, Record, SrcSinkObject, SrcSinkType, Subject,
    SubjectType, record_wf,
};
use crate::ident::{external_id, dec_text, hyphen_text, ext_id_of, Id};
use crate::model::{
    CtxNode, DataKind, DataNode, MutationEvent, NameNode, Node, Rel, SchemaNode, kind_name, names_view,
    pairs_view,
};
use crate::props::{map_of, PropBag};

verus! {

/// Texts joined with `;` between neighbours.
pub open spec fn joined(s: Seq<Seq<char>>) -> Seq<char>
    decreases s.len(),
{
    if s.len() == 0 {
        Seq::empty()
    } else if s.len() == 1 {
        s[0]
    } else {
        joined(s.drop_last()) + seq![';'] + s.last()
    }
}

/// The type tag of a data entity.
pub open spec fn data_tag(k: DataKind) -> Seq<char> {
    match k {
        DataKind::Actor => "Node;Actor"@,
        DataKind::Store => "Node;Object;Store"@,
        DataKind::Conduit => "Node;Object;Conduit"@,
        DataKind::EditSession => "Node;Object;EditSession"@,
    }
}

/// Hyphenated text of the external identifier of `id`.
pub open spec fn id_ref(id: Id) -> Seq<char> {
    hyphen_text(ext_id_of(id).value)
}

/// Properties of a data entity.
pub open spec fn data_props(d: DataNode) -> Map<Seq<char>, Seq<char>> {
    Map::empty().insert("type"@, data_tag(d.kind)).insert("schema"@, d.schema@).insert(
        "uuid"@,
        hyphen_text(d.uuid.value),
    ).insert("ctx"@, id_ref(d.ctx))
}

/// Properties of a context entity: its schema name, then its fields.
pub open spec fn ctx_props(c: CtxNode) -> Map<Seq<char>, Seq<char>> {
    Map::empty().insert("type"@, "Node;Context"@).insert("schema"@, c.schema@).union_prefer_right(
        map_of(pairs_view(c.fields@)),
    )
}

/// Properties of a schema entity.
pub open spec fn schema_props(name: Seq<char>, base: Seq<char>, props: Seq<String>) -> Map<
    Seq<char>,
    Seq<char>,
> {
    Map::empty().insert("type"@, "Node;Schema"@).insert("name"@, name).insert("base"@, base).insert(
        "props"@,
        joined(names_view(props)),
    )
}

/// `r` is the tag node of entity `id` with properties `p`.
pub open spec fn is_tag_node(r: Record, id: Id, p: Map<Seq<char>, Seq<char>>) -> bool {
    &&& r matches Record::ProvenanceTagNode(t)
    &&& t.tag_id == ext_id_of(id)
    &&& t.properties@ == p
}

/// The record that a node maps to.
pub open spec fn node_record(n: Node, r: Record) -> bool {
    match n {
        Node::Data(d) => if d.kind == DataKind::Actor {
            &&& r matches Record::Subject(s)
            &&& s.uuid == ext_id_of(d.id)
            &&& s.ty == SubjectType::Other
            &&& s.properties@ == data_props(d)
        } else {
            &&& r matches Record::SrcSinkObject(o)
            &&& o.uuid == ext_id_of(d.id)
            &&& o.ty == SrcSinkType::Unknown
            &&& o.base_object.properties@ == data_props(d)
        },
        Node::Name(NameNode::Path(id, p)) => is_tag_node(
            r,
            id,
            Map::empty().insert("type"@, "Node;Name;Path"@).insert("path"@, p@),
        ),
        Node::Name(NameNode::Net(id, a, port)) => is_tag_node(
            r,
            id,
            Map::empty().insert("type"@, "Node;Name;Net"@).insert("addr"@, a@).insert(
                "port"@,
                dec_text(port as nat),
            ),
        ),
        Node::Ctx(c) => is_tag_node(r, c.id, ctx_props(c)),
        Node::Schema(SchemaNode::Data(id, s)) => is_tag_node(
            r,
            id,
            schema_props(s.name@, kind_name(s.base), s.props@),
        ),
        Node::Schema(SchemaNode::Context(id, s)) => is_tag_node(
            r,
            id,
            schema_props(s.name@, "Context"@, s.props@),
        ),
    }
}

/// The record that a relationship maps to.
pub open spec fn rel_record(x: Rel, r: Record) -> bool {
    match x {
        Rel::Inf(i) => {
            &&& r matches Record::Event(e)
            &&& e.uuid == ext_id_of(i.id)
            &&& e.ty == EventType::FlowsTo
            &&& e.subject is None
            &&& e.predicate_object == Some(ext_id_of(i.src))
            &&& e.predicate_object2 == Some(ext_id_of(i.dst))
            &&& e.timestamp_nanos == 0
            &&& e.properties@ == Map::empty().insert("type"@, "INF"@).insert("ctx"@, id_ref(i.ctx))
        },
        Rel::Named(n) => {
            &&& r matches Record::Event(e)
            &&& e.uuid == ext_id_of(n.id)
            &&& e.ty == EventType::Other
            &&& e.subject == Some(ext_id_of(n.src))
            &&& e.predicate_object == Some(ext_id_of(n.dst))
            &&& e.predicate_object2 is None
            &&& e.timestamp_nanos == 0
            &&& e.properties@ == Map::empty().insert("type"@, "NAMED"@).insert(
                "start"@,
                id_ref(n.start),
            ).insert("end"@, id_ref(n.end))
        },
    }
}

/// The record that an event maps to; creates and updates map alike.
pub open spec fn classifies(ev: MutationEvent, r: Record) -> bool {
    match ev {
        MutationEvent::CreateNode(n) => node_record(n, r),
        MutationEvent::UpdateNode(n) => node_record(n, r),
        MutationEvent::CreateRel(x) => rel_record(x, r),
        MutationEvent::UpdateRel(x) => rel_record(x, r),
    }
}

/// Joins texts with `;`.
pub fn join_names(parts: &Vec<String>) -> (r: String)
    ensures
        r@ == joined(names_view(parts@)),
{
    let mut out = String::new();
    let mut i: usize = 0;
    while i < parts.len()
        invariant
            i <= parts@.len(),
            out@ == joined(names_view(parts@).subrange(0, i as int)),
        decreases parts@.len() - i,
    {
        if i > 0 {
            out.append(";");
        }
        out.append(parts[i].as_str());
        proof {
            reveal_strlit(";");
            let s = names_view(parts@).subrange(0, i + 1);
            assert(s.drop_last() =~= names_view(parts@).subrange(0, i as int));
            assert(out@ =~= joined(s));
        }
        i = i + 1;
    }
    assert(names_view(parts@).subrange(0, parts@.len() as int) =~= names_view(parts@));
    out
}

fn id_text_of(id: Id) -> (r: String)
    ensures
        r@ == id_ref(id),
{
    external_id(id).hyphenated()
}

fn data_bag(d: &DataNode) -> (r: PropBag)
    ensures
        r.wf(),
        r@ == data_props(*d),
{
    let tag: &str = match d.kind {
        DataKind::Actor => "Node;Actor",
        DataKind::Store => "Node;Object;Store",
        DataKind::Conduit => "Node;Object;Conduit",
        DataKind::EditSession => "Node;Object;EditSession",
    };
    let mut p = PropBag::new();
    p.put("type", tag);
    p.insert(String::from_str("schema"), d.schema.clone());
    p.insert(String::from_str("uuid"), d.uuid.hyphenated());
    p.insert(String::from_str("ctx"), id_text_of(d.ctx));
    p
}

fn ctx_bag(c: &CtxNode) -> (r: PropBag)
    ensures
        r.wf(),
        r@ == ctx_props(*c),
{
    let mut p = PropBag::new();
    p.put("type", "Node;Context");
    p.insert(String::from_str("schema"), c.schema.clone());
    let ghost base = p@;
    let mut i: usize = 0;
    while i < c.fields.len()
        invariant
            i <= c.fields@.len(),
            p.wf(),
            base == Map::empty().insert("type"@, "Node;Context"@).insert("schema"@, c.schema@),
            p@ == base.union_prefer_right(map_of(pairs_view(c.fields@).subrange(0, i as int))),
        decreases c.fields@.len() - i,
    {
        p.insert(c.fields[i].0.clone(), c.fields[i].1.clone());
        proof {
            let s = pairs_view(c.fields@).subrange(0, i + 1);
            assert(s.drop_last() =~= pairs_view(c.fields@).subrange(0, i as int));
            assert(p@ =~= base.union_prefer_right(map_of(s)));
        }
        i = i + 1;
    }
    assert(pairs_view(c.fields@).subrange(0, c.fields@.len() as int) =~= pairs_view(c.fields@));
    p
}

fn schema_bag(name: &String, base: &str, props: &Vec<String>) -> (r: PropBag)
    ensures
        r.wf(),
        r@ == schema_props(name@, base@, props@),
{
    let mut p = PropBag::new();
    p.put("type", "Node;Schema");
    p.insert(String::from_str("name"), name.clone());
    p.put("base", base);
    p.insert(String::from_str("props"), join_names(props));
    p
}

fn node_to_record(n: &Node) -> (r: Record)
    ensures
        node_record(*n, r),
        record_wf(r),
{
    match n {
        Node::Data(d) => {
            if d.kind == DataKind::Actor {
                Record::Subject(
                    Subject { uuid: external_id(d.id), ty: SubjectType::Other, properties: data_bag(d) },
                )
            } else {
                Record::SrcSinkObject(
                    SrcSinkObject {
                        uuid: external_id(d.id),
                        base_object: AbstractObject { properties: data_bag(d) },
                        ty: SrcSinkType::Unknown,
                    },
                )
            }
        },
        Node::Name(NameNode::Path(id, path)) => {
            let mut p = PropBag::new();
            p.put("type", "Node;Name;Path");
            p.insert(String::from_str("path"), path.clone());
            Record::ProvenanceTagNode(ProvenanceTagNode { tag_id: external_id(*id), properties: p })
        },
        Node::Name(NameNode::Net(id, addr, port)) => {
            let mut p = PropBag::new();
            p.put("type", "Node;Name;Net");
            p.insert(String::from_str("addr"), addr.clone());
            p.insert(String::from_str("port"), crate::ident::decimal(*port as u64));
            Record::ProvenanceTagNode(ProvenanceTagNode { tag_id: external_id(*id), properties: p })
        },
        Node::Ctx(c) => Record::ProvenanceTagNode(
            ProvenanceTagNode { tag_id: external_id(c.id), properties: ctx_bag(c) },
        ),
        Node::Schema(SchemaNode::Data(id, s)) => Record::ProvenanceTagNode(
            ProvenanceTagNode {
                tag_id: external_id(*id),
                properties: schema_bag(&s.name, s.base.name(), &s.props),
            },
        ),
        Node::Schema(SchemaNode::Context(id, s)) => Record::ProvenanceTagNode(
            ProvenanceTagNode {
                tag_id: external_id(*id),
                properties: schema_bag(&s.name, "Context", &s.props),
            },
        ),
    }
}

fn rel_to_record(x: &Rel) -> (r: Record)
    ensures
        rel_record(*x, r),
        record_wf(r),
{
    match x {
        Rel::Inf(i) => {
            let mut p = PropBag::new();
            p.put("type", "INF");
            p.insert(String::from_str("ctx"), id_text_of(i.ctx));
            Record::Event(
                Event {
                    uuid: external_id(i.id),
                    ty: EventType::FlowsTo,
                    subject: None,
                    predicate_object: Some(external_id(i.src)),
                    predicate_object2: Some(external_id(i.dst)),
                    timestamp_nanos: 0,
                    properties: p,
                },
            )
        },
        Rel::Named(n) => {
            let mut p = PropBag::new();
            p.put("type", "NAMED");
            p.insert(String::from_str("start"), id_text_of(n.start));
            p.insert(String::from_str("end"), id_text_of(n.end));
            Record::Event(
                Event {
                    uuid: external_id(n.id),
                    ty: EventType::Other,
                    subject: Some(external_id(n.src)),
                    predicate_object: Some(external_id(n.dst)),
                    predicate_object2: None,
                    timestamp_nanos: 0,
                    properties: p,
                },
            )
        },
    }
}

/// Maps one mutation event to its external record.
pub fn classify(ev: &MutationEvent) -> (r: Record)
    ensures
        classifies(*ev, r),
        record_wf(r),
{
    match ev {
        MutationEvent::CreateNode(n) => node_to_record(n),
        MutationEvent::UpdateNode(n) => node_to_record(n),
        MutationEvent::CreateRel(x) => rel_to_record(x),
        MutationEvent::UpdateRel(x) => rel_to_record(x),
    }
}

} // verus!
