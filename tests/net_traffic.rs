use cdm_views::ident::{ExtId, Id};
use cdm_views::model::{DataKind, DataNode, InfEdge, MutationEvent, NameNode, NamedEdge, Node, Rel};
use cdm_views::net_traffic::{Act, FlowLink, NetTraffic, TrafficError};

fn node(raw: u64, kind: DataKind, meta: Vec<(&str, &str)>) -> DataNode {
    DataNode {
        id: Id { raw },
        kind,
        uuid: ExtId { value: 77 },
        schema: "S".to_string(),
        ctx: Id { raw: 0 },
        meta: meta.into_iter().map(|(k, v)| (k.to_string(), v.to_string())).collect(),
    }
}

fn inf(src: u64, dst: u64) -> MutationEvent {
    MutationEvent::CreateRel(Rel::Inf(InfEdge {
        id: Id { raw: 50 },
        src: Id { raw: src },
        dst: Id { raw: dst },
        ctx: Id { raw: 0 },
    }))
}

#[test]
fn act_reads_pid_and_cmdline() {
    let a = Act::from_actor(&node(1, DataKind::Actor, vec![("pid", "42"), ("cmdline", "ls -l")])).unwrap();
    assert_eq!(a.uuid, ExtId { value: 77 });
    assert_eq!(a.pid, Some(42));
    assert_eq!(a.cmdline, Some("ls -l".to_string()));
    let b = Act::from_actor(&node(1, DataKind::Actor, vec![("pid", "-7")])).unwrap();
    assert_eq!(b.pid, Some(-7));
    assert_eq!(b.cmdline, None);
    assert!(Act::from_actor(&node(1, DataKind::Actor, vec![("pid", "x1")])).is_none());
    assert!(Act::from_actor(&node(1, DataKind::Actor, vec![("pid", "99999999999999999999")])).is_none());
}

#[test]
fn bad_pid_is_an_error() {
    let mut t = NetTraffic::new();
    let r = t.on_event(&MutationEvent::CreateNode(Node::Data(node(3, DataKind::Actor, vec![("pid", "")]))));
    assert_eq!(r, Err(TrafficError::BadPid(Id { raw: 3 })));
}

#[test]
fn flows_link_conduits_and_actors() {
    let mut t = NetTraffic::new();
    assert_eq!(t.on_event(&MutationEvent::CreateNode(Node::Data(node(1, DataKind::Conduit, vec![])))), Ok(None));
    assert_eq!(t.on_event(&inf(1, 2)), Ok(None));
    assert_eq!(t.on_event(&MutationEvent::CreateNode(Node::Data(node(2, DataKind::Actor, vec![])))), Ok(None));
    assert_eq!(t.on_event(&inf(1, 2)), Ok(Some(FlowLink::ConduitToActor(Id { raw: 1 }, Id { raw: 2 }))));
    assert_eq!(t.on_event(&inf(2, 1)), Ok(Some(FlowLink::ActorToConduit(Id { raw: 2 }, Id { raw: 1 }))));
    assert_eq!(t.on_event(&inf(2, 2)), Ok(None));
}

#[test]
fn named_flow_links_conduit_to_address() {
    let mut t = NetTraffic::new();
    t.on_event(&MutationEvent::CreateNode(Node::Data(node(1, DataKind::Conduit, vec![])))).unwrap();
    let named = MutationEvent::CreateRel(Rel::Named(NamedEdge {
        id: Id { raw: 9 },
        src: Id { raw: 1 },
        dst: Id { raw: 4 },
        start: Id { raw: 0 },
        end: Id { raw: 0 },
    }));
    assert_eq!(t.on_event(&named), Ok(None));
    t.on_event(&MutationEvent::CreateNode(Node::Name(NameNode::Net(Id { raw: 4 }, "1.2.3.4".to_string(), 80))))
        .unwrap();
    assert_eq!(t.on_event(&named), Ok(Some(FlowLink::ConduitAddress(Id { raw: 1 }, Id { raw: 4 }))));
}
