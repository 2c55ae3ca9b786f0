//! The network-traffic correlator: the actors, conduits and addresses that
//! it has seen, and the flows that join them.
use vstd::prelude::*;
use vstd::hash_map::HashMapWithView;
use vstd::hash_set::HashSetWithView;
use crate::ident::{dec_text, push_decimal, ExtId, Id};
use crate::model::{DataKind, DataNode, MutationEvent, NameNode, Node, Rel};

verus! {

broadcast use vstd::std_specs::hash::group_hash_axioms;

pub open spec fn is_digit(c: char) -> bool {
    '0' <= c <= '9'
}

/// Value of a non-empty run of decimal digits.
pub open spec fn digits_value(s: Seq<char>) -> int
    decreases s.len(),
{
    if s.len() == 0 {
        0
    } else {
        digits_value(s.drop_last()) * 10 + (s.last() as int - '0' as int)
    }
}

pub open spec fn all_digits(s: Seq<char>) -> bool {
    s.len() > 0 && forall|i: int| 0 <= i < s.len() ==> is_digit(#[trigger] s[i])
}

/// The integer that a text names: an optional `+` or `-`, then decimal digits.
pub open spec fn int_text_value(s: Seq<char>) -> Option<int> {
    if s.len() > 0 && s[0] == '-' && all_digits(s.drop_first()) {
        Some(-digits_value(s.drop_first()))
    } else if s.len() > 0 && s[0] == '+' && all_digits(s.drop_first()) {
        Some(digits_value(s.drop_first()))
    } else if all_digits(s) {
        Some(digits_value(s))
    } else {
        None
    }
}

/// What `str::parse::<i64>` returns for a text.
pub open spec fn parsed_i64(s: Seq<char>) -> Option<i64> {
    match int_text_value(s) {
        Some(n) => if i64::MIN <= n <= i64::MAX {
            Some(n as i64)
        } else {
            None
        },
        None => None,
    }
}

/// Relies on std's `str::parse::<i64>`: an optional sign and decimal digits
/// whose value fits; anything else is an error.
#[verifier::external_body]
fn parse_i64(s: &str) -> (r: Option<i64>)
    ensures
        r == parsed_i64(s@),
{
    s.parse::<i64>().ok()
}

/// What the correlator remembers of an actor.
pub struct Act {
    pub uuid: ExtId,
    pub pid: Option<i64>,
    pub cmdline: Option<String>,
}

/// The metadata value under `k`, if any.
pub open spec fn meta_of(n: DataNode, k: Seq<char>) -> Option<Seq<char>> {
    if n.meta_view().contains_key(k) {
        Some(n.meta_view()[k])
    } else {
        None
    }
}

impl Act {
    /// The record of an actor, from its current `pid` and `cmdline`
    /// metadata; `None` when a `pid` is present and is not an integer.
    pub fn from_actor(val: &DataNode) -> (r: Option<Act>)
        ensures
            match meta_of(*val, "pid"@) {
                Some(p) => parsed_i64(p) is None <==> r is None,
                None => r is Some,
            },
            r matches Some(a) ==> {
                &&& a.uuid == val.uuid
                &&& a.pid == match meta_of(*val, "pid"@) {
                    Some(p) => parsed_i64(p),
                    None => None,
                }
                &&& match (a.cmdline, meta_of(*val, "cmdline"@)) {
                    (Some(c), Some(m)) => c@ == m,
                    (None, None) => true,
                    _ => false,
                }
            },
    {
        let pid_key = String::from_str("pid");
        let cmd_key = String::from_str("cmdline");
        let pid = match val.meta_cur(&pid_key) {
            Some(p) => match parse_i64(p.as_str()) {
                Some(v) => Some(v),
                None => return None,
            },
            None => None,
        };
        let cmdline = match val.meta_cur(&cmd_key) {
            Some(c) => Some(c.clone()),
            None => None,
        };
        Some(Act { uuid: val.uuid, pid, cmdline })
    }
}

/// A flow that joins a conduit to something the correlator knows.
#[derive(Clone, Copy, Debug, PartialEq, Eq, Structural)]
pub enum FlowLink {
    /// Data flowed from a conduit into an actor.
    ConduitToActor(Id, Id),
    /// Data flowed from an actor into a conduit.
    ActorToConduit(Id, Id),
    /// A conduit is named by a network address.
    ConduitAddress(Id, Id),
}

/// The text `addr:port` of a network address.
pub open spec fn addr_text(addr: Seq<char>, port: u16) -> Seq<char> {
    addr + seq![':'] + dec_text(port as nat)
}

/// Errors of the correlator.
#[derive(Clone, Copy, Debug, PartialEq, Eq, Structural)]
pub enum TrafficError {
    /// An actor's `pid` metadata is not an integer.
    BadPid(Id),
}

/// The state of the correlator.
pub struct NetTraffic {
    actors: HashMapWithView<u64, Act>,
    conduits: HashSetWithView<u64>,
    addrs: HashMapWithView<u64, String>,
}

impl NetTraffic {
    pub closed spec fn spec_actors(&self) -> Set<u64> {
        self.actors@.dom()
    }

    pub closed spec fn spec_conduits(&self) -> Set<u64> {
        self.conduits@
    }

    /// Known network addresses, as `addr:port` texts.
    pub closed spec fn spec_addrs(&self) -> Map<u64, Seq<char>> {
        self.addrs@.map_values(|s: String| s@)
    }

    /// A correlator that has seen nothing.
    pub fn new() -> (r: NetTraffic)
        ensures
            r.spec_actors().is_empty(),
            r.spec_conduits().is_empty(),
            r.spec_addrs().is_empty(),
    {
        let r = NetTraffic {
            actors: HashMapWithView::new(),
            conduits: HashSetWithView::new(),
            addrs: HashMapWithView::new(),
        };
        assert(r.spec_addrs() =~= Map::<u64, Seq<char>>::empty());
        r
    }

    /// Takes in one event. Actors, conduits and network addresses are
    /// remembered; a new flow reports the link it makes, if any.
    pub fn on_event(&mut self, ev: &MutationEvent) -> (r: Result<Option<FlowLink>, TrafficError>)
        ensures
            match *ev {
                MutationEvent::CreateNode(Node::Data(n)) | MutationEvent::UpdateNode(Node::Data(n)) => {
                    &&& final(self).spec_conduits() == if n.kind == DataKind::Conduit {
                        old(self).spec_conduits().insert(n.id.raw)
                    } else {
                        old(self).spec_conduits()
                    }
                    &&& final(self).spec_addrs() == old(self).spec_addrs()
                    &&& n.kind == DataKind::Actor && r is Ok ==> final(self).spec_actors()
                        == old(self).spec_actors().insert(n.id.raw)
                    &&& n.kind != DataKind::Actor ==> final(self).spec_actors() == old(self).spec_actors()
                    &&& r is Err <==> (n.kind == DataKind::Actor && match meta_of(n, "pid"@) {
                        Some(p) => parsed_i64(p) is None,
                        None => false,
                    })
                    &&& r is Err ==> r == Err::<Option<FlowLink>, TrafficError>(TrafficError::BadPid(n.id))
                    &&& r is Ok ==> r == Ok::<Option<FlowLink>, TrafficError>(None)
                },
                MutationEvent::CreateNode(Node::Name(NameNode::Net(id, a, p)))
                | MutationEvent::UpdateNode(Node::Name(NameNode::Net(id, a, p))) => {
                    &&& final(self).spec_addrs() == old(self).spec_addrs().insert(id.raw, addr_text(a@, p))
                    &&& final(self).spec_actors() == old(self).spec_actors()
                    &&& final(self).spec_conduits() == old(self).spec_conduits()
                    &&& r == Ok::<Option<FlowLink>, TrafficError>(None)
                },
                MutationEvent::CreateRel(x) => {
                    &&& final(self).spec_addrs() == old(self).spec_addrs()
                    &&& final(self).spec_actors() == old(self).spec_actors()
                    &&& final(self).spec_conduits() == old(self).spec_conduits()
                    &&& r == Ok::<Option<FlowLink>, TrafficError>(
                        old(self).link_of(x),
                    )
                },
                _ => {
                    &&& final(self).spec_addrs() == old(self).spec_addrs()
                    &&& final(self).spec_actors() == old(self).spec_actors()
                    &&& final(self).spec_conduits() == old(self).spec_conduits()
                    &&& r == Ok::<Option<FlowLink>, TrafficError>(None)
                },
            },
    {
        match ev {
            MutationEvent::CreateNode(n) | MutationEvent::UpdateNode(n) => self.on_node(n),
            MutationEvent::CreateRel(x) => Ok(self.link(x)),
            _ => Ok(None),
        }
    }

    /// The link that a new relationship makes with what is known.
    pub open spec fn link_of(&self, x: Rel) -> Option<FlowLink> {
        match x {
            Rel::Inf(i) => if self.spec_conduits().contains(i.src.raw) {
                if self.spec_actors().contains(i.dst.raw) {
                    Some(FlowLink::ConduitToActor(i.src, i.dst))
                } else {
                    None
                }
            } else if self.spec_conduits().contains(i.dst.raw) && self.spec_actors().contains(
                i.src.raw,
            ) {
                Some(FlowLink::ActorToConduit(i.src, i.dst))
            } else {
                None
            },
            Rel::Named(n) => if self.spec_conduits().contains(n.src.raw)
                && self.spec_addrs().contains_key(n.dst.raw) {
                Some(FlowLink::ConduitAddress(n.src, n.dst))
            } else {
                None
            },
        }
    }

    fn link(&self, x: &Rel) -> (r: Option<FlowLink>)
        ensures
            r == self.link_of(*x),
    {
        match x {
            Rel::Inf(i) => {
                if self.conduits.contains(&i.src.raw) {
                    if self.actors.contains_key(&i.dst.raw) {
                        Some(FlowLink::ConduitToActor(i.src, i.dst))
                    } else {
                        None
                    }
                } else if self.conduits.contains(&i.dst.raw) && self.actors.contains_key(&i.src.raw) {
                    Some(FlowLink::ActorToConduit(i.src, i.dst))
                } else {
                    None
                }
            },
            Rel::Named(n) => {
                if self.conduits.contains(&n.src.raw) && self.addrs.contains_key(&n.dst.raw) {
                    Some(FlowLink::ConduitAddress(n.src, n.dst))
                } else {
                    None
                }
            },
        }
    }

    fn on_node(&mut self, n: &Node) -> (r: Result<Option<FlowLink>, TrafficError>)
        ensures
            match *n {
                Node::Data(n) => {
                    &&& final(self).spec_conduits() == if n.kind == DataKind::Conduit {
                        old(self).spec_conduits().insert(n.id.raw)
                    } else {
                        old(self).spec_conduits()
                    }
                    &&& final(self).spec_addrs() == old(self).spec_addrs()
                    &&& n.kind == DataKind::Actor && r is Ok ==> final(self).spec_actors()
                        == old(self).spec_actors().insert(n.id.raw)
                    &&& n.kind != DataKind::Actor ==> final(self).spec_actors() == old(self).spec_actors()
                    &&& r is Err <==> (n.kind == DataKind::Actor && match meta_of(n, "pid"@) {
                        Some(p) => parsed_i64(p) is None,
                        None => false,
                    })
                    &&& r is Err ==> r == Err::<Option<FlowLink>, TrafficError>(TrafficError::BadPid(n.id))
                    &&& r is Ok ==> r == Ok::<Option<FlowLink>, TrafficError>(None)
                },
                Node::Name(NameNode::Net(id, a, p)) => {
                    &&& final(self).spec_addrs() == old(self).spec_addrs().insert(id.raw, addr_text(a@, p))
                    &&& final(self).spec_actors() == old(self).spec_actors()
                    &&& final(self).spec_conduits() == old(self).spec_conduits()
                    &&& r == Ok::<Option<FlowLink>, TrafficError>(None)
                },
                _ => {
                    &&& final(self).spec_addrs() == old(self).spec_addrs()
                    &&& final(self).spec_actors() == old(self).spec_actors()
                    &&& final(self).spec_conduits() == old(self).spec_conduits()
                    &&& r == Ok::<Option<FlowLink>, TrafficError>(None)
                },
            },
    {
        match n {
            Node::Data(d) => {
                match d.kind {
                    DataKind::Actor => match Act::from_actor(d) {
                        Some(act) => {
                            self.actors.insert(d.id.raw, act);
                            Ok(None)
                        },
                        None => Err(TrafficError::BadPid(d.id)),
                    },
                    DataKind::Conduit => {
                        self.conduits.insert(d.id.raw);
                        Ok(None)
                    },
                    _ => Ok(None),
                }
            },
            Node::Name(NameNode::Net(id, addr, port)) => {
                let mut text = addr.clone();
                text.append(":");
                push_decimal(&mut text, *port as u64);
                proof {
                    reveal_strlit(":");
                }
                let ghost before = self.spec_addrs();
                let ghost tv = text@;
                self.addrs.insert(id.raw, text);
                proof {
                    assert(tv =~= addr_text(addr@, *port));
                    assert(self.spec_addrs() =~= before.insert(id.raw, tv));
                }
                Ok(None)
            },
            _ => Ok(None),
        }
    }
}

} // verus!
