//! The graph engine's mutation events, as this library receives them.
use vstd::prelude::*;
use crate::ident::{ExtId, Id};

verus! {

/// Base category of a data entity.
#[derive(Clone, Copy, Debug, PartialEq, Eq, Structural)]
pub enum DataKind {
    Actor,
    Store,
    Conduit,
    EditSession,
}

/// Name of a data category, as the schema entities report it.
pub open spec fn kind_name(k: DataKind) -> Seq<char> {
    match k {
        DataKind::Actor => "Actor"@,
        DataKind::Store => "Store"@,
        DataKind::Conduit => "Conduit"@,
        DataKind::EditSession => "EditSession"@,
    }
}

/// Key/value pairs as sequences of characters.
pub open spec fn pairs_view(v: Seq<(String, String)>) -> Seq<(Seq<char>, Seq<char>)> {
    v.map_values(|p: (String, String)| (p.0@, p.1@))
}

/// Names as sequences of characters.
pub open spec fn names_view(v: Seq<String>) -> Seq<Seq<char>> {
    v.map_values(|s: String| s@)
}

impl DataKind {
    pub fn name(&self) -> (r: &'static str)
        ensures
            r@ == kind_name(*self),
    {
        match self {
            DataKind::Actor => "Actor",
            DataKind::Store => "Store",
            DataKind::Conduit => "Conduit",
            DataKind::EditSession => "EditSession",
        }
    }
}

/// A data entity: an actor, a store, a conduit or an edit session.
pub struct DataNode {
    pub id: Id,
    pub kind: DataKind,
    /// The entity's own UUID, assigned by the engine.
    pub uuid: ExtId,
    /// Name of the entity's type schema.
    pub schema: String,
    /// The context in which the entity was last changed.
    pub ctx: Id,
    /// History of metadata assignments, oldest first.
    pub meta: Vec<(String, String)>,
}

/// A name entity: a file-system path or a network address.
pub enum NameNode {
    Path(Id, String),
    Net(Id, String, u16),
}

/// A context entity: its schema name and its named fields, in order.
pub struct CtxNode {
    pub id: Id,
    pub schema: String,
    pub fields: Vec<(String, String)>,
}

/// Declared type of a data entity.
pub struct DataSchema {
    pub name: String,
    pub base: DataKind,
    pub props: Vec<String>,
}

/// Declared type of a context entity.
pub struct CtxSchema {
    pub name: String,
    pub props: Vec<String>,
}

/// A schema entity.
pub enum SchemaNode {
    Data(Id, DataSchema),
    Context(Id, CtxSchema),
}

pub enum Node {
    Data(DataNode),
    Name(NameNode),
    Ctx(CtxNode),
    Schema(SchemaNode),
}

/// An inferred information flow from `src` to `dst`.
pub struct InfEdge {
    pub id: Id,
    pub src: Id,
    pub dst: Id,
    pub ctx: Id,
}

/// A named relationship, with explicit start and end identifiers.
pub struct NamedEdge {
    pub id: Id,
    pub src: Id,
    pub dst: Id,
    pub start: Id,
    pub end: Id,
}

pub enum Rel {
    Inf(InfEdge),
    Named(NamedEdge),
}

/// One create or update notification from the graph engine.
pub enum MutationEvent {
    CreateNode(Node),
    UpdateNode(Node),
    CreateRel(Rel),
    UpdateRel(Rel),
}

impl DataNode {
    /// Current metadata: the last value assigned to each key.
    pub open spec fn meta_view(&self) -> Map<Seq<char>, Seq<char>> {
        crate::props::map_of(pairs_view(self.meta@))
    }

    /// The current value of metadata key `k`.
    pub fn meta_cur(&self, k: &String) -> (r: Option<&String>)
        ensures
            r matches Some(v) ==> self.meta_view().contains_key(k@) && self.meta_view()[k@] == v@,
            r is None ==> !self.meta_view().contains_key(k@),
    {
        crate::props::lookup(&self.meta, k)
    }
}

} // verus!
