//! The process-tree exporter: which actors and flows to write, and the text
//! of its two output formats (Graphviz DOT and JSON lines).
use vstd::prelude::*;
use vstd::hash_map::HashMapWithView;
use crate::ident::{dec_text, push_decimal, Id};
use crate::model::{DataKind, MutationEvent, Node, Rel};

verus! {

broadcast use vstd::std_specs::hash::group_hash_axioms;

pub open spec fn opt_view(o: Option<String>) -> Option<Seq<char>> {
    match o {
        Some(s) => Some(s@),
        None => None,
    }
}

/// Whether a freshly read value differs from the one stored before.
pub fn neq(a: &Option<&str>, b: &Option<String>) -> (r: bool)
    ensures
        r == (match (*a, *b) {
            (Some(x), Some(y)) => x@ != y@,
            (None, None) => false,
            _ => true,
        }),
{
    match a {
        Some(va) => match b {
            Some(vb) => {
                let t = String::from_str(*va);
                !(t == *vb)
            },
            None => true,
        },
        None => b.is_some(),
    }
}

/// `s` with a backslash before every double quote.
pub open spec fn escape_quotes(s: Seq<char>) -> Seq<char>
    decreases s.len(),
{
    if s.len() == 0 {
        Seq::empty()
    } else if s.last() == '"' {
        escape_quotes(s.drop_last()) + seq!['\\', '"']
    } else {
        escape_quotes(s.drop_last()).push(s.last())
    }
}

/// Escapes double quotes with a backslash.
pub fn escape_label(s: &str) -> (r: String)
    ensures
        r@ == escape_quotes(s@),
{
    let n = s.unicode_len();
    let mut out = String::new();
    let mut start: usize = 0;
    let mut i: usize = 0;
    while i < n
        invariant
            n == s@.len(),
            start <= i <= n,
            out@ + s@.subrange(start as int, i as int) == escape_quotes(s@.subrange(0, i as int)),
        decreases n - i,
    {
        let c = s.get_char(i);
        proof {
            assert(s@.subrange(0, i + 1).drop_last() =~= s@.subrange(0, i as int));
        }
        if c == '"' {
            out.append(s.substring_char(start, i));
            out.append("\\\"");
            proof {
                reveal_strlit("\\\"");
                assert(out@ + s@.subrange(i + 1, i + 1) =~= escape_quotes(s@.subrange(0, i + 1)));
            }
            start = i + 1;
        } else {
            proof {
                assert(s@.subrange(start as int, i + 1) =~= s@.subrange(start as int, i as int).push(c));
            }
        }
        i = i + 1;
    }
    out.append(s.substring_char(start, n));
    assert(s@.subrange(0, n as int) =~= s@);
    out
}

/// A DOT node line.
pub open spec fn dot_node_line(id: u64, label: Seq<char>) -> Seq<char> {
    seq!['"'] + dec_text(id as nat) + "\" [label=\""@ + escape_quotes(label) + "\"];\n"@
}

/// A DOT edge line.
pub open spec fn dot_rel_line(src: u64, dst: u64) -> Seq<char> {
    seq!['"'] + dec_text(src as nat) + "\"  -> \""@ + dec_text(dst as nat) + "\";\n"@
}

/// A Graphviz digraph, written line by line. The document is the text so
/// far followed by the closing brace.
pub struct DotFile {
    text: String,
}

impl DotFile {
    pub closed spec fn spec_text(&self) -> Seq<char> {
        self.text@
    }

    /// The whole document.
    pub open spec fn spec_document(&self) -> Seq<char> {
        self.spec_text() + "}"@
    }

    /// An empty digraph.
    pub fn new() -> (r: DotFile)
        ensures
            r.spec_text() == "digraph {\n"@,
    {
        DotFile { text: String::from_str("digraph {\n") }
    }

    /// Adds a node line; returns the line, which goes before the closing brace.
    pub fn write_node(&mut self, id: Id, label: &str) -> (line: String)
        ensures
            line@ == dot_node_line(id.raw, label@),
            final(self).spec_text() == old(self).spec_text() + line@,
    {
        let mut line = String::from_str("\"");
        push_decimal(&mut line, id.raw);
        line.append("\" [label=\"");
        line.append(escape_label(label).as_str());
        line.append("\"];\n");
        proof {
            reveal_strlit("\"");
            assert(line@ =~= dot_node_line(id.raw, label@));
        }
        self.text.append(line.as_str());
        line
    }

    /// Adds an edge line; returns the line, which goes before the closing brace.
    pub fn write_rel(&mut self, src: Id, dst: Id) -> (line: String)
        ensures
            line@ == dot_rel_line(src.raw, dst.raw),
            final(self).spec_text() == old(self).spec_text() + line@,
    {
        let mut line = String::from_str("\"");
        push_decimal(&mut line, src.raw);
        line.append("\"  -> \"");
        push_decimal(&mut line, dst.raw);
        line.append("\";\n");
        proof {
            reveal_strlit("\"");
            assert(line@ =~= dot_rel_line(src.raw, dst.raw));
        }
        self.text.append(line.as_str());
        line
    }

    /// The whole document: the lines so far and the closing brace.
    pub fn document(&self) -> (r: String)
        ensures
            r@ == self.spec_document(),
    {
        let mut r = self.text.clone();
        r.append("}");
        r
    }
}

/// Name for the JSON string literal (quoted and escaped) that serde_json
/// writes for a text.
pub uninterp spec fn json_string_of(s: Seq<char>) -> Seq<char>;

/// Relies on serde_json's serializer for a string value: it writes the
/// text as one JSON string literal, a function of the text alone.
#[verifier::external_body]
fn json_quote(s: &str) -> (r: String)
    ensures
        r@ == json_string_of(s@),
{
    serde_json::Value::String(s.to_string()).to_string()
}

/// A JSON node line; serde_json writes object keys in sorted order.
pub open spec fn json_node_line(id: u64, label: Seq<char>) -> Seq<char> {
    "{\"id\":"@ + dec_text(id as nat) + ",\"label\":"@ + json_string_of(label)
        + ",\"type\":\"node\"}\n"@
}

/// A JSON edge line.
pub open spec fn json_rel_line(src: u64, dst: u64) -> Seq<char> {
    "{\"dst\":"@ + dec_text(dst as nat) + ",\"src\":"@ + dec_text(src as nat)
        + ",\"type\":\"rel\"}\n"@
}

/// A stream of JSON objects, one per line.
pub struct JSONFile {
    text: String,
}

impl JSONFile {
    pub closed spec fn spec_text(&self) -> Seq<char> {
        self.text@
    }

    /// An empty stream.
    pub fn new() -> (r: JSONFile)
        ensures
            r.spec_text() == Seq::<char>::empty(),
    {
        JSONFile { text: String::new() }
    }

    /// Adds a node object; returns its line.
    pub fn write_node(&mut self, id: Id, label: &str) -> (line: String)
        ensures
            line@ == json_node_line(id.raw, label@),
            final(self).spec_text() == old(self).spec_text() + line@,
    {
        let mut line = String::from_str("{\"id\":");
        push_decimal(&mut line, id.raw);
        line.append(",\"label\":");
        line.append(json_quote(label).as_str());
        line.append(",\"type\":\"node\"}\n");
        assert(line@ =~= json_node_line(id.raw, label@));
        self.text.append(line.as_str());
        line
    }

    /// Adds an edge object; returns its line.
    pub fn write_rel(&mut self, src: Id, dst: Id) -> (line: String)
        ensures
            line@ == json_rel_line(src.raw, dst.raw),
            final(self).spec_text() == old(self).spec_text() + line@,
    {
        let mut line = String::from_str("{\"dst\":");
        push_decimal(&mut line, dst.raw);
        line.append(",\"src\":");
        push_decimal(&mut line, src.raw);
        line.append(",\"type\":\"rel\"}\n");
        assert(line@ =~= json_rel_line(src.raw, dst.raw));
        self.text.append(line.as_str());
        line
    }

    /// The whole stream.
    pub fn document(&self) -> (r: String)
        ensures
            r@ == self.spec_text(),
    {
        self.text.clone()
    }
}

/// The output format of the process-tree exporter.
pub enum TreeWriter {
    Dot(DotFile),
    Json(JSONFile),
}

impl TreeWriter {
    /// Writes a process; returns the text written.
    pub fn write_node(&mut self, id: Id, label: &str) -> (line: String)
        ensures
            match (*old(self), *final(self)) {
                (TreeWriter::Dot(a), TreeWriter::Dot(b)) => line@ == dot_node_line(id.raw, label@)
                    && b.spec_text() == a.spec_text() + line@,
                (TreeWriter::Json(a), TreeWriter::Json(b)) => line@ == json_node_line(id.raw, label@)
                    && b.spec_text() == a.spec_text() + line@,
                _ => false,
            },
    {
        match self {
            TreeWriter::Dot(d) => d.write_node(id, label),
            TreeWriter::Json(j) => j.write_node(id, label),
        }
    }

    /// Writes a flow; returns the text written.
    pub fn write_rel(&mut self, src: Id, dst: Id) -> (line: String)
        ensures
            match (*old(self), *final(self)) {
                (TreeWriter::Dot(a), TreeWriter::Dot(b)) => line@ == dot_rel_line(src.raw, dst.raw)
                    && b.spec_text() == a.spec_text() + line@,
                (TreeWriter::Json(a), TreeWriter::Json(b)) => line@ == json_rel_line(src.raw, dst.raw)
                    && b.spec_text() == a.spec_text() + line@,
                _ => false,
            },
    {
        match self {
            TreeWriter::Dot(d) => d.write_rel(src, dst),
            TreeWriter::Json(j) => j.write_rel(src, dst),
        }
    }
}

/// What the exporter writes for one event.
pub enum TreeAction {
    /// A process, with its label.
    Node(Id, String),
    /// A flow between two processes already written.
    Rel(Id, Id),
}

/// The label written for a process: its metadata value, or `???`.
pub open spec fn label_of(cmd: Option<Seq<char>>) -> Seq<char> {
    match cmd {
        Some(c) => c,
        None => "???"@,
    }
}

/// The decisions of the process-tree exporter: the last label written for
/// each process.
pub struct ProcTree {
    nodes: HashMapWithView<u64, Option<String>>,
    meta_key: String,
}

impl ProcTree {
    /// For each process written, the metadata value it was written with.
    pub closed spec fn spec_nodes(&self) -> Map<u64, Option<Seq<char>>> {
        self.nodes@.map_values(|o: Option<String>| opt_view(o))
    }

    /// The metadata key whose value labels a process.
    pub closed spec fn spec_meta_key(&self) -> Seq<char> {
        self.meta_key@
    }

    /// The action for an event, and the nodes afterwards.
    pub open spec fn step(
        &self,
        ev: MutationEvent,
        r: Option<TreeAction>,
        after: Map<u64, Option<Seq<char>>>,
    ) -> bool {
        let nodes = self.spec_nodes();
        match ev {
            MutationEvent::CreateNode(Node::Data(n)) => self.actor_step(n, r, after),
            MutationEvent::UpdateNode(Node::Data(n)) => self.actor_step(n, r, after),
            MutationEvent::CreateRel(Rel::Inf(i)) => {
                &&& after == nodes
                &&& if nodes.contains_key(i.src.raw) && nodes.contains_key(i.dst.raw) {
                    r matches Some(TreeAction::Rel(s, d)) && s == i.src && d == i.dst
                } else {
                    r is None
                }
            },
            _ => after == nodes && r is None,
        }
    }

    pub open spec fn actor_step(
        &self,
        n: crate::model::DataNode,
        r: Option<TreeAction>,
        after: Map<u64, Option<Seq<char>>>,
    ) -> bool {
        let nodes = self.spec_nodes();
        let key = self.spec_meta_key();
        let cmd = if n.meta_view().contains_key(key) {
            Some(n.meta_view()[key])
        } else {
            None
        };
        if n.kind != DataKind::Actor || (nodes.contains_key(n.id.raw) && nodes[n.id.raw] == cmd) {
            after == nodes && r is None
        } else {
            &&& after == nodes.insert(n.id.raw, cmd)
            &&& r matches Some(TreeAction::Node(id, label)) && id == n.id && label@ == label_of(cmd)
        }
    }

    /// An exporter that has written nothing.
    pub fn new(meta_key: String) -> (r: ProcTree)
        ensures
            r.spec_nodes() == Map::<u64, Option<Seq<char>>>::empty(),
            r.spec_meta_key() == meta_key@,
    {
        let r = ProcTree { nodes: HashMapWithView::new(), meta_key };
        assert(r.spec_nodes() =~= Map::<u64, Option<Seq<char>>>::empty());
        r
    }

    /// Decides what to write for one event: a process when it is new or
    /// its label changed, a flow when both of its ends were written.
    pub fn on_event(&mut self, ev: &MutationEvent) -> (r: Option<TreeAction>)
        ensures
            old(self).step(*ev, r, final(self).spec_nodes()),
            final(self).spec_meta_key() == old(self).spec_meta_key(),
    {
        match ev {
            MutationEvent::CreateNode(Node::Data(n)) => self.on_data(n),
            MutationEvent::UpdateNode(Node::Data(n)) => self.on_data(n),
            MutationEvent::CreateRel(Rel::Inf(i)) => {
                if self.nodes.contains_key(&i.src.raw) && self.nodes.contains_key(&i.dst.raw) {
                    Some(TreeAction::Rel(i.src, i.dst))
                } else {
                    None
                }
            },
            _ => None,
        }
    }

    fn on_data(&mut self, n: &crate::model::DataNode) -> (r: Option<TreeAction>)
        ensures
            old(self).actor_step(*n, r, final(self).spec_nodes()),
            final(self).spec_meta_key() == old(self).spec_meta_key(),
    {
        if n.kind != DataKind::Actor {
            return None;
        }
        let cmd = n.meta_cur(&self.meta_key);
        let a: Option<&str> = match cmd {
            Some(c) => Some(c.as_str()),
            None => None,
        };
        let changed = match self.nodes.get(&n.id.raw) {
            Some(prev) => neq(&a, prev),
            None => true,
        };
        if !changed {
            return None;
        }
        let stored: Option<String> = match cmd {
            Some(c) => Some(c.clone()),
            None => None,
        };
        let label = match cmd {
            Some(c) => c.clone(),
            None => String::from_str("???"),
        };
        let ghost before = self.spec_nodes();
        let ghost sv = opt_view(stored);
        self.nodes.insert(n.id.raw, stored);
        proof {
            assert(self.spec_nodes() =~= before.insert(n.id.raw, sv));
        }
        Some(TreeAction::Node(n.id, label))
    }
}

} // verus!
