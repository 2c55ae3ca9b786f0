use cdm_views::ident::{ExtId, Id};
use cdm_views::model::{DataKind, DataNode, InfEdge, MutationEvent, Node, Rel};
use cdm_views::proc_tree::{escape_label, neq, DotFile, JSONFile, ProcTree, TreeAction};

fn actor(raw: u64, meta: Vec<(&str, &str)>) -> MutationEvent {
    MutationEvent::UpdateNode(Node::Data(DataNode {
        id: Id { raw },
        kind: DataKind::Actor,
        uuid: ExtId { value: raw as u128 },
        schema: "Process".to_string(),
        ctx: Id { raw: 0 },
        meta: meta.into_iter().map(|(k, v)| (k.to_string(), v.to_string())).collect(),
    }))
}

fn inf(src: u64, dst: u64) -> MutationEvent {
    MutationEvent::CreateRel(Rel::Inf(InfEdge {
        id: Id { raw: 100 },
        src: Id { raw: src },
        dst: Id { raw: dst },
        ctx: Id { raw: 0 },
    }))
}

#[test]
fn neq_compares_values() {
    assert!(!neq(&Some("a"), &Some("a".to_string())));
    assert!(neq(&Some("a"), &Some("b".to_string())));
    assert!(neq(&Some("a"), &None));
    assert!(neq(&None, &Some("a".to_string())));
    assert!(!neq(&None, &None));
}

#[test]
fn dot_file_document() {
    let mut f = DotFile::new();
    assert_eq!(f.document(), "digraph {\n}");
    let l = f.write_node(Id { raw: 5 }, "say \"hi\"");
    assert_eq!(l, "\"5\" [label=\"say \\\"hi\\\"\"];\n");
    f.write_rel(Id { raw: 5 }, Id { raw: 6 });
    assert_eq!(
        f.document(),
        "digraph {\n\"5\" [label=\"say \\\"hi\\\"\"];\n\"5\"  -> \"6\";\n}"
    );
}

#[test]
fn json_file_lines() {
    let mut f = JSONFile::new();
    assert_eq!(f.document(), "");
    let l = f.write_node(Id { raw: 5 }, "a\"b");
    assert_eq!(l, "{\"id\":5,\"label\":\"a\\\"b\",\"type\":\"node\"}\n");
    let r = f.write_rel(Id { raw: 5 }, Id { raw: 6 });
    assert_eq!(r, "{\"dst\":6,\"src\":5,\"type\":\"rel\"}\n");
    assert_eq!(f.document(), format!("{}{}", l, r));
}

#[test]
fn escape_label_cases() {
    assert_eq!(escape_label(""), "");
    assert_eq!(escape_label("plain"), "plain");
    assert_eq!(escape_label("\"\""), "\\\"\\\"");
    assert_eq!(escape_label("é\"ü"), "é\\\"ü");
}

#[test]
fn proc_tree_writes_new_and_changed_processes() {
    let mut t = ProcTree::new("cmdline".to_string());
    match t.on_event(&actor(1, vec![("cmdline", "sh")])) {
        Some(TreeAction::Node(id, label)) => {
            assert_eq!(id, Id { raw: 1 });
            assert_eq!(label, "sh");
        }
        _ => panic!("expected a node"),
    }
    assert!(t.on_event(&actor(1, vec![("cmdline", "sh")])).is_none());
    match t.on_event(&actor(1, vec![("cmdline", "sh"), ("cmdline", "ls")])) {
        Some(TreeAction::Node(_, label)) => assert_eq!(label, "ls"),
        _ => panic!("expected a node"),
    }
    match t.on_event(&actor(2, vec![])) {
        Some(TreeAction::Node(_, label)) => assert_eq!(label, "???"),
        _ => panic!("expected a node"),
    }
    assert!(t.on_event(&actor(2, vec![])).is_none());
}

#[test]
fn proc_tree_writes_flows_between_known_processes() {
    let mut t = ProcTree::new("cmdline".to_string());
    t.on_event(&actor(1, vec![]));
    assert!(t.on_event(&inf(1, 2)).is_none());
    t.on_event(&actor(2, vec![]));
    match t.on_event(&inf(1, 2)) {
        Some(TreeAction::Rel(s, d)) => assert_eq!((s, d), (Id { raw: 1 }, Id { raw: 2 })),
        _ => panic!("expected a flow"),
    }
}
