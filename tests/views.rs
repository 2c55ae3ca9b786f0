use cdm_views::cdm::SchemaVersion;
use cdm_views::proc_tree::TreeWriter;
use cdm_views::views::{param_or, CDMView, ConfigError, NetworkTrafficView, ProcTreeView};

fn p(pairs: &[(&str, &str)]) -> Vec<(String, String)> {
    pairs.iter().map(|(k, v)| (k.to_string(), v.to_string())).collect()
}

#[test]
fn view_descriptions() {
    let v = CDMView::new(3);
    assert_eq!(v.id(), 3);
    assert_eq!(v.name(), "CDMView");
    assert_eq!(v.desc(), "View for producing CDM data to kafka.");
    assert_eq!(v.params()[0], ("cdm_file".to_string(), "CDM file location".to_string()));
    let n = NetworkTrafficView::new(4);
    assert_eq!((n.id(), n.name()), (4, "NetworkTrafficView"));
    assert_eq!(n.desc(), "View for storing a network traffic log.");
    assert_eq!(n.params(), p(&[("output", "Output file location")]));
    let t = ProcTreeView::new(5);
    assert_eq!((t.id(), t.name()), (5, "ProcTreeView"));
    assert_eq!(t.desc(), "View for storing a process tree.");
    assert_eq!(t.params(), p(&[("output", "Output file location")]));
}

#[test]
fn option_defaults() {
    assert_eq!(param_or(&p(&[]), "output", "d"), "d");
    assert_eq!(param_or(&p(&[("output", "x"), ("output", "y")]), "output", "d"), "y");
    assert_eq!(NetworkTrafficView::output_path(&p(&[])), "./network.log");
    assert_eq!(ProcTreeView::output_path(&p(&[])), "./proc_tree.json");
    assert_eq!(ProcTreeView::meta_key(&p(&[])), "cmdline");
    assert_eq!(ProcTreeView::meta_key(&p(&[("meta_key", "exe")])), "exe");
}

#[test]
fn cdm_view_options() {
    assert_eq!(CDMView::output_path(&p(&[])), Err(ConfigError::MissingOption));
    assert_eq!(CDMView::output_path(&p(&[("cdm_file", "out.avro")])), Ok("out.avro".to_string()));
    assert_eq!(CDMView::schema_version(&p(&[])), Ok(SchemaVersion::V20));
    assert_eq!(CDMView::schema_version(&p(&[("cdm_version", "19")])), Ok(SchemaVersion::V19));
    assert_eq!(CDMView::schema_version(&p(&[("cdm_version", "18")])), Err(ConfigError::UnknownVersion));
}

#[test]
fn proc_tree_formats() {
    assert!(matches!(ProcTreeView::writer(&p(&[])), Ok(TreeWriter::Json(_))));
    match ProcTreeView::writer(&p(&[("fmt", "dot")])) {
        Ok(TreeWriter::Dot(d)) => assert_eq!(d.document(), "digraph {\n}"),
        _ => panic!("expected a dot writer"),
    }
    assert!(matches!(ProcTreeView::writer(&p(&[("fmt", "xml")])), Err(ConfigError::UnknownFormat)));
}
