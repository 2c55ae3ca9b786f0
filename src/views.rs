//! The views that the graph engine can run: their names, descriptions and
//! options, and how their options are read.
use vstd::prelude::*;
use crate::cdm::{version_text, SchemaVersion};
use crate::model::pairs_view;
use crate::props::{lookup, map_of};
use crate::proc_tree::{DotFile, JSONFile, TreeWriter};

verus! {

/// The value of option `k`: the last one given, else `default`.
pub open spec fn option_value(params: Seq<(String, String)>, k: Seq<char>, default: Seq<char>) -> Seq<char> {
    let m = map_of(pairs_view(params));
    if m.contains_key(k) {
        m[k]
    } else {
        default
    }
}

/// Reads option `key`, falling back to `default`.
pub fn param_or(params: &Vec<(String, String)>, key: &str, default: &str) -> (r: String)
    ensures
        r@ == option_value(params@, key@, default@),
{
    match lookup(params, &String::from_str(key)) {
        Some(v) => v.clone(),
        None => String::from_str(default),
    }
}

/// Errors in the options of a view.
#[derive(Clone, Copy, Debug, PartialEq, Eq, Structural)]
pub enum ConfigError {
    /// A required option is absent.
    MissingOption,
    /// The schema version option names no supported version.
    UnknownVersion,
    /// The format option names no supported format.
    UnknownFormat,
    /// A schema definition is not a valid Avro schema.
    BadSchema,
}

fn one_param(name: &str, desc: &str) -> (r: Vec<(String, String)>)
    ensures
        pairs_view(r@) == seq![(name@, desc@)],
{
    let mut v: Vec<(String, String)> = Vec::new();
    v.push((String::from_str(name), String::from_str(desc)));
    assert(pairs_view(v@) =~= seq![(name@, desc@)]);
    v
}

/// The view that writes CDM records.
#[derive(Debug)]
pub struct CDMView {
    id: usize,
}

impl CDMView {
    pub closed spec fn spec_id(&self) -> usize {
        self.id
    }

    pub fn new(id: usize) -> (r: CDMView)
        ensures
            r.spec_id() == id,
    {
        CDMView { id }
    }

    pub fn id(&self) -> (r: usize)
        ensures
            r == self.spec_id(),
    {
        self.id
    }

    pub fn name(&self) -> (r: &'static str)
        ensures
            r@ == "CDMView"@,
    {
        "CDMView"
    }

    pub fn desc(&self) -> (r: &'static str)
        ensures
            r@ == "View for producing CDM data to kafka."@,
    {
        "View for producing CDM data to kafka."
    }

    /// The options, each with its description.
    pub fn params(&self) -> (r: Vec<(String, String)>)
        ensures
            pairs_view(r@) == seq![
                ("cdm_file"@, "CDM file location"@),
                ("cdm_version"@, "CDM schema version, 19 or 20 (default 20)"@),
            ],
    {
        let mut v: Vec<(String, String)> = Vec::new();
        v.push((String::from_str("cdm_file"), String::from_str("CDM file location")));
        v.push(
            (
                String::from_str("cdm_version"),
                String::from_str("CDM schema version, 19 or 20 (default 20)"),
            ),
        );
        assert(pairs_view(v@) =~= seq![
            ("cdm_file"@, "CDM file location"@),
            ("cdm_version"@, "CDM schema version, 19 or 20 (default 20)"@),
        ]);
        v
    }

    /// The output path: option `cdm_file`, which must be given.
    pub fn output_path(params: &Vec<(String, String)>) -> (r: Result<String, ConfigError>)
        ensures
            map_of(pairs_view(params@)).contains_key("cdm_file"@) <==> r is Ok,
            r matches Ok(p) ==> p@ == map_of(pairs_view(params@))["cdm_file"@],
            r is Err ==> r == Err::<String, ConfigError>(ConfigError::MissingOption),
    {
        match lookup(params, &String::from_str("cdm_file")) {
            Some(p) => Ok(p.clone()),
            None => Err(ConfigError::MissingOption),
        }
    }

    /// The schema version: option `cdm_version`, "20" when absent.
    pub fn schema_version(params: &Vec<(String, String)>) -> (r: Result<SchemaVersion, ConfigError>)
        ensures
            r matches Ok(v) ==> version_text(v) == option_value(params@, "cdm_version"@, "20"@),
            r is Err ==> r == Err::<SchemaVersion, ConfigError>(ConfigError::UnknownVersion)
                && option_value(params@, "cdm_version"@, "20"@) != version_text(SchemaVersion::V19)
                && option_value(params@, "cdm_version"@, "20"@) != version_text(SchemaVersion::V20),
    {
        let text = param_or(params, "cdm_version", "20");
        match SchemaVersion::from_text(text.as_str()) {
            Some(v) => Ok(v),
            None => Err(ConfigError::UnknownVersion),
        }
    }
}

/// The view that logs network traffic.
#[derive(Debug)]
pub struct NetworkTrafficView {
    id: usize,
}

impl NetworkTrafficView {
    pub closed spec fn spec_id(&self) -> usize {
        self.id
    }

    pub fn new(id: usize) -> (r: NetworkTrafficView)
        ensures
            r.spec_id() == id,
    {
        NetworkTrafficView { id }
    }

    pub fn id(&self) -> (r: usize)
        ensures
            r == self.spec_id(),
    {
        self.id
    }

    pub fn name(&self) -> (r: &'static str)
        ensures
            r@ == "NetworkTrafficView"@,
    {
        "NetworkTrafficView"
    }

    pub fn desc(&self) -> (r: &'static str)
        ensures
            r@ == "View for storing a network traffic log."@,
    {
        "View for storing a network traffic log."
    }

    pub fn params(&self) -> (r: Vec<(String, String)>)
        ensures
            pairs_view(r@) == seq![("output"@, "Output file location"@)],
    {
        one_param("output", "Output file location")
    }

    /// The output path: option `output`, `./network.log` when absent.
    pub fn output_path(params: &Vec<(String, String)>) -> (r: String)
        ensures
            r@ == option_value(params@, "output"@, "./network.log"@),
    {
        param_or(params, "output", "./network.log")
    }
}

/// The view that writes the process tree.
#[derive(Debug)]
pub struct ProcTreeView {
    id: usize,
}

impl ProcTreeView {
    pub closed spec fn spec_id(&self) -> usize {
        self.id
    }

    pub fn new(id: usize) -> (r: ProcTreeView)
        ensures
            r.spec_id() == id,
    {
        ProcTreeView { id }
    }

    pub fn id(&self) -> (r: usize)
        ensures
            r == self.spec_id(),
    {
        self.id
    }

    pub fn name(&self) -> (r: &'static str)
        ensures
            r@ == "ProcTreeView"@,
    {
        "ProcTreeView"
    }

    pub fn desc(&self) -> (r: &'static str)
        ensures
            r@ == "View for storing a process tree."@,
    {
        "View for storing a process tree."
    }

    pub fn params(&self) -> (r: Vec<(String, String)>)
        ensures
            pairs_view(r@) == seq![("output"@, "Output file location"@)],
    {
        one_param("output", "Output file location")
    }

    /// The output path: option `output`, `./proc_tree.json` when absent.
    pub fn output_path(params: &Vec<(String, String)>) -> (r: String)
        ensures
            r@ == option_value(params@, "output"@, "./proc_tree.json"@),
    {
        param_or(params, "output", "./proc_tree.json")
    }

    /// The metadata key that labels processes: option `meta_key`,
    /// `cmdline` when absent.
    pub fn meta_key(params: &Vec<(String, String)>) -> (r: String)
        ensures
            r@ == option_value(params@, "meta_key"@, "cmdline"@),
    {
        param_or(params, "meta_key", "cmdline")
    }

    /// The output writer for option `fmt` (`json` when absent): `json` or `dot`.
    pub fn writer(params: &Vec<(String, String)>) -> (r: Result<TreeWriter, ConfigError>)
        ensures
            option_value(params@, "fmt"@, "json"@) == "json"@ ==> (r matches Ok(TreeWriter::Json(j))
                && j.spec_text() == Seq::<char>::empty()),
            option_value(params@, "fmt"@, "json"@) == "dot"@ ==> (r matches Ok(TreeWriter::Dot(d))
                && d.spec_text() == "digraph {\n"@),
            option_value(params@, "fmt"@, "json"@) != "json"@ && option_value(
                params@,
                "fmt"@,
                "json"@,
            ) != "dot"@ ==> r == Err::<TreeWriter, ConfigError>(ConfigError::UnknownFormat),
    {
        proof {
            reveal_strlit("json");
            reveal_strlit("dot");
            assert("json"@[0] != "dot"@[0]);
        }
        let fmt = param_or(params, "fmt", "json");
        if fmt == String::from_str("json") {
            Ok(TreeWriter::Json(JSONFile::new()))
        } else if fmt == String::from_str("dot") {
            Ok(TreeWriter::Dot(DotFile::new()))
        } else {
            Err(ConfigError::UnknownFormat)
        }
    }
}

} // verus!
