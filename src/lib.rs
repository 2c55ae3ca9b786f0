//! Translation of provenance-graph mutation events into CDM records.
pub mod ident;
pub mod props;
pub mod model;
pub mod cdm;
pub mod classify;
pub mod encode;
pub mod worker;
pub mod laws;
pub mod proc_tree;
pub mod net_traffic;
pub mod views;
pub mod schemas;
