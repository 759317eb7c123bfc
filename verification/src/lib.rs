//! Cluster map configuration: decoding a JSON record and checking its group.
//!
//! A configuration is a JSON object with a `name` and a `group`. The library
//! turns the text of such a document into a [`ClusterMap`], checks that the
//! group lies in the accepted range, and reports every failure under the stage
//! that met it, so that a caller can tell a file that could not be read from a
//! document that could not be decoded and from a group out of range.

pub mod record;
pub mod json;
pub mod parse;
pub mod pipeline;
pub mod text;

pub use record::{ClusterMap, ClusterMapError, ClusterMapView, MAX_GROUP, MIN_GROUP};
pub use parse::{parse, record_from_members, Field, Member, ParseFailure, ParseFailureView};
pub use pipeline::{get_cluster_info, IoFailure, IoFailureView, PipelineError, PipelineErrorView};
pub use text::integer_text;
