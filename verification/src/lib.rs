//! Open Graph metadata of a page, rendered as the markup of a document's
//! `head` and, where fallback content is given, its `body`.
//!
//! An [`OpenGraph`] value holds the fields; [`OpenGraph::to_node`] builds the
//! tree of [`Node`]s and [`Node::to_html`] writes it out. What is built and
//! written is stated over the mathematical values of these types: the
//! document is `OpenGraphView::document`, its markup is `NodeView::html`.

pub mod article;
pub mod document;
pub mod node;
pub mod profile;
pub mod property;
pub mod util;

pub use article::Article;
pub use document::{Fallback, OpenGraph, OpenGraphType};
pub use node::{Node, NodeView, OptionalCow};
pub use profile::Profile;
pub use util::{append, append_opt, as_ref, merge, Lend};
