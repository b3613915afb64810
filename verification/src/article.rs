use crate::node::{Node, NodeView};
use crate::property::{
    borrowed, nodes_opt, nodes_vec, open_graph_nodes_opt, open_graph_nodes_vec, opt_field_view,
    strings, vec_field_view, views, OptField, VecField,
};
use crate::util::merge;
use std::borrow::Cow;
use vstd::prelude::*;

verus! {

/// The RFC 3339 text that `chrono` writes for the instant `secs` whole
/// seconds and `nanos` nanoseconds after 1970-01-01T00:00:00 UTC, or `None`
/// where `chrono` has no such instant.
pub uninterp spec fn rfc3339_text(secs: int, nanos: int) -> Option<Seq<char>>;

/// Makes the instant with `chrono::DateTime::from_timestamp` and formats it
/// with `chrono::DateTime::to_rfc3339`.
///
/// Assumed: the outcome is a function of the two numbers alone. The first
/// call gives `None` exactly where the numbers name no instant that `chrono`
/// can hold; the second never fails and reads nothing but the instant, which
/// is in UTC.
#[verifier::external_body]
fn rfc3339(secs: i64, nanos: u32) -> (text: Option<String>)
    ensures
        text.deep_view() == rfc3339_text(secs as int, nanos as int),
{
    match chrono::DateTime::from_timestamp(secs, nanos) {
        Some(instant) => Some(instant.to_rfc3339()),
        None => None,
    }
}

/// An instant in time, in UTC: whole seconds since 1970-01-01T00:00:00 and
/// nanoseconds since the last whole second.
///
/// Every value is an instant that has an RFC 3339 text.
#[derive(Debug, Clone, Copy)]
pub struct Timestamp {
    secs: i64,
    nanos: u32,
}

/// The mathematical value of a [`Timestamp`].
pub struct TimestampView {
    pub secs: int,
    pub nanos: int,
}

impl TimestampView {
    /// The RFC 3339 text of the instant, where it has one.
    pub open spec fn text(self) -> Option<Seq<char>> {
        rfc3339_text(self.secs, self.nanos)
    }
}

impl View for Timestamp {
    type V = TimestampView;

    closed spec fn view(&self) -> TimestampView {
        TimestampView { secs: self.secs as int, nanos: self.nanos as int }
    }
}

impl Timestamp {
    #[verifier::type_invariant]
    spec fn has_text(self) -> bool {
        rfc3339_text(self.secs as int, self.nanos as int) is Some
    }

    /// The instant `secs` seconds and `nanos` nanoseconds after the epoch,
    /// where it has an RFC 3339 text.
    pub fn new(secs: i64, nanos: u32) -> (r: Option<Timestamp>)
        ensures
            r is Some <==> rfc3339_text(secs as int, nanos as int) is Some,
            r matches Some(t) ==> t@ == (TimestampView { secs: secs as int, nanos: nanos as int }),
    {
        match rfc3339(secs, nanos) {
            Some(_) => Some(Timestamp { secs, nanos }),
            None => None,
        }
    }

    /// Whole seconds since the epoch.
    pub fn secs(&self) -> (r: i64)
        ensures
            r == self@.secs,
    {
        self.secs
    }

    /// Nanoseconds since the last whole second.
    pub fn nanos(&self) -> (r: u32)
        ensures
            r == self@.nanos,
    {
        self.nanos
    }

    /// The RFC 3339 text of the instant.
    pub fn to_rfc3339(&self) -> (text: String)
        ensures
            self@.text() == Some(text@),
    {
        proof {
            use_type_invariant(self);
        }
        match rfc3339(self.secs, self.nanos) {
            Some(text) => text,
            None => vstd::pervasive::unreached(),
        }
    }
}

#[derive(Debug, Clone)]
pub struct Article {
    /// When the article was first published.
    pub published_time: Option<Timestamp>,
    /// When the article was last changed.
    pub modified_time: Option<Timestamp>,
    /// When the article is out of date after.
    pub expiration_time: Option<Timestamp>,
    /// Writers of the article.
    pub author: Vec<String>,
    /// A high-level section name. E.g. Technology
    pub section: Option<String>,
    /// Tag words associated with this article.
    pub tag: Vec<String>,
}

/// The mathematical value of an [`Article`].
pub struct ArticleView {
    pub published_time: Option<TimestampView>,
    pub modified_time: Option<TimestampView>,
    pub expiration_time: Option<TimestampView>,
    pub author: Seq<Seq<char>>,
    pub section: Option<Seq<char>>,
    pub tag: Seq<Seq<char>>,
}

/// The RFC 3339 text of an instant that may be absent.
pub open spec fn time_text(time: Option<TimestampView>) -> Option<Seq<char>> {
    match time {
        Some(t) => t.text(),
        None => None,
    }
}

/// The value of an instant that may be absent.
pub open spec fn time_view(time: Option<Timestamp>) -> Option<TimestampView> {
    match time {
        Some(t) => Some(t@),
        None => None,
    }
}

impl ArticleView {
    /// The single-valued properties of an article in their declared order.
    pub open spec fn opt_fields(self) -> Seq<OptField> {
        seq![
            ("article:published_time"@, time_text(self.published_time)),
            ("article:modified_time"@, time_text(self.modified_time)),
            ("article:expiration_time"@, time_text(self.expiration_time)),
            ("article:section"@, self.section),
        ]
    }

    /// The list-valued properties of an article in their declared order.
    pub open spec fn vec_fields(self) -> Seq<VecField> {
        seq![("article:author"@, self.author), ("article:tag"@, self.tag)]
    }

    /// The leaves that an article adds to the head of a document: the
    /// single-valued properties first, then the authors, then the tags.
    pub open spec fn nodes(self) -> Seq<NodeView> {
        nodes_opt(self.opt_fields()) + nodes_vec(self.vec_fields())
    }
}

impl View for Article {
    type V = ArticleView;

    open spec fn view(&self) -> ArticleView {
        ArticleView {
            published_time: time_view(self.published_time),
            modified_time: time_view(self.modified_time),
            expiration_time: time_view(self.expiration_time),
            author: strings(self.author@),
            section: self.section.deep_view(),
            tag: strings(self.tag@),
        }
    }
}

impl Default for Article {
    /// An article of which nothing is known.
    fn default() -> (r: Self)
        ensures
            r.published_time is None,
            r.modified_time is None,
            r.expiration_time is None,
            r.author@.len() == 0,
            r.section is None,
            r.tag@.len() == 0,
    {
        Article {
            published_time: None,
            modified_time: None,
            expiration_time: None,
            author: Vec::new(),
            section: None,
            tag: Vec::new(),
        }
    }
}

/// The RFC 3339 text of an instant that may be absent, as an owned string.
fn iso8601(time: &Option<Timestamp>) -> (r: Option<Cow<'static, str>>)
    ensures
        r.deep_view() == time_text(time_view(*time)),
{
    match time {
        Some(t) => Some(Cow::Owned(t.to_rfc3339())),
        None => None,
    }
}

impl Article {
    /// The leaf nodes of the article's properties that are present.
    pub fn to_nodes(&self) -> (nodes: Vec<Node<'_>>)
        ensures
            views(nodes@) == self@.nodes(),
    {
        let opt_fields = vec![
            ("article:published_time", iso8601(&self.published_time)),
            ("article:modified_time", iso8601(&self.modified_time)),
            ("article:expiration_time", iso8601(&self.expiration_time)),
            ("article:section", borrowed(&self.section)),
        ];
        let vec_fields = vec![("article:author", &self.author), ("article:tag", &self.tag)];
        assert(opt_fields@.map_values(|f| opt_field_view(f)) =~= self@.opt_fields());
        assert(vec_fields@.map_values(|f| vec_field_view(f)) =~= self@.vec_fields());
        let single = open_graph_nodes_opt(opt_fields);
        let listed = open_graph_nodes_vec(vec_fields);
        assert(views(single@ + listed@) =~= views(single@) + views(listed@));
        merge(single, listed)
    }
}

} // verus!
