use crate::article::{Article, ArticleView};
use crate::node::{
    attrs_html, children_html, lemma_children_html_concat, Node, NodeView, OptionalCow,
};
use crate::profile::{Profile, ProfileView};
use crate::property::{
    borrowed, lemma_nodes_opt_absent, lemma_nodes_vec_one, meta, nodes_opt, nodes_vec,
    open_graph_nodes_opt, open_graph_nodes_vec, opt_field_view, strings, vec_field_view, views,
    OptField,
};
use crate::util::{append, append_opt, as_ref, merge, Lend};
use std::borrow::Cow;
use vstd::prelude::*;

verus! {

/// The metadata of a page, from which its Open Graph markup is rendered.
#[derive(Debug, Clone)]
pub struct OpenGraph {
    /// The title of your object as it should appear within the graph, e.g., "The Rock".
    pub title: Option<String>,
    /// The type of your object, e.g., "video.movie". Depending on the type you specify, other properties may also be required.
    pub kind: Option<OpenGraphType>,
    /// The canonical URL of your object that will be used as its permanent ID in the graph, e.g., "https://www.imdb.com/title/tt0117500/".
    pub url: Option<String>,
    /// An image URL which should represent your object within the graph.
    pub image: Option<String>,
    /// A URL to an audio file to accompany this object.
    pub audio: Option<String>,
    /// A URL to a video file that complements this object.
    pub video: Option<String>,
    /// A one to two sentence description of your object.
    pub description: Option<String>,
    /// The word that appears before this object's title in a sentence. An enum of (a, an, the, "", auto).
    /// If auto is chosen, the consumer of your data should chose between "a" or "an". Default is "" (blank).
    pub determiner: Option<String>,
    /// The locale these tags are marked up in. Of the format language_TERRITORY. Default is en_US.
    pub locale: Option<String>,
    /// An array of other locales this page is available in.
    pub alternate_locale: Vec<String>,
    /// If your object is part of a larger web site, the name which should be displayed for the overall site. e.g., "IMDb".
    pub site_name: Option<String>,
    /// e.g., "#4285f4"
    pub theme_color: Option<String>,
}

/// What kind of thing a page is about, with the properties of that kind.
#[derive(Debug, Clone)]
pub enum OpenGraphType {
    Article(Article),
    Profile(Profile),
}

/// What is shown in the body to a reader that does not process the head.
pub enum Fallback<'a> {
    Message(&'a str),
    Node(Node<'a>),
}

/// The mathematical value of an [`OpenGraphType`].
pub enum OpenGraphTypeView {
    Article(ArticleView),
    Profile(ProfileView),
}

/// The mathematical value of an [`OpenGraph`].
pub struct OpenGraphView {
    pub title: Option<Seq<char>>,
    pub kind: Option<OpenGraphTypeView>,
    pub url: Option<Seq<char>>,
    pub image: Option<Seq<char>>,
    pub audio: Option<Seq<char>>,
    pub video: Option<Seq<char>>,
    pub description: Option<Seq<char>>,
    pub determiner: Option<Seq<char>>,
    pub locale: Option<Seq<char>>,
    pub alternate_locale: Seq<Seq<char>>,
    pub site_name: Option<Seq<char>>,
    pub theme_color: Option<Seq<char>>,
}

/// The mathematical value of a [`Fallback`].
pub enum FallbackView {
    Message(Seq<char>),
    Node(NodeView),
}

/// The namespace of the base properties.
pub open spec fn base_namespace() -> Seq<char> {
    "og: https://ogp.me/ns#"@
}

/// The leaf that declares the character encoding.
pub open spec fn charset() -> NodeView {
    NodeView {
        name: "meta"@,
        attr: seq![("charset"@, "utf-8"@)],
        children: Seq::empty(),
        text: None,
    }
}

/// The leaf that carries the theme colour.
pub open spec fn theme(color: Seq<char>) -> NodeView {
    NodeView {
        name: "meta"@,
        attr: seq![("name"@, "theme-color"@), ("content"@, color)],
        children: Seq::empty(),
        text: None,
    }
}

/// The body that holds the fallback content: a message as its text, or a
/// node as its only child.
pub open spec fn body(fallback: FallbackView) -> NodeView {
    match fallback {
        FallbackView::Message(text) => NodeView {
            name: "body"@,
            attr: Seq::empty(),
            children: Seq::empty(),
            text: Some(text),
        },
        FallbackView::Node(node) => NodeView {
            name: "body"@,
            attr: Seq::empty(),
            children: seq![node],
            text: None,
        },
    }
}

impl OpenGraphTypeView {
    /// The name of the kind: the content of the `og:type` property.
    pub open spec fn name(self) -> Seq<char> {
        match self {
            OpenGraphTypeView::Article(_) => "article"@,
            OpenGraphTypeView::Profile(_) => "profile"@,
        }
    }

    /// The namespace of the kind's own properties.
    pub open spec fn namespace(self) -> Seq<char> {
        match self {
            OpenGraphTypeView::Article(_) => "article: http://ogp.me/ns/article#"@,
            OpenGraphTypeView::Profile(_) => "profile: https://ogp.me/ns/profile#"@,
        }
    }

    /// The leaves of the kind's own properties.
    pub open spec fn nodes(self) -> Seq<NodeView> {
        match self {
            OpenGraphTypeView::Article(article) => article.nodes(),
            OpenGraphTypeView::Profile(profile) => profile.nodes(),
        }
    }
}

impl OpenGraphView {
    /// The name of the kind, where there is one.
    pub open spec fn kind_name(self) -> Option<Seq<char>> {
        match self.kind {
            Some(kind) => Some(kind.name()),
            None => None,
        }
    }

    /// The single-valued base properties in their declared order.
    pub open spec fn fields(self) -> Seq<OptField> {
        seq![
            ("og:title"@, self.title),
            ("og:type"@, self.kind_name()),
            ("og:url"@, self.url),
            ("og:image"@, self.image),
            ("og:audio"@, self.audio),
            ("og:video"@, self.video),
            ("og:description"@, self.description),
            ("og:determiner"@, self.determiner),
            ("og:locale"@, self.locale),
            ("og:site_name"@, self.site_name),
        ]
    }

    /// The leaves of the base properties that are present.
    pub open spec fn base_nodes(self) -> Seq<NodeView> {
        nodes_opt(self.fields())
    }

    /// One leaf for each alternate locale.
    pub open spec fn alternate_nodes(self) -> Seq<NodeView> {
        nodes_vec(seq![("og:locale:alternate"@, self.alternate_locale)])
    }

    /// The leaves of the kind, where there is one.
    pub open spec fn kind_nodes(self) -> Seq<NodeView> {
        match self.kind {
            Some(kind) => kind.nodes(),
            None => Seq::empty(),
        }
    }

    /// The leaf of the theme colour, where there is one.
    pub open spec fn theme_nodes(self) -> Seq<NodeView> {
        match self.theme_color {
            Some(color) => seq![theme(color)],
            None => Seq::empty(),
        }
    }

    /// The value of the root's `prefix` attribute: the base namespace and,
    /// after a space, the namespace of the kind where there is one.
    pub open spec fn prefix(self) -> Seq<char> {
        match self.kind {
            Some(kind) => base_namespace() + " "@ + kind.namespace(),
            None => base_namespace(),
        }
    }

    /// The children of `head`: base properties, alternate locales, the
    /// properties of the kind, the character encoding, the theme colour.
    pub open spec fn head_nodes(self) -> Seq<NodeView> {
        self.base_nodes() + self.alternate_nodes() + self.kind_nodes() + seq![charset()]
            + self.theme_nodes()
    }

    /// The `head` element.
    pub open spec fn head(self) -> NodeView {
        NodeView {
            name: "head"@,
            attr: Seq::empty(),
            children: self.head_nodes(),
            text: None,
        }
    }

    /// The whole document: `html` with its prefix, holding `head` and, where
    /// fallback content is given, `body`.
    pub open spec fn document(self, fallback: Option<FallbackView>) -> NodeView {
        NodeView {
            name: "html"@,
            attr: seq![("prefix"@, self.prefix())],
            children: match fallback {
                Some(content) => seq![self.head(), body(content)],
                None => seq![self.head()],
            },
            text: None,
        }
    }
}

impl<'a> View for Fallback<'a> {
    type V = FallbackView;

    open spec fn view(&self) -> FallbackView {
        match self {
            Fallback::Message(text) => FallbackView::Message(text@),
            Fallback::Node(node) => FallbackView::Node(node@),
        }
    }
}

/// The value of fallback content that may be absent.
pub open spec fn fallback_view(fallback: Option<Fallback>) -> Option<FallbackView> {
    match fallback {
        Some(content) => Some(content@),
        None => None,
    }
}

impl View for OpenGraphType {
    type V = OpenGraphTypeView;

    open spec fn view(&self) -> OpenGraphTypeView {
        match self {
            OpenGraphType::Article(article) => OpenGraphTypeView::Article(article@),
            OpenGraphType::Profile(profile) => OpenGraphTypeView::Profile(profile@),
        }
    }
}

impl View for OpenGraph {
    type V = OpenGraphView;

    open spec fn view(&self) -> OpenGraphView {
        OpenGraphView {
            title: self.title.deep_view(),
            kind: match self.kind {
                Some(kind) => Some(kind@),
                None => None,
            },
            url: self.url.deep_view(),
            image: self.image.deep_view(),
            audio: self.audio.deep_view(),
            video: self.video.deep_view(),
            description: self.description.deep_view(),
            determiner: self.determiner.deep_view(),
            locale: self.locale.deep_view(),
            alternate_locale: strings(self.alternate_locale@),
            site_name: self.site_name.deep_view(),
            theme_color: self.theme_color.deep_view(),
        }
    }
}

impl Lend<str> for OpenGraphType {
    /// The name of the kind.
    open spec fn lent(&self) -> &str {
        match self {
            OpenGraphType::Article(_) => "article",
            OpenGraphType::Profile(_) => "profile",
        }
    }

    fn lend(&self) -> (r: &str) {
        match self {
            OpenGraphType::Article(_) => "article",
            OpenGraphType::Profile(_) => "profile",
        }
    }
}

impl AsRef<str> for OpenGraphType {
    fn as_ref(&self) -> (r: &str)
        ensures
            r == self.lent(),
    {
        self.lend()
    }
}

impl Default for OpenGraph {
    /// Metadata of which nothing is known.
    fn default() -> (r: Self)
        ensures
            r@ == OpenGraphView::empty(),
    {
        let r = OpenGraph {
            title: None,
            kind: None,
            url: None,
            image: None,
            audio: None,
            video: None,
            description: None,
            determiner: None,
            locale: None,
            alternate_locale: Vec::new(),
            site_name: None,
            theme_color: None,
        };
        assert(r@.alternate_locale =~= Seq::empty());
        r
    }
}

impl OpenGraphView {
    /// Metadata with every field absent and every list empty.
    pub open spec fn empty() -> OpenGraphView {
        OpenGraphView {
            title: None,
            kind: None,
            url: None,
            image: None,
            audio: None,
            video: None,
            description: None,
            determiner: None,
            locale: None,
            alternate_locale: Seq::empty(),
            site_name: None,
            theme_color: None,
        }
    }
}

/// The prefix of a document about an article, written out.
proof fn lemma_article_prefix()
    ensures
        "og: https://ogp.me/ns# article: http://ogp.me/ns/article#"@ == base_namespace() + " "@
            + "article: http://ogp.me/ns/article#"@,
{
    reveal_strlit("og: https://ogp.me/ns# article: http://ogp.me/ns/article#");
    reveal_strlit("og: https://ogp.me/ns#");
    reveal_strlit(" ");
    reveal_strlit("article: http://ogp.me/ns/article#");
    assert("og: https://ogp.me/ns# article: http://ogp.me/ns/article#"@ =~= "og: https://ogp.me/ns#"@
        + " "@ + "article: http://ogp.me/ns/article#"@);
}

/// The prefix of a document about a profile, written out.
proof fn lemma_profile_prefix()
    ensures
        "og: https://ogp.me/ns# profile: https://ogp.me/ns/profile#"@ == base_namespace() + " "@
            + "profile: https://ogp.me/ns/profile#"@,
{
    reveal_strlit("og: https://ogp.me/ns# profile: https://ogp.me/ns/profile#");
    reveal_strlit("og: https://ogp.me/ns#");
    reveal_strlit(" ");
    reveal_strlit("profile: https://ogp.me/ns/profile#");
    assert("og: https://ogp.me/ns# profile: https://ogp.me/ns/profile#"@
        =~= "og: https://ogp.me/ns#"@ + " "@ + "profile: https://ogp.me/ns/profile#"@);
}

/// The children of a node stand for the elements of its list of nodes.
proof fn lemma_children(node: Node)
    ensures
        node@.children == views(node.children@),
{
    assert(node@.children =~= views(node.children@));
}

impl OpenGraph {
    /// Builds the tree of the document, with a body where fallback content
    /// is given.
    pub fn to_node<'a>(&'a self, fallback: Option<Fallback<'a>>) -> (node: Node<'a>)
        ensures
            node@ == self@.document(fallback_view(fallback)),
    {
        let ghost expected = self@.document(fallback_view(fallback));
        let (ns, nodes) = match &self.kind {
            Some(OpenGraphType::Article(article)) => {
                proof {
                    lemma_article_prefix();
                }
                ("og: https://ogp.me/ns# article: http://ogp.me/ns/article#", article.to_nodes())
            },
            Some(OpenGraphType::Profile(profile)) => {
                proof {
                    lemma_profile_prefix();
                }
                ("og: https://ogp.me/ns# profile: https://ogp.me/ns/profile#", profile.to_nodes())
            },
            None => ("og: https://ogp.me/ns#", Vec::new()),
        };
        assert(ns@ == self@.prefix());
        assert(views(nodes@) =~= self@.kind_nodes());

        let kind: Option<&str> = as_ref(&self.kind);
        let kind = match kind {
            Some(name) => Some(Cow::Borrowed(name)),
            None => None,
        };
        let fields = vec![
            ("og:title", borrowed(&self.title)),
            ("og:type", kind),
            ("og:url", borrowed(&self.url)),
            ("og:image", borrowed(&self.image)),
            ("og:audio", borrowed(&self.audio)),
            ("og:video", borrowed(&self.video)),
            ("og:description", borrowed(&self.description)),
            ("og:determiner", borrowed(&self.determiner)),
            ("og:locale", borrowed(&self.locale)),
            ("og:site_name", borrowed(&self.site_name)),
        ];
        let alternates = vec![("og:locale:alternate", &self.alternate_locale)];
        assert(fields@.map_values(|f| opt_field_view(f)) =~= self@.fields());
        assert(alternates@.map_values(|f| vec_field_view(f)) =~= seq![
            ("og:locale:alternate"@, self@.alternate_locale),
        ]);
        let open_graph_nodes = merge(
            open_graph_nodes_opt(fields),
            open_graph_nodes_vec(alternates),
        );
        assert(views(open_graph_nodes@) =~= self@.base_nodes() + self@.alternate_nodes());

        let encoding = Node {
            name: "meta",
            attr: vec![("charset", Cow::Borrowed("utf-8"))],
            children: Vec::new(),
            text: OptionalCow::from(None),
        };
        assert(encoding@.attr =~= charset().attr);
        assert(encoding@.children =~= charset().children);
        let color = match &self.theme_color {
            Some(color) => {
                let node = Node {
                    name: "meta",
                    attr: vec![
                        ("name", Cow::Borrowed("theme-color")),
                        ("content", Cow::Borrowed(color.as_str())),
                    ],
                    children: Vec::new(),
                    text: OptionalCow::from(None),
                };
                assert(node@.attr =~= theme(color@).attr);
                assert(node@.children =~= theme(color@).children);
                Some(node)
            },
            None => None,
        };
        let head = Node {
            name: "head",
            attr: Vec::new(),
            children: append_opt(append(merge(open_graph_nodes, nodes), encoding), color),
            text: OptionalCow::from(None),
        };
        proof {
            lemma_children(head);
            assert(views(head.children@) =~= self@.head_nodes());
            assert(head@.attr =~= self@.head().attr);
        }
        let body = match fallback {
            Some(Fallback::Message(text)) => {
                let node = Node {
                    name: "body",
                    attr: Vec::new(),
                    children: Vec::new(),
                    text: OptionalCow::from(text),
                };
                assert(node@.attr =~= body(FallbackView::Message(text@)).attr);
                assert(node@.children =~= body(FallbackView::Message(text@)).children);
                Some(node)
            },
            Some(Fallback::Node(inner)) => {
                let node = Node {
                    name: "body",
                    attr: Vec::new(),
                    children: vec![inner],
                    text: OptionalCow::from(None),
                };
                assert(node@.attr =~= body(FallbackView::Node(inner@)).attr);
                assert(node@.children =~= body(FallbackView::Node(inner@)).children);
                Some(node)
            },
            None => None,
        };
        let root = Node {
            name: "html",
            attr: vec![("prefix", Cow::Borrowed(ns))],
            children: append_opt(vec![head], body),
            text: OptionalCow::from(None),
        };
        proof {
            assert(root@.attr =~= expected.attr);
            assert(root@.children =~= expected.children);
        }
        root
    }

    /// Renders the document without a body.
    pub fn to_html(&self) -> (html: String)
        ensures
            html@ == self@.document(None).html(),
    {
        self.to_node(None).to_html()
    }

    /// Renders the document with a body that holds the message as text.
    pub fn to_html_with_fallback_message(&self, fallback_message: &str) -> (html: String)
        ensures
            html@ == self@.document(Some(FallbackView::Message(fallback_message@))).html(),
    {
        self.to_node(Some(Fallback::Message(fallback_message))).to_html()
    }

    /// Renders the document with a body that holds the node as its only child.
    pub fn to_html_with_fallback_node(&self, fallback_node: Node) -> (html: String)
        ensures
            html@ == self@.document(Some(FallbackView::Node(fallback_node@))).html(),
    {
        self.to_node(Some(Fallback::Node(fallback_node))).to_html()
    }
}

/// With every optional field absent and every list empty, the document is
/// `html` with the base prefix around a `head` that holds only the
/// encoding leaf.
pub proof fn lemma_empty_document(metadata: OpenGraphView)
    requires
        metadata.title is None,
        metadata.kind is None,
        metadata.url is None,
        metadata.image is None,
        metadata.audio is None,
        metadata.video is None,
        metadata.description is None,
        metadata.determiner is None,
        metadata.locale is None,
        metadata.alternate_locale.len() == 0,
        metadata.site_name is None,
        metadata.theme_color is None,
    ensures
        metadata.head_nodes() == seq![charset()],
        metadata.document(None).html()
            == "<html prefix=\"og: https://ogp.me/ns#\"><head><meta charset=\"utf-8\"/></head></html>"@,
{
    lemma_nodes_opt_absent(metadata.fields());
    lemma_nodes_vec_one(("og:locale:alternate"@, metadata.alternate_locale));
    assert(metadata.head_nodes() =~= seq![charset()]);
    let encoding = charset();
    let head = metadata.head();
    let root = metadata.document(None);
    reveal_with_fuel(attrs_html, 2);
    reveal_with_fuel(children_html, 2);
    reveal_strlit("<");
    reveal_strlit(">");
    reveal_strlit("/>");
    reveal_strlit("</");
    reveal_strlit(" ");
    reveal_strlit("=\"");
    reveal_strlit("\"");
    reveal_strlit("meta");
    reveal_strlit("charset");
    reveal_strlit("utf-8");
    reveal_strlit("head");
    reveal_strlit("html");
    reveal_strlit("prefix");
    reveal_strlit("og: https://ogp.me/ns#");
    reveal_strlit("<meta charset=\"utf-8\"/>");
    reveal_strlit("<head><meta charset=\"utf-8\"/></head>");
    reveal_strlit(
        "<html prefix=\"og: https://ogp.me/ns#\"><head><meta charset=\"utf-8\"/></head></html>",
    );
    assert(encoding.attr.drop_last() =~= Seq::empty());
    assert(encoding.html() =~= "<meta charset=\"utf-8\"/>"@);
    assert(head.children.drop_last() =~= Seq::empty());
    assert(children_html(head.children) =~= encoding.html());
    assert(head.open_tag() =~= "<"@ + "head"@);
    assert(head.html() =~= "<"@ + "head"@ + ">"@ + encoding.html() + "</"@ + "head"@ + ">"@);
    assert(head.html() =~= "<head><meta charset=\"utf-8\"/></head>"@);
    assert(root.attr.drop_last() =~= Seq::empty());
    assert(root.children.drop_last() =~= Seq::empty());
    assert(children_html(root.children) =~= head.html());
    assert(root.html()
        =~= "<html prefix=\"og: https://ogp.me/ns#\"><head><meta charset=\"utf-8\"/></head></html>"@);
}

/// Each alternate locale has one `og:locale:alternate` leaf, in the order
/// of the list, and these leaves follow the base leaves in `head`.
pub proof fn lemma_alternate_locales(metadata: OpenGraphView)
    ensures
        metadata.alternate_nodes().len() == metadata.alternate_locale.len(),
        forall|i: int|
            0 <= i < metadata.alternate_locale.len() ==> #[trigger] metadata.alternate_nodes()[i]
                == meta("og:locale:alternate"@, metadata.alternate_locale[i]),
        forall|i: int|
            0 <= i < metadata.alternate_locale.len() ==> metadata.head_nodes()[metadata.base_nodes().len()
                + i] == #[trigger] metadata.alternate_nodes()[i],
{
    lemma_nodes_vec_one(("og:locale:alternate"@, metadata.alternate_locale));
}

/// The children of `head` stand in five blocks, in this order: the base
/// leaves, the leaves of the alternate locales, the leaves of the kind, the
/// encoding leaf, the theme leaf. So the leaves of the kind come after every
/// base leaf and before the encoding leaf.
pub proof fn lemma_head_layout(metadata: OpenGraphView)
    ensures
        ({
            let head = metadata.head_nodes();
            let base = metadata.base_nodes();
            let alternate = metadata.alternate_nodes();
            let kind = metadata.kind_nodes();
            let theme = metadata.theme_nodes();
            let b = base.len() as int;
            let a = alternate.len() as int;
            let k = kind.len() as int;
            &&& head.len() == b + a + k + 1 + theme.len()
            &&& forall|i: int| 0 <= i < b ==> head[i] == #[trigger] base[i]
            &&& forall|i: int| 0 <= i < a ==> head[b + i] == #[trigger] alternate[i]
            &&& forall|i: int| 0 <= i < k ==> head[b + a + i] == #[trigger] kind[i]
            &&& head[b + a + k] == charset()
            &&& forall|i: int| 0 <= i < theme.len() ==> head[b + a + k + 1 + i] == #[trigger] theme[i]
        }),
{
}

/// The markup of `head` is the markup of the five blocks one after the
/// other between `<head>` and `</head>`: the markup of the kind's leaves
/// comes after that of the base and alternate leaves and before that of the
/// encoding leaf.
pub proof fn lemma_head_html(metadata: OpenGraphView)
    ensures
        metadata.head().html() == "<"@ + "head"@ + ">"@ + children_html(metadata.base_nodes())
            + children_html(metadata.alternate_nodes()) + children_html(metadata.kind_nodes())
            + charset().html() + children_html(metadata.theme_nodes()) + "</"@ + "head"@ + ">"@,
{
    let base = metadata.base_nodes();
    let alternate = metadata.alternate_nodes();
    let kind = metadata.kind_nodes();
    let theme = metadata.theme_nodes();
    let head = metadata.head();
    lemma_children_html_concat(base, alternate);
    lemma_children_html_concat(base + alternate, kind);
    lemma_children_html_concat(base + alternate + kind, seq![charset()]);
    lemma_children_html_concat(base + alternate + kind + seq![charset()], theme);
    assert(children_html(seq![charset()]) =~= charset().html()) by {
        reveal_with_fuel(children_html, 2);
        assert(seq![charset()].drop_last() =~= Seq::empty());
    }
    assert(head.open_tag() =~= "<"@ + "head"@);
    assert(!head.is_leaf());
    assert(head.html() =~= "<"@ + "head"@ + ">"@ + children_html(base) + children_html(alternate)
        + children_html(kind) + charset().html() + children_html(theme) + "</"@ + "head"@ + ">"@);
}

/// Rendering is a function of the metadata: whatever two calls of
/// [`OpenGraph::to_html`] on the same value return, they return the same
/// text.
pub proof fn lemma_to_html_idempotent(metadata: &OpenGraph, first: String, second: String)
    requires
        call_ensures(OpenGraph::to_html, (metadata,), first),
        call_ensures(OpenGraph::to_html, (metadata,), second),
    ensures
        first@ == second@,
{
}

} // verus!
