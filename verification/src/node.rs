use std::borrow::Cow;
use vstd::prelude::*;
use vstd::string::StringExecFns;

verus! {

/// The mathematical value of a [`Node`]: an element of the markup tree.
pub struct NodeView {
    pub name: Seq<char>,
    pub attr: Seq<(Seq<char>, Seq<char>)>,
    pub children: Seq<NodeView>,
    pub text: Option<Seq<char>>,
}

/// One attribute as it is written inside an opening tag: a space, the name,
/// and the value between double quotes. The value is written as it is.
pub open spec fn attr_html(a: (Seq<char>, Seq<char>)) -> Seq<char> {
    " "@ + a.0 + "=\""@ + a.1 + "\""@
}

/// The attributes of an element, written one after the other in their order.
pub open spec fn attrs_html(attr: Seq<(Seq<char>, Seq<char>)>) -> Seq<char>
    decreases attr.len(),
{
    if attr.len() == 0 {
        Seq::empty()
    } else {
        attrs_html(attr.drop_last()) + attr_html(attr.last())
    }
}

/// The text of an element, or nothing where it has none.
pub open spec fn text_html(text: Option<Seq<char>>) -> Seq<char> {
    match text {
        Some(t) => t,
        None => Seq::empty(),
    }
}

/// The elements of a list, serialized one after the other in their order.
pub open spec fn children_html(children: Seq<NodeView>) -> Seq<char>
    decreases children,
{
    if children.len() == 0 {
        Seq::empty()
    } else {
        children_html(children.drop_last()) + children.last().html()
    }
}

impl NodeView {
    /// A leaf has neither children nor text.
    pub open spec fn is_leaf(self) -> bool {
        self.children.len() == 0 && self.text is None
    }

    /// `<`, the name and the attributes: what both forms of an element start with.
    pub open spec fn open_tag(self) -> Seq<char> {
        "<"@ + self.name + attrs_html(self.attr)
    }

    /// The markup of the element.
    ///
    /// A leaf is closed in its opening tag (`<name .../>`). Any other element
    /// is written as opening tag, children in order, text, closing tag.
    pub open spec fn html(self) -> Seq<char>
        decreases self,
    {
        if self.is_leaf() {
            self.open_tag() + "/>"@
        } else {
            self.open_tag() + ">"@ + children_html(self.children) + text_html(self.text) + "</"@
                + self.name + ">"@
        }
    }
}

/// A value that may be absent and, where present, is borrowed or owned.
#[verifier::reject_recursive_types(T)]
pub struct OptionalCow<'a, T>(pub Option<Cow<'a, T>>) where T: ?Sized + 'a + ToOwned;

impl<'a, T> OptionalCow<'a, T> where T: ?Sized + 'a + ToOwned {
    pub fn is_none(&self) -> (r: bool)
        ensures
            r == (self.0 is None),
    {
        self.0.is_none()
    }
}

impl<'a> View for OptionalCow<'a, str> {
    type V = Option<Seq<char>>;

    open spec fn view(&self) -> Option<Seq<char>> {
        match self.0 {
            Some(value) => Some(value@),
            None => None,
        }
    }
}

impl<'a, T> From<&'a T> for OptionalCow<'a, T> where T: ?Sized + 'a + ToOwned {
    fn from(x: &'a T) -> (r: Self) {
        Self(Some(Cow::Borrowed(x)))
    }
}

impl<'a, T> vstd::std_specs::convert::FromSpecImpl<&'a T> for OptionalCow<'a, T> where T: ?Sized + 'a + ToOwned {
    open spec fn obeys_from_spec() -> bool {
        true
    }

    open spec fn from_spec(x: &'a T) -> Self {
        OptionalCow(Some(Cow::Borrowed(x)))
    }
}

impl<'a> From<String> for OptionalCow<'a, str> {
    fn from(x: String) -> (r: Self) {
        Self(Some(Cow::Owned(x)))
    }
}

impl<'a> vstd::std_specs::convert::FromSpecImpl<String> for OptionalCow<'a, str> {
    open spec fn obeys_from_spec() -> bool {
        true
    }

    open spec fn from_spec(x: String) -> Self {
        OptionalCow(Some(Cow::Owned(x)))
    }
}

impl<'a, T> From<Option<&'a T>> for OptionalCow<'a, T> where T: ?Sized + 'a + ToOwned {
    fn from(x: Option<&'a T>) -> (r: Self) {
        match x {
            Some(x) => Self(Some(Cow::Borrowed(x))),
            None => Self(None),
        }
    }
}

impl<'a, T> vstd::std_specs::convert::FromSpecImpl<Option<&'a T>> for OptionalCow<'a, T> where T: ?Sized + 'a + ToOwned {
    open spec fn obeys_from_spec() -> bool {
        true
    }

    open spec fn from_spec(x: Option<&'a T>) -> Self {
        match x {
            Some(x) => OptionalCow(Some(Cow::Borrowed(x))),
            None => OptionalCow(None),
        }
    }
}

/// An element of the markup tree: a tag name, attributes in order, children
/// in order and an optional text.
pub struct Node<'a> {
    pub name: &'static str,
    pub attr: Vec<(&'static str, Cow<'a, str>)>,
    pub children: Vec<Node<'a>>,
    pub text: OptionalCow<'a, str>,
}

impl<'a> Node<'a> {
    /// The element that the node stands for.
    pub open spec fn view(&self) -> NodeView
        decreases self,
    {
        NodeView {
            name: self.name@,
            attr: self.attr@.map_values(|a: (&'static str, Cow<'a, str>)| (a.0@, a.1@)),
            children: Seq::new(
                self.children@.len(),
                |i: int|
                    if 0 <= i < self.children@.len() {
                        self.children@[i]@
                    } else {
                        arbitrary()
                    },
            ),
            text: self.text@,
        }
    }
}

impl Default for Node<'_> {
    /// The leaf named `default`, without attributes.
    fn default() -> (r: Self)
        ensures
            r@ == (NodeView {
                name: "default"@,
                attr: Seq::empty(),
                children: Seq::empty(),
                text: None,
            }),
    {
        let r = Node {
            name: "default",
            attr: Vec::new(),
            children: Vec::new(),
            text: OptionalCow::from(None),
        };
        assert(r@.attr =~= Seq::empty());
        assert(r@.children =~= Seq::empty());
        r
    }
}

/// The string that a `Cow` holds, whichever way it holds it.
fn cow_str<'b>(value: &'b Cow<'_, str>) -> (r: &'b str)
    ensures
        r@ == value@,
{
    match value {
        Cow::Borrowed(b) => b,
        Cow::Owned(o) => o.as_str(),
    }
}

impl<'a> Node<'a> {
    /// Serializes the element and everything below it.
    pub fn to_html(&self) -> (r: String)
        ensures
            r@ == self@.html(),
        decreases self,
    {
        let mut r = String::new();
        r.append("<");
        r.append(self.name);
        let mut i: usize = 0;
        while i < self.attr.len()
            invariant
                i <= self.attr.len(),
                r@ == "<"@ + self.name@ + attrs_html(self@.attr.take(i as int)),
            decreases self.attr.len() - i,
        {
            r.append(" ");
            r.append(self.attr[i].0);
            r.append("=\"");
            r.append(cow_str(&self.attr[i].1));
            r.append("\"");
            proof {
                let next = self@.attr.take(i + 1);
                assert(next.drop_last() == self@.attr.take(i as int));
                assert(next.last() == (self.attr[i as int].0@, self.attr[i as int].1@));
            }
            i += 1;
        }
        assert(self@.attr.take(i as int) == self@.attr);
        if self.children.is_empty() && self.text.is_none() {
            r.append("/>");
            return r;
        }
        r.append(">");
        let mut j: usize = 0;
        while j < self.children.len()
            invariant
                j <= self.children.len(),
                r@ == self@.open_tag() + ">"@ + children_html(self@.children.take(j as int)),
            decreases self.children.len() - j,
        {
            let child = self.children[j].to_html();
            r.append(child.as_str());
            proof {
                let next = self@.children.take(j + 1);
                assert(next.drop_last() == self@.children.take(j as int));
                assert(next.last() == self.children[j as int]@);
            }
            j += 1;
        }
        assert(self@.children.take(j as int) == self@.children);
        match &self.text.0 {
            Some(text) => {
                r.append(cow_str(text));
            },
            None => {},
        }
        r.append("</");
        r.append(self.name);
        r.append(">");
        r
    }
}

/// A node without children and without text is closed in its opening tag:
/// its markup is the opening tag followed by `/>`, and nothing comes after.
pub proof fn lemma_leaf_self_closing(node: NodeView)
    requires
        node.is_leaf(),
    ensures
        node.html() == node.open_tag() + "/>"@,
        node.html().len() == node.open_tag().len() + 2,
        node.html()[node.html().len() - 2] == '/',
        node.html()[node.html().len() - 1] == '>',
{
    reveal_strlit("/>");
}

/// A node with children or with text is written with a closing tag of its
/// own, which ends the markup: opening tag, `>`, children, text, `</name>`.
pub proof fn lemma_parent_closing_tag(node: NodeView)
    requires
        !node.is_leaf(),
    ensures
        node.html() == node.open_tag() + ">"@ + children_html(node.children) + text_html(
            node.text,
        ) + ("</"@ + node.name + ">"@),
        node.html().len() >= node.open_tag().len() + node.name.len() + 4,
        node.html()[node.open_tag().len() as int] == '>',
        node.html()[node.html().len() - 1] == '>',
{
    reveal_strlit(">");
    reveal_strlit("</");
    let front = node.open_tag() + ">"@ + children_html(node.children) + text_html(node.text);
    assert(node.html() =~= front + ("</"@ + node.name + ">"@));
}

/// The markup of a list of nodes is the markup of its front part followed
/// by the markup of its back part.
pub proof fn lemma_children_html_concat(front: Seq<NodeView>, back: Seq<NodeView>)
    ensures
        children_html(front + back) == children_html(front) + children_html(back),
    decreases back.len(),
{
    if back.len() == 0 {
        assert(front + back =~= front);
        assert(children_html(front) + children_html(back) =~= children_html(front));
    } else {
        lemma_children_html_concat(front, back.drop_last());
        assert((front + back).drop_last() =~= front + back.drop_last());
        assert((front + back).last() == back.last());
        assert(children_html(front + back) =~= children_html(front) + children_html(back));
    }
}

} // verus!
