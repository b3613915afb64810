use crate::node::{Node, NodeView};
use crate::property::{borrowed, nodes_opt, open_graph_nodes_opt, opt_field_view, views, OptField};
use crate::util::{as_ref, Lend};
use std::borrow::Cow;
use vstd::prelude::*;

verus! {

#[derive(Debug, Clone, Copy)]
pub enum Gender {
    Male,
    Female,
}

impl Lend<str> for Gender {
    /// The lowercase name of the gender.
    open spec fn lent(&self) -> &str {
        match self {
            Gender::Male => "male",
            Gender::Female => "female",
        }
    }

    fn lend(&self) -> (r: &str) {
        match self {
            Gender::Male => "male",
            Gender::Female => "female",
        }
    }
}

impl AsRef<str> for Gender {
    fn as_ref(&self) -> (r: &str)
        ensures
            r == self.lent(),
    {
        self.lend()
    }
}

#[derive(Debug, Clone)]
pub struct Profile {
    /// A name normally given to an individual by a parent or self-chosen.
    pub first_name: Option<String>,
    /// A name inherited from a family or marriage and by which the individual is commonly known.
    pub last_name: Option<String>,
    /// A short unique string to identify them.
    pub username: Option<String>,
    /// Their gender.
    pub gender: Option<Gender>,
}

/// The mathematical value of a [`Profile`].
pub struct ProfileView {
    pub first_name: Option<Seq<char>>,
    pub last_name: Option<Seq<char>>,
    pub username: Option<Seq<char>>,
    pub gender: Option<Gender>,
}

impl ProfileView {
    /// The name of the gender, where one is given.
    pub open spec fn gender_name(self) -> Option<Seq<char>> {
        match self.gender {
            Some(gender) => Some(gender.lent()@),
            None => None,
        }
    }

    /// The properties of a profile in their declared order.
    pub open spec fn fields(self) -> Seq<OptField> {
        seq![
            ("profile:first_name"@, self.first_name),
            ("profile:last_name"@, self.last_name),
            ("profile:username"@, self.username),
            ("profile:gender"@, self.gender_name()),
        ]
    }

    /// The leaves that a profile adds to the head of a document.
    pub open spec fn nodes(self) -> Seq<NodeView> {
        nodes_opt(self.fields())
    }
}

impl View for Profile {
    type V = ProfileView;

    open spec fn view(&self) -> ProfileView {
        ProfileView {
            first_name: self.first_name.deep_view(),
            last_name: self.last_name.deep_view(),
            username: self.username.deep_view(),
            gender: self.gender,
        }
    }
}

impl Default for Profile {
    /// A profile of which nothing is known.
    fn default() -> (r: Self)
        ensures
            r.first_name is None,
            r.last_name is None,
            r.username is None,
            r.gender is None,
    {
        Profile { first_name: None, last_name: None, username: None, gender: None }
    }
}

impl Profile {
    /// The leaf nodes of the profile's properties that are present.
    pub fn to_nodes(&self) -> (nodes: Vec<Node<'_>>)
        ensures
            views(nodes@) == self@.nodes(),
    {
        let gender: Option<&str> = as_ref(&self.gender);
        let gender = match gender {
            Some(name) => Some(Cow::Borrowed(name)),
            None => None,
        };
        let fields = vec![
            ("profile:first_name", borrowed(&self.first_name)),
            ("profile:last_name", borrowed(&self.last_name)),
            ("profile:username", borrowed(&self.username)),
            ("profile:gender", gender),
        ];
        assert(fields@.map_values(|f| opt_field_view(f)) =~= self@.fields());
        open_graph_nodes_opt(fields)
    }
}

} // verus!
