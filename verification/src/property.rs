use crate::node::{Node, NodeView, OptionalCow};
use std::borrow::Cow;
use vstd::prelude::*;

verus! {

/// A property name with a value that may be absent.
pub type OptField = (Seq<char>, Option<Seq<char>>);

/// A property name with a list of values.
pub type VecField = (Seq<char>, Seq<Seq<char>>);

/// The leaf `<meta property=".." content=".."/>`.
pub open spec fn meta(property: Seq<char>, content: Seq<char>) -> NodeView {
    NodeView {
        name: "meta"@,
        attr: seq![("property"@, property), ("content"@, content)],
        children: Seq::empty(),
        text: None,
    }
}

/// The leaf of a field whose value is present.
pub open spec fn meta_opt(field: OptField) -> Option<NodeView> {
    match field.1 {
        Some(content) => Some(meta(field.0, content)),
        None => None,
    }
}

/// One leaf for each field whose value is present, in the order of the
/// fields. A field without a value leaves nothing behind.
pub open spec fn nodes_opt(fields: Seq<OptField>) -> Seq<NodeView> {
    fields.filter_map(|field: OptField| meta_opt(field))
}

/// One leaf for each value of a field, in the order of the values.
pub open spec fn meta_vec(field: VecField) -> Seq<NodeView> {
    field.1.map_values(|content: Seq<char>| meta(field.0, content))
}

/// The leaves of each field in turn, in the order of the fields.
pub open spec fn nodes_vec(fields: Seq<VecField>) -> Seq<NodeView> {
    fields.map_values(|field: VecField| meta_vec(field)).flatten()
}

/// The elements that a list of nodes stands for.
pub open spec fn views(nodes: Seq<Node>) -> Seq<NodeView> {
    nodes.map_values(|node: Node| node@)
}

/// The leaf node `<meta property=".." content=".."/>`.
pub fn meta_node<'a>(property: &'static str, content: Cow<'a, str>) -> (node: Node<'a>)
    ensures
        node@ == meta(property@, content@),
{
    let node = Node {
        name: "meta",
        attr: vec![("property", Cow::Borrowed(property)), ("content", content)],
        children: Vec::new(),
        text: OptionalCow::from(None),
    };
    assert(node@.attr =~= seq![("property"@, property@), ("content"@, content@)]);
    assert(node@.children =~= Seq::empty());
    node
}

/// What a field with an optional value says.
pub open spec fn opt_field_view(field: (&'static str, Option<Cow<'_, str>>)) -> OptField {
    (field.0@, field.1.deep_view())
}

/// Borrows the string of an optional field.
pub fn borrowed<'a>(value: &'a Option<String>) -> (r: Option<Cow<'a, str>>)
    ensures
        r.deep_view() == value.deep_view(),
{
    match value {
        Some(s) => Some(Cow::Borrowed(s.as_str())),
        None => None,
    }
}

/// Maps fields with optional values to leaf nodes: one node for each value
/// that is present, in the order of the fields.
pub fn open_graph_nodes_opt<'a>(fields: Vec<(&'static str, Option<Cow<'a, str>>)>) -> (nodes: Vec<
    Node<'a>,
>)
    ensures
        views(nodes@) == nodes_opt(fields@.map_values(|f| opt_field_view(f))),
{
    let ghost all = fields@.map_values(|f| opt_field_view(f));
    let mut nodes: Vec<Node<'a>> = Vec::new();
    for field in it: fields
        invariant
            it.seq() == fields@,
            all == fields@.map_values(|f| opt_field_view(f)),
            views(nodes@) == nodes_opt(all.take(it.index() as int)),
    {
        let ghost before = views(nodes@);
        let ghost i = it.index() as int;
        assert(field == fields@[i]);
        let (property, value) = field;
        if let Some(content) = value {
            nodes.push(meta_node(property, content));
        }
        proof {
            all.lemma_filter_map_take_succ(|f: OptField| meta_opt(f), i);
            assert(all[i] == opt_field_view(field));
            assert(views(nodes@) =~= before + match meta_opt(all[i]) {
                Some(node) => seq![node],
                None => Seq::empty(),
            });
        }
    }
    assert(all.take(fields@.len() as int) == all);
    nodes
}

/// The strings of a list as sequences of characters.
pub open spec fn strings(values: Seq<String>) -> Seq<Seq<char>> {
    values.map_values(|value: String| value@)
}

/// What a field with a list of values says.
pub open spec fn vec_field_view(field: (&'static str, &Vec<String>)) -> VecField {
    (field.0@, strings(field.1@))
}

/// Maps fields with lists of values to leaf nodes: for each field in turn,
/// one node for each of its values, in the order of the values.
pub fn open_graph_nodes_vec<'a>(fields: Vec<(&'static str, &'a Vec<String>)>) -> (nodes: Vec<
    Node<'a>,
>)
    ensures
        views(nodes@) == nodes_vec(fields@.map_values(|f| vec_field_view(f))),
{
    let ghost all = fields@.map_values(|f| vec_field_view(f));
    let ghost lists = all.map_values(|f: VecField| meta_vec(f));
    let mut nodes: Vec<Node<'a>> = Vec::new();
    let mut i: usize = 0;
    while i < fields.len()
        invariant
            i <= fields.len(),
            all == fields@.map_values(|f| vec_field_view(f)),
            lists == all.map_values(|f: VecField| meta_vec(f)),
            views(nodes@) == lists.take(i as int).flatten_alt(),
        decreases fields.len() - i,
    {
        let (property, values) = fields[i];
        let ghost before = views(nodes@);
        let mut j: usize = 0;
        while j < values.len()
            invariant
                j <= values.len(),
                i < fields.len(),
                (property, values) == fields@[i as int],
                all == fields@.map_values(|f| vec_field_view(f)),
                views(nodes@) == before + meta_vec(all[i as int]).take(j as int),
            decreases values.len() - j,
        {
            let ghost earlier = nodes@;
            nodes.push(meta_node(property, Cow::Borrowed(values[j].as_str())));
            proof {
                let list = meta_vec(all[i as int]);
                assert(list[j as int] == meta(property@, values@[j as int]@));
                assert(list.take(j + 1) =~= list.take(j as int).push(list[j as int]));
                assert(views(nodes@) =~= views(earlier).push(nodes@[j + before.len()]@));
            }
            j += 1;
        }
        proof {
            assert(meta_vec(all[i as int]).take(j as int) == meta_vec(all[i as int]));
            assert(lists.take(i + 1).drop_last() == lists.take(i as int));
        }
        i += 1;
    }
    proof {
        assert(lists.take(i as int) == lists);
        lists.lemma_flatten_and_flatten_alt_are_equivalent();
    }
    nodes
}

/// How many of the fields have a value.
pub open spec fn count_present(fields: Seq<OptField>) -> nat
    decreases fields.len(),
{
    if fields.len() == 0 {
        0
    } else {
        count_present(fields.drop_last()) + if fields.last().1 is Some {
            1nat
        } else {
            0nat
        }
    }
}

/// Where the leaf of field `i` stands among the leaves: after one leaf for
/// each earlier field that has a value.
pub open spec fn position(fields: Seq<OptField>, i: int) -> int {
    count_present(fields.take(i)) as int
}

/// There are as many leaves as fields with a value.
pub proof fn lemma_nodes_opt_len(fields: Seq<OptField>)
    ensures
        nodes_opt(fields).len() == count_present(fields),
    decreases fields.len(),
{
    if fields.len() > 0 {
        lemma_nodes_opt_len(fields.drop_last());
    }
}

/// Taking more fields never takes fewer values, and taking a field with a
/// value takes one more.
pub proof fn lemma_position_grows(fields: Seq<OptField>, i: int, j: int)
    requires
        0 <= i <= j <= fields.len(),
    ensures
        position(fields, i) <= position(fields, j),
        i < j && fields[i].1 is Some ==> position(fields, i) < position(fields, j),
    decreases j - i,
{
    if i < j {
        lemma_position_grows(fields, i, j - 1);
        assert(fields.take(j).drop_last() == fields.take(j - 1));
        assert(fields.take(j).last() == fields[j - 1]);
    }
}

/// A field with a value has its leaf at its position.
pub proof fn lemma_nodes_opt_at(fields: Seq<OptField>, i: int)
    requires
        0 <= i < fields.len(),
        fields[i].1 is Some,
    ensures
        0 <= position(fields, i) < nodes_opt(fields).len(),
        nodes_opt(fields)[position(fields, i)] == meta(fields[i].0, fields[i].1->0),
    decreases fields.len(),
{
    let rest = fields.drop_last();
    if i == fields.len() - 1 {
        assert(fields.take(i) == rest);
        lemma_nodes_opt_len(rest);
    } else {
        lemma_nodes_opt_at(rest, i);
        assert(rest.take(i) == fields.take(i));
    }
}

/// Every leaf is the leaf of a field with a value.
pub proof fn lemma_nodes_opt_from(fields: Seq<OptField>, k: int) -> (i: int)
    requires
        0 <= k < nodes_opt(fields).len(),
    ensures
        0 <= i < fields.len(),
        fields[i].1 is Some,
        position(fields, i) == k,
    decreases fields.len(),
{
    let rest = fields.drop_last();
    lemma_nodes_opt_len(rest);
    if k < nodes_opt(rest).len() {
        let i = lemma_nodes_opt_from(rest, k);
        assert(rest.take(i) == fields.take(i));
        i
    } else {
        assert(fields.take(fields.len() - 1) == rest);
        fields.len() - 1
    }
}

/// The leaves of the fields that have a value stand in the declared order
/// of their fields, and the fields without a value leave neither a leaf
/// nor a gap: the leaves are as many as the values, the leaf of a field
/// stands after exactly the leaves of the earlier fields, and no leaf is
/// without a field.
pub proof fn lemma_nodes_opt_order(fields: Seq<OptField>)
    ensures
        nodes_opt(fields).len() == count_present(fields),
        forall|i: int|
            0 <= i < fields.len() && fields[i].1 is Some ==> 0 <= #[trigger] position(fields, i)
                < nodes_opt(fields).len() && nodes_opt(fields)[position(fields, i)] == meta(
                fields[i].0,
                fields[i].1->0,
            ),
        forall|i: int, j: int|
            0 <= i < j < fields.len() && fields[i].1 is Some ==> #[trigger] position(fields, i)
                < #[trigger] position(fields, j),
        forall|k: int|
            #![trigger nodes_opt(fields)[k]]
            0 <= k < nodes_opt(fields).len() ==> exists|i: int|
                #![trigger position(fields, i)]
                0 <= i < fields.len() && fields[i].1 is Some && position(fields, i) == k
                    && nodes_opt(fields)[k] == meta(fields[i].0, fields[i].1->0),
{
    lemma_nodes_opt_len(fields);
    assert forall|i: int| 0 <= i < fields.len() && fields[i].1 is Some implies 0
        <= #[trigger] position(fields, i) < nodes_opt(fields).len() && nodes_opt(fields)[position(
        fields,
        i,
    )] == meta(fields[i].0, fields[i].1->0) by {
        lemma_nodes_opt_at(fields, i);
    }
    assert forall|i: int, j: int|
        0 <= i < j < fields.len() && fields[i].1 is Some implies #[trigger] position(fields, i)
        < #[trigger] position(fields, j) by {
        lemma_position_grows(fields, i, j);
    }
    assert forall|k: int|
        #![trigger nodes_opt(fields)[k]]
        0 <= k < nodes_opt(fields).len() implies exists|i: int|
        #![trigger position(fields, i)]
        0 <= i < fields.len() && fields[i].1 is Some && position(fields, i) == k && nodes_opt(
            fields,
        )[k] == meta(fields[i].0, fields[i].1->0) by {
        let i = lemma_nodes_opt_from(fields, k);
        lemma_nodes_opt_at(fields, i);
        assert(position(fields, i) == k);
    }
}

/// Where no field has a value there is no leaf.
pub proof fn lemma_nodes_opt_absent(fields: Seq<OptField>)
    requires
        forall|i: int| 0 <= i < fields.len() ==> (#[trigger] fields[i]).1 is None,
    ensures
        nodes_opt(fields) == Seq::<NodeView>::empty(),
    decreases fields.len(),
{
    if fields.len() > 0 {
        lemma_nodes_opt_absent(fields.drop_last());
    }
}

/// A list of values gives one leaf for each value, in the order of the
/// values; an empty list gives none.
pub proof fn lemma_nodes_vec_one(field: VecField)
    ensures
        nodes_vec(seq![field]) == meta_vec(field),
        meta_vec(field).len() == field.1.len(),
        forall|i: int|
            0 <= i < field.1.len() ==> #[trigger] meta_vec(field)[i] == meta(field.0, field.1[i]),
{
    let lists = seq![field].map_values(|f: VecField| meta_vec(f));
    assert(lists =~= seq![meta_vec(field)]);
    lists.lemma_flatten_one_element();
}

/// The leaves of a list of fields are the leaves of its front part followed
/// by the leaves of its back part.
pub proof fn lemma_nodes_vec_concat(front: Seq<VecField>, back: Seq<VecField>)
    ensures
        nodes_vec(front + back) == nodes_vec(front) + nodes_vec(back),
{
    let f = |field: VecField| meta_vec(field);
    assert((front + back).map_values(f) =~= front.map_values(f) + back.map_values(f));
    vstd::seq_lib::lemma_flatten_concat(front.map_values(f), back.map_values(f));
}

} // verus!
