use opengraph::{Node, OptionalCow};
use std::borrow::Cow;

fn leaf(name: &'static str) -> Node<'static> {
    Node {
        name,
        ..Default::default()
    }
}

#[test]
fn default_node_is_an_empty_leaf_named_default() {
    let node = Node::default();
    assert_eq!(node.name, "default");
    assert!(node.attr.is_empty());
    assert!(node.children.is_empty());
    assert!(node.text.is_none());
    assert_eq!(node.to_html(), "<default/>");
}

#[test]
fn leaf_is_self_closing() {
    assert_eq!(leaf("br").to_html(), "<br/>");
}

#[test]
fn leaf_with_attributes_is_self_closing() {
    let node = Node {
        name: "meta",
        attr: vec![("charset", Cow::Borrowed("utf-8"))],
        ..Default::default()
    };
    let html = node.to_html();
    assert_eq!(html, r#"<meta charset="utf-8"/>"#);
    assert!(html.ends_with("/>"));
    assert!(!html.contains("</"));
}

#[test]
fn attributes_keep_their_order() {
    let node = Node {
        name: "a",
        attr: vec![
            ("z", Cow::Borrowed("1")),
            ("a", Cow::Owned("2".to_owned())),
            ("m", Cow::Borrowed("3")),
        ],
        ..Default::default()
    };
    assert_eq!(node.to_html(), r#"<a z="1" a="2" m="3"/>"#);
}

#[test]
fn text_gives_a_closing_tag() {
    let node = Node {
        name: "p",
        text: "hello".into(),
        ..Default::default()
    };
    assert_eq!(node.to_html(), "<p>hello</p>");
}

#[test]
fn empty_text_is_still_text() {
    let node = Node {
        name: "p",
        text: "".into(),
        ..Default::default()
    };
    assert_eq!(node.to_html(), "<p></p>");
}

#[test]
fn owned_text_is_written_like_borrowed_text() {
    let node = Node {
        name: "p",
        text: String::from("hello").into(),
        ..Default::default()
    };
    assert_eq!(node.to_html(), "<p>hello</p>");
}

#[test]
fn children_come_in_order_and_before_the_text() {
    let node = Node {
        name: "div",
        attr: vec![("id", Cow::Borrowed("x"))],
        children: vec![
            leaf("a"),
            Node {
                name: "b",
                text: "bold".into(),
                ..Default::default()
            },
            leaf("c"),
        ],
        text: "tail".into(),
    };
    assert_eq!(
        node.to_html(),
        r#"<div id="x"><a/><b>bold</b><c/>tail</div>"#
    );
}

#[test]
fn children_without_text_give_a_closing_tag() {
    let node = Node {
        name: "ul",
        children: vec![leaf("li"), leaf("li")],
        ..Default::default()
    };
    assert_eq!(node.to_html(), "<ul><li/><li/></ul>");
}

#[test]
fn nested_children_are_serialized_depth_first() {
    let node = Node {
        name: "a",
        children: vec![
            Node {
                name: "b",
                children: vec![Node {
                    name: "c",
                    children: vec![leaf("d")],
                    ..Default::default()
                }],
                ..Default::default()
            },
            leaf("e"),
        ],
        ..Default::default()
    };
    assert_eq!(node.to_html(), "<a><b><c><d/></c></b><e/></a>");
}

#[test]
fn values_are_written_as_they_are() {
    let node = Node {
        name: "p",
        attr: vec![("title", Cow::Borrowed(r#"a "quoted" <b> & c"#))],
        text: "1 < 2 && 3 > 2".into(),
        ..Default::default()
    };
    assert_eq!(
        node.to_html(),
        r#"<p title="a "quoted" <b> & c">1 < 2 && 3 > 2</p>"#
    );
}

#[test]
fn serializing_twice_gives_the_same_text() {
    let node = Node {
        name: "p",
        attr: vec![("lang", Cow::Borrowed("en"))],
        children: vec![leaf("br")],
        text: "x".into(),
    };
    assert_eq!(node.to_html(), node.to_html());
}

#[test]
fn optional_cow_from_a_borrowed_string_is_present() {
    let text: OptionalCow<'_, str> = "abc".into();
    assert!(!text.is_none());
    assert!(matches!(text.0, Some(Cow::Borrowed("abc"))));
}

#[test]
fn optional_cow_from_an_owned_string_is_present() {
    let text: OptionalCow<'_, str> = String::from("abc").into();
    assert!(!text.is_none());
    match text.0 {
        Some(Cow::Owned(s)) => assert_eq!(s, "abc"),
        _ => panic!("an owned string stays owned"),
    }
}

#[test]
fn optional_cow_from_an_option() {
    let absent: OptionalCow<'_, str> = None.into();
    assert!(absent.is_none());
    assert!(absent.0.is_none());
    let present: OptionalCow<'_, str> = Some("abc").into();
    assert!(!present.is_none());
    assert!(matches!(present.0, Some(Cow::Borrowed("abc"))));
}

#[test]
fn optional_cow_holds_other_borrowed_values() {
    let bytes: [u8; 3] = [1, 2, 3];
    let held: OptionalCow<'_, [u8]> = (&bytes[..]).into();
    assert!(!held.is_none());
    let absent: OptionalCow<'_, [u8]> = None.into();
    assert!(absent.is_none());
}
