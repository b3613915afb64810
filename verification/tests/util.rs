use opengraph::profile::Gender;
use opengraph::{append, append_opt, as_ref, merge, Lend, OpenGraphType, Profile};

#[test]
fn merge_keeps_the_order_of_both_lists() {
    assert_eq!(merge(vec![1, 2], vec![3, 4, 5]), vec![1, 2, 3, 4, 5]);
}

#[test]
fn merge_with_an_empty_list_changes_nothing() {
    assert_eq!(merge(Vec::<u8>::new(), vec![1, 2]), vec![1, 2]);
    assert_eq!(merge(vec![1, 2], Vec::<u8>::new()), vec![1, 2]);
    assert_eq!(merge(Vec::<u8>::new(), Vec::new()), Vec::<u8>::new());
}

#[test]
fn append_puts_the_item_last() {
    assert_eq!(append(vec!["a", "b"], "c"), vec!["a", "b", "c"]);
    assert_eq!(append(Vec::new(), 7), vec![7]);
}

#[test]
fn append_opt_puts_a_present_item_last() {
    assert_eq!(append_opt(vec![1, 2], Some(3)), vec![1, 2, 3]);
}

#[test]
fn append_opt_leaves_the_list_alone_without_an_item() {
    assert_eq!(append_opt(vec![1, 2], None), vec![1, 2]);
}

#[test]
fn as_ref_lends_what_is_inside() {
    let held = Some(Gender::Male);
    let male: Option<&str> = as_ref(&held);
    assert_eq!(male, Some("male"));
    let held = Some(Gender::Female);
    let female: Option<&str> = as_ref(&held);
    assert_eq!(female, Some("female"));
}

#[test]
fn as_ref_of_nothing_is_nothing() {
    let none: Option<&str> = as_ref(&None::<Gender>);
    assert_eq!(none, None);
}

#[test]
fn gender_is_named_in_lower_case() {
    assert_eq!(Gender::Male.lend(), "male");
    assert_eq!(Gender::Female.lend(), "female");
    let male: &str = Gender::Male.as_ref();
    assert_eq!(male, "male");
    let female: &str = Gender::Female.as_ref();
    assert_eq!(female, "female");
}

#[test]
fn kind_is_named_after_its_variant() {
    let profile = OpenGraphType::Profile(Profile::default());
    assert_eq!(profile.lend(), "profile");
    let name: &str = profile.as_ref();
    assert_eq!(name, "profile");
    let article = OpenGraphType::Article(Default::default());
    assert_eq!(article.lend(), "article");
    let name: &str = article.as_ref();
    assert_eq!(name, "article");
    let held = Some(article);
    let kind: Option<&str> = as_ref(&held);
    assert_eq!(kind, Some("article"));
}
