//! The provided conversions, on well-formed inputs. Wherever the word
//! `ignore` appears in a test value, the conversion does not look at it.

use darling_core::meta::{IntSuffix, Lit, MetaItem, NestedMetaItem, StrStyle};
use darling_core::FromMetaItem;

use vstd::hash_map::StringHashMap;

/// Converts an attribute item, expecting success.
fn fmi<T: FromMetaItem>(item: &MetaItem) -> T {
    T::from_meta_item(item).expect("tests should pass valid input")
}

fn word(name: &str) -> MetaItem {
    MetaItem::Word(name.to_string())
}

fn name_value(name: &str, value: Lit) -> MetaItem {
    MetaItem::NameValue(name.to_string(), value)
}

fn cooked(value: &str) -> Lit {
    Lit::Str(value.to_string(), StrStyle::Cooked)
}

#[test]
fn unit_succeeds() {
    assert_eq!(fmi::<()>(&word("ignore")), ());
}

#[test]
fn bool_succeeds() {
    // word format
    assert_eq!(fmi::<bool>(&word("ignore")), true);

    // bool literal
    assert_eq!(fmi::<bool>(&name_value("ignore", Lit::Bool(true))), true);
    assert_eq!(fmi::<bool>(&name_value("ignore", Lit::Bool(false))), false);

    // string literals
    assert_eq!(fmi::<bool>(&name_value("ignore", cooked("true"))), true);
    assert_eq!(fmi::<bool>(&name_value("ignore", cooked("false"))), false);
}

#[test]
fn string_succeeds() {
    // cooked form
    assert_eq!(&fmi::<String>(&name_value("ignore", cooked("world"))), "world");

    // raw form
    assert_eq!(
        &fmi::<String>(&name_value("ignore", Lit::Str("world".to_string(), StrStyle::Raw(1)))),
        "world"
    );
}

#[test]
fn meta_item_succeeds() {
    let item = MetaItem::List(
        "hello".to_string(),
        vec![
            NestedMetaItem::MetaItem(word("world")),
            NestedMetaItem::MetaItem(word("today")),
        ],
    );
    assert_eq!(fmi::<MetaItem>(&item), item);
}

#[test]
fn hash_map_succeeds() {
    let item = MetaItem::List(
        "ignore".to_string(),
        vec![
            NestedMetaItem::MetaItem(word("hello")),
            NestedMetaItem::MetaItem(name_value("world", Lit::Bool(false))),
            NestedMetaItem::MetaItem(name_value("there", cooked("true"))),
        ],
    );
    let map = fmi::<StringHashMap<bool>>(&item);
    assert_eq!(map.len(), 3);
    assert_eq!(map.get("hello"), Some(&true));
    assert_eq!(map.get("world"), Some(&false));
    assert_eq!(map.get("there"), Some(&true));
}

#[test]
fn hash_map_passes_over_literals() {
    let item = MetaItem::List(
        "ignore".to_string(),
        vec![
            NestedMetaItem::Literal(cooked("loose")),
            NestedMetaItem::MetaItem(word("hello")),
            NestedMetaItem::Literal(Lit::Int(7, IntSuffix::Unsuffixed)),
        ],
    );
    let map = fmi::<StringHashMap<bool>>(&item);
    assert_eq!(map.len(), 1);
    assert_eq!(map.get("hello"), Some(&true));
    assert_eq!(map.get("loose"), None);
}

#[test]
fn option_wraps_any_success() {
    assert_eq!(fmi::<Option<bool>>(&word("ignore")), Some(true));
    assert_eq!(
        fmi::<Option<String>>(&name_value("ignore", cooked("v"))),
        Some("v".to_string())
    );
}

#[test]
fn containers_wrap_the_inner_value() {
    assert_eq!(fmi::<Box<bool>>(&word("ignore")), Box::new(true));
    assert_eq!(fmi::<std::rc::Rc<bool>>(&word("ignore")), std::rc::Rc::new(true));
    assert_eq!(fmi::<std::sync::Arc<bool>>(&word("ignore")), std::sync::Arc::new(true));
    assert_eq!(
        fmi::<core::cell::RefCell<bool>>(&word("ignore")),
        core::cell::RefCell::new(true)
    );
}

#[test]
fn atomic_bool_mirrors_bool() {
    let flag = fmi::<std::sync::atomic::AtomicBool>(&name_value("ignore", cooked("false")));
    assert_eq!(flag.load(std::sync::atomic::Ordering::SeqCst), false);
}

#[test]
fn result_captures_the_attempt() {
    let ok = fmi::<Result<bool, darling_core::Error>>(&word("ignore"));
    assert_eq!(ok, Ok(true));

    let err = fmi::<Result<String, darling_core::Error>>(&word("ignore"));
    assert_eq!(err, Err(darling_core::Error::unsupported_format("word")));
}

#[test]
fn nested_meta_item_dispatches_on_form() {
    let lit = NestedMetaItem::Literal(Lit::Bool(false));
    assert_eq!(bool::from_nested_meta_item(&lit), Ok(false));

    let item = NestedMetaItem::MetaItem(word("ignore"));
    assert_eq!(bool::from_nested_meta_item(&item), Ok(true));
}

#[test]
fn meta_item_name_is_the_leading_ident() {
    assert_eq!(word("alpha").name(), "alpha");
    assert_eq!(MetaItem::List("beta".to_string(), vec![]).name(), "beta");
    assert_eq!(name_value("gamma", Lit::Bool(true)).name(), "gamma");
}
