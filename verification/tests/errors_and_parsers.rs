//! The structured errors, and the conversions that lean on the external
//! parsers.

use darling_core::meta::{FloatSuffix, IntSuffix, Lit, MetaItem, NestedMetaItem, StrStyle};
use darling_core::{Error, FromMetaItem};

fn word(name: &str) -> MetaItem {
    MetaItem::Word(name.to_string())
}

fn name_value(name: &str, value: Lit) -> MetaItem {
    MetaItem::NameValue(name.to_string(), value)
}

fn cooked(value: &str) -> Lit {
    Lit::Str(value.to_string(), StrStyle::Cooked)
}

#[test]
fn unsupported_shapes_are_reported() {
    assert_eq!(
        String::from_meta_item(&word("ignore")),
        Err(Error::unsupported_format("word"))
    );
    assert_eq!(
        bool::from_meta_item(&MetaItem::List("ignore".to_string(), vec![])),
        Err(Error::unsupported_format("list"))
    );
}

#[test]
fn unexpected_literal_kinds_are_reported() {
    assert_eq!(
        bool::from_meta_item(&name_value("ignore", Lit::Char('x'))),
        Err(Error::unexpected_type("other"))
    );
    assert_eq!(
        String::from_meta_item(&name_value("ignore", Lit::Bool(true))),
        Err(Error::unexpected_type("bool"))
    );
    assert_eq!(bool::from_char('x'), Err(Error::unexpected_type("char")));
    assert_eq!(<()>::from_string("hi"), Err(Error::unexpected_type("string")));
}

#[test]
fn numeric_literal_kinds_are_rejected() {
    assert_eq!(
        bool::from_meta_item(&name_value("ignore", Lit::Int(1, IntSuffix::U8))),
        Err(Error::unexpected_type("other"))
    );
    assert_eq!(
        bool::from_meta_item(
            &name_value("ignore", Lit::Float("1.5".to_string(), FloatSuffix::Unsuffixed))
        ),
        Err(Error::unexpected_type("other"))
    );
}

#[test]
fn unknown_bool_text_is_reported() {
    assert_eq!(
        bool::from_meta_item(&name_value("ignore", cooked("yes"))),
        Err(Error::unknown_value("yes"))
    );
}

#[test]
fn duplicate_fields_are_reported() {
    let item = MetaItem::List(
        "ignore".to_string(),
        vec![
            NestedMetaItem::MetaItem(word("hello")),
            NestedMetaItem::MetaItem(name_value("hello", Lit::Bool(false))),
        ],
    );
    match <vstd::hash_map::StringHashMap<bool> as FromMetaItem>::from_meta_item(&item) {
        Err(e) => assert_eq!(e, Error::duplicate_field("hello")),
        Ok(_) => panic!("expected the duplicate-field error"),
    }
}

#[test]
fn hash_map_passes_inner_errors_through() {
    let item = MetaItem::List(
        "ignore".to_string(),
        vec![NestedMetaItem::MetaItem(name_value("x", cooked("bogus")))],
    );
    match <vstd::hash_map::StringHashMap<bool> as FromMetaItem>::from_meta_item(&item) {
        Err(e) => assert_eq!(e, Error::unknown_value("bogus")),
        Ok(_) => panic!("expected the inner error to pass through"),
    }
}

#[test]
fn error_descriptions_name_the_category() {
    assert_eq!(Error::unsupported_format("word").description(), "unsupported format");
    assert_eq!(Error::unexpected_type("char").description(), "unexpected literal type");
    assert_eq!(Error::unknown_value("x").description(), "unknown literal value");
    assert_eq!(Error::duplicate_field("x").description(), "duplicate field");
}

#[test]
fn path_parses_or_is_unknown() {
    assert!(syn::Path::from_string("std::fmt::Debug").is_ok());
    assert!(syn::Path::from_string("::alpha::beta").is_ok());
    assert_eq!(
        syn::Path::from_string("9 not a path !"),
        Err(Error::unknown_value("9 not a path !"))
    );
}

#[test]
fn non_ascii_text_is_not_handed_to_the_parsers() {
    // syn 0.11 would panic on the byte literal holding a multi-byte
    // character; the conversion reports an unknown value instead.
    let tricky = "A<[u8; b'\u{e9}']>";
    assert_eq!(
        syn::Path::from_string(tricky),
        Err(Error::unknown_value(tricky))
    );
    assert_eq!(
        syn::TyParamBound::from_string("Tr\u{e9}s"),
        Err(Error::unknown_value("Tr\u{e9}s"))
    );
    assert_eq!(
        syn::WhereClause::from_string("where [u8; b'\u{e9}']: Clone"),
        Err(Error::unknown_value("where [u8; b'\u{e9}']: Clone"))
    );
    assert_eq!(
        <Vec<syn::WherePredicate>>::from_string("[u8; b'\u{e9}']: Clone"),
        Err(Error::unknown_value("where [u8; b'\u{e9}']: Clone"))
    );
}

#[test]
fn path_converts_from_a_string_literal() {
    let r = syn::Path::from_meta_item(&name_value("ignore", cooked("a::b")));
    assert!(r.is_ok());
}

#[test]
fn ty_param_bound_parses_or_is_unknown() {
    assert!(syn::TyParamBound::from_string("'static").is_ok());
    assert!(syn::TyParamBound::from_string("std::fmt::Debug").is_ok());
    assert_eq!(
        syn::TyParamBound::from_string("!!!"),
        Err(Error::unknown_value("!!!"))
    );
}

#[test]
fn where_clause_parses_or_is_unknown() {
    assert!(syn::WhereClause::from_string("where T: Clone").is_ok());
    assert_eq!(
        syn::WhereClause::from_string("banana banana"),
        Err(Error::unknown_value("banana banana"))
    );
}

#[test]
fn where_predicates_get_the_prefix() {
    let preds = <Vec<syn::WherePredicate>>::from_string("T: Clone, U: Copy");
    assert_eq!(preds.map(|v| v.len()), Ok(2));

    // the reported unknown value carries the prefixed text
    assert_eq!(
        <Vec<syn::WherePredicate>>::from_string("!!!"),
        Err(Error::unknown_value("where !!!"))
    );
}

#[test]
fn rename_rule_accepts_the_fixed_names() {
    assert!(ident_case::RenameRule::from_string("snake_case").is_ok());
    assert!(ident_case::RenameRule::from_string("PascalCase").is_ok());
    assert!(ident_case::RenameRule::from_string("kebab-case").is_ok());
    assert_eq!(
        ident_case::RenameRule::from_string("bogus_case"),
        Err(Error::unknown_value("bogus_case"))
    );
}

#[test]
fn rename_rule_converts_from_a_string_literal() {
    let r = ident_case::RenameRule::from_meta_item(&name_value("ignore", cooked("camelCase")));
    assert!(r.is_ok());
}
