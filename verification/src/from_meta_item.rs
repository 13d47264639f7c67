use vstd::prelude::*;

use core::cell::RefCell;
use std::rc::Rc;
use std::sync::Arc;
use std::sync::atomic::AtomicBool;

use vstd::hash_map::StringHashMap;

use crate::error::{Error, ErrorV};
use crate::meta::{Lit, LitV, MetaItem, MetaItemV, NestedMetaItem, NestedMetaItemV};
use crate::meta::{lemma_nested_seq_view, meta_item_name, nested_seq_view};

verus! {

/// `r` holds the "unsupported format" error naming the shape `which`.
pub open spec fn is_format_err<T>(r: Result<T, Error>, which: Seq<char>) -> bool {
    r matches Err(e) && e@ == ErrorV::UnsupportedFormat(which)
}

/// `r` holds the "unexpected literal type" error naming the kind `which`.
pub open spec fn is_type_err<T>(r: Result<T, Error>, which: Seq<char>) -> bool {
    r matches Err(e) && e@ == ErrorV::UnexpectedType(which)
}

/// `r` holds the "unknown value" error for the literal text `value`.
pub open spec fn is_unknown_value_err<T>(r: Result<T, Error>, value: Seq<char>) -> bool {
    r matches Err(e) && e@ == ErrorV::UnknownValue(value)
}

/// Create an instance from an item in an attribute declaration.
///
/// Each conversion method is paired with a spec function that pins down
/// what that method returns for the implementing type; the dispatch
/// methods then promise the dispatch over those spec functions. A type
/// implements only the `from_*` methods (and spec functions) whose shape
/// it supports, and wires the rest to the fallback routines, which return
/// the structured errors.
pub trait FromMetaItem: Sized {
    /// What `from_word` returns.
    spec fn word_spec(r: Result<Self, Error>) -> bool;

    /// What `from_list` returns, given the shapes of the nested items.
    spec fn list_spec(items: Seq<NestedMetaItemV>, r: Result<Self, Error>) -> bool;

    /// What `from_char` returns.
    spec fn char_spec(value: char, r: Result<Self, Error>) -> bool;

    /// What `from_string` returns, given the characters of the literal.
    spec fn string_spec(value: Seq<char>, r: Result<Self, Error>) -> bool;

    /// What `from_bool` returns.
    spec fn bool_spec(value: bool, r: Result<Self, Error>) -> bool;

    /// What `from_meta_item` returns, given the shape of the item. For
    /// most types this is the plain shape dispatch over the other spec
    /// functions; container types instead wrap the inner conversion.
    spec fn meta_item_spec(item: MetaItemV, r: Result<Self, Error>) -> bool;

    /// Create an instance from a nested meta item, which may be either a
    /// bare literal or a full item. A bare literal goes to `from_value`,
    /// a full item to `from_meta_item`.
    fn from_nested_meta_item(item: &NestedMetaItem) -> (r: Result<Self, Error>)
        ensures
            match item@ {
                NestedMetaItemV::Literal(l) => match l {
                    LitV::Bool(b) => Self::bool_spec(b, r),
                    LitV::Str(s, _) => Self::string_spec(s, r),
                    _ => is_type_err(r, "other"@),
                },
                NestedMetaItemV::MetaItem(m) => Self::meta_item_spec(m, r),
            },
    {
        match item {
            NestedMetaItem::Literal(lit) => Self::from_value(lit),
            NestedMetaItem::MetaItem(mi) => Self::from_meta_item(mi),
        }
    }

    /// Create an instance from an attribute item, dispatching on its
    /// shape. Implementations generally keep the plain dispatch to
    /// `from_word`, `from_list` and `from_value`.
    fn from_meta_item(item: &MetaItem) -> (r: Result<Self, Error>)
        ensures
            Self::meta_item_spec(item@, r),
    ;

    /// Create an instance from the presence of the bare word in the
    /// attribute, with no value attached.
    fn from_word() -> (r: Result<Self, Error>)
        ensures
            Self::word_spec(r),
    ;

    /// Create an instance from a list of nested meta items.
    fn from_list(items: &[NestedMetaItem]) -> (r: Result<Self, Error>)
        ensures
            Self::list_spec(nested_seq_view(items@), r),
    ;

    /// Create an instance from a literal in a value position, dispatching
    /// on the kind of literal: a boolean literal goes to `from_bool`, a
    /// string literal to `from_string`, and every other kind is rejected.
    fn from_value(value: &Lit) -> (r: Result<Self, Error>)
        ensures
            match value@ {
                LitV::Bool(b) => Self::bool_spec(b, r),
                LitV::Str(s, _) => Self::string_spec(s, r),
                _ => is_type_err(r, "other"@),
            },
    {
        match value {
            Lit::Bool(b) => Self::from_bool(*b),
            Lit::Str(s, _) => Self::from_string(s.as_str()),
            _ => Err(Error::unexpected_type("other")),
        }
    }

    /// Create an instance from a char literal in a value position.
    fn from_char(value: char) -> (r: Result<Self, Error>)
        ensures
            Self::char_spec(value, r),
    ;

    /// Create an instance from a string literal in a value position.
    fn from_string(value: &str) -> (r: Result<Self, Error>)
        ensures
            Self::string_spec(value@, r),
    ;

    /// Create an instance from a bool literal in a value position.
    fn from_bool(value: bool) -> (r: Result<Self, Error>)
        ensures
            Self::bool_spec(value, r),
    ;
}

/// The fallback for types that cannot be built from a bare word.
pub fn from_word_fallback<T>() -> (r: Result<T, Error>)
    ensures
        is_format_err(r, "word"@),
{
    Err(Error::unsupported_format("word"))
}

/// The fallback for types that cannot be built from a list.
pub fn from_list_fallback<T>() -> (r: Result<T, Error>)
    ensures
        is_format_err(r, "list"@),
{
    Err(Error::unsupported_format("list"))
}

/// The fallback for types that cannot be built from a char literal.
pub fn from_char_fallback<T>() -> (r: Result<T, Error>)
    ensures
        is_type_err(r, "char"@),
{
    Err(Error::unexpected_type("char"))
}

/// The fallback for types that cannot be built from a string literal.
pub fn from_string_fallback<T>() -> (r: Result<T, Error>)
    ensures
        is_type_err(r, "string"@),
{
    Err(Error::unexpected_type("string"))
}

/// The fallback for types that cannot be built from a bool literal.
pub fn from_bool_fallback<T>() -> (r: Result<T, Error>)
    ensures
        is_type_err(r, "bool"@),
{
    Err(Error::unexpected_type("bool"))
}

/// `()` is built from a bare word alone; this is best used with `Option`.
impl FromMetaItem for () {
    open spec fn word_spec(r: Result<(), Error>) -> bool {
        r == Ok::<(), Error>(())
    }

    open spec fn list_spec(items: Seq<NestedMetaItemV>, r: Result<(), Error>) -> bool {
        is_format_err(r, "list"@)
    }

    open spec fn char_spec(value: char, r: Result<(), Error>) -> bool {
        is_type_err(r, "char"@)
    }

    open spec fn string_spec(value: Seq<char>, r: Result<(), Error>) -> bool {
        is_type_err(r, "string"@)
    }

    open spec fn bool_spec(value: bool, r: Result<(), Error>) -> bool {
        is_type_err(r, "bool"@)
    }

    open spec fn meta_item_spec(item: MetaItemV, r: Result<(), Error>) -> bool {
        match item {
            MetaItemV::Word(_) => Self::word_spec(r),
            MetaItemV::List(_, items) => Self::list_spec(items, r),
            MetaItemV::NameValue(_, value) => match value {
                LitV::Bool(b) => Self::bool_spec(b, r),
                LitV::Str(s, _) => Self::string_spec(s, r),
                _ => is_type_err(r, "other"@),
            },
        }
    }

    fn from_meta_item(item: &MetaItem) -> (r: Result<Self, Error>) {
        match item {
            MetaItem::Word(_) => Self::from_word(),
            MetaItem::List(_, items) => Self::from_list(items.as_slice()),
            MetaItem::NameValue(_, value) => Self::from_value(value),
        }
    }

    fn from_word() -> (r: Result<Self, Error>) {
        Ok(())
    }

    fn from_list(items: &[NestedMetaItem]) -> (r: Result<Self, Error>) {
        from_list_fallback()
    }

    fn from_char(value: char) -> (r: Result<Self, Error>) {
        from_char_fallback()
    }

    fn from_string(value: &str) -> (r: Result<Self, Error>) {
        from_string_fallback()
    }

    fn from_bool(value: bool) -> (r: Result<Self, Error>) {
        from_bool_fallback()
    }
}

/// Compares two string slices character for character.
fn str_eq(a: &str, b: &str) -> (r: bool)
    ensures
        r == (a@ == b@),
{
    let x = a.to_owned();
    let y = b.to_owned();
    x == y
}

/// `bool` is built from the bare word (meaning `true`), from a bool
/// literal, or from a string literal spelling `"true"` or `"false"`.
impl FromMetaItem for bool {
    open spec fn word_spec(r: Result<bool, Error>) -> bool {
        r == Ok::<bool, Error>(true)
    }

    open spec fn list_spec(items: Seq<NestedMetaItemV>, r: Result<bool, Error>) -> bool {
        is_format_err(r, "list"@)
    }

    open spec fn char_spec(value: char, r: Result<bool, Error>) -> bool {
        is_type_err(r, "char"@)
    }

    open spec fn string_spec(value: Seq<char>, r: Result<bool, Error>) -> bool {
        if value == "true"@ {
            r == Ok::<bool, Error>(true)
        } else if value == "false"@ {
            r == Ok::<bool, Error>(false)
        } else {
            is_unknown_value_err(r, value)
        }
    }

    open spec fn bool_spec(value: bool, r: Result<bool, Error>) -> bool {
        r == Ok::<bool, Error>(value)
    }

    open spec fn meta_item_spec(item: MetaItemV, r: Result<bool, Error>) -> bool {
        match item {
            MetaItemV::Word(_) => Self::word_spec(r),
            MetaItemV::List(_, items) => Self::list_spec(items, r),
            MetaItemV::NameValue(_, value) => match value {
                LitV::Bool(b) => Self::bool_spec(b, r),
                LitV::Str(s, _) => Self::string_spec(s, r),
                _ => is_type_err(r, "other"@),
            },
        }
    }

    fn from_meta_item(item: &MetaItem) -> (r: Result<Self, Error>) {
        match item {
            MetaItem::Word(_) => Self::from_word(),
            MetaItem::List(_, items) => Self::from_list(items.as_slice()),
            MetaItem::NameValue(_, value) => Self::from_value(value),
        }
    }

    fn from_word() -> (r: Result<Self, Error>) {
        Ok(true)
    }

    fn from_list(items: &[NestedMetaItem]) -> (r: Result<Self, Error>) {
        from_list_fallback()
    }

    fn from_char(value: char) -> (r: Result<Self, Error>) {
        from_char_fallback()
    }

    fn from_string(value: &str) -> (r: Result<Self, Error>) {
        if str_eq(value, "true") {
            Ok(true)
        } else if str_eq(value, "false") {
            Ok(false)
        } else {
            Err(Error::unknown_value(value))
        }
    }

    fn from_bool(value: bool) -> (r: Result<Self, Error>) {
        Ok(value)
    }
}

/// A string is built from a string literal alone; the copy carries the
/// literal's characters.
impl FromMetaItem for String {
    open spec fn word_spec(r: Result<String, Error>) -> bool {
        is_format_err(r, "word"@)
    }

    open spec fn list_spec(items: Seq<NestedMetaItemV>, r: Result<String, Error>) -> bool {
        is_format_err(r, "list"@)
    }

    open spec fn char_spec(value: char, r: Result<String, Error>) -> bool {
        is_type_err(r, "char"@)
    }

    open spec fn string_spec(value: Seq<char>, r: Result<String, Error>) -> bool {
        r matches Ok(v) && v@ == value
    }

    open spec fn bool_spec(value: bool, r: Result<String, Error>) -> bool {
        is_type_err(r, "bool"@)
    }

    open spec fn meta_item_spec(item: MetaItemV, r: Result<String, Error>) -> bool {
        match item {
            MetaItemV::Word(_) => Self::word_spec(r),
            MetaItemV::List(_, items) => Self::list_spec(items, r),
            MetaItemV::NameValue(_, value) => match value {
                LitV::Bool(b) => Self::bool_spec(b, r),
                LitV::Str(s, _) => Self::string_spec(s, r),
                _ => is_type_err(r, "other"@),
            },
        }
    }

    fn from_meta_item(item: &MetaItem) -> (r: Result<Self, Error>) {
        match item {
            MetaItem::Word(_) => Self::from_word(),
            MetaItem::List(_, items) => Self::from_list(items.as_slice()),
            MetaItem::NameValue(_, value) => Self::from_value(value),
        }
    }

    fn from_word() -> (r: Result<Self, Error>) {
        from_word_fallback()
    }

    fn from_list(items: &[NestedMetaItem]) -> (r: Result<Self, Error>) {
        from_list_fallback()
    }

    fn from_char(value: char) -> (r: Result<Self, Error>) {
        from_char_fallback()
    }

    fn from_string(value: &str) -> (r: Result<Self, Error>) {
        Ok(value.to_owned())
    }

    fn from_bool(value: bool) -> (r: Result<Self, Error>) {
        from_bool_fallback()
    }
}

/// An attribute item converts to itself: the conversion keeps the whole
/// item, whatever its shape.
impl FromMetaItem for MetaItem {
    open spec fn word_spec(r: Result<MetaItem, Error>) -> bool {
        is_format_err(r, "word"@)
    }

    open spec fn list_spec(items: Seq<NestedMetaItemV>, r: Result<MetaItem, Error>) -> bool {
        is_format_err(r, "list"@)
    }

    open spec fn char_spec(value: char, r: Result<MetaItem, Error>) -> bool {
        is_type_err(r, "char"@)
    }

    open spec fn string_spec(value: Seq<char>, r: Result<MetaItem, Error>) -> bool {
        is_type_err(r, "string"@)
    }

    open spec fn bool_spec(value: bool, r: Result<MetaItem, Error>) -> bool {
        is_type_err(r, "bool"@)
    }

    open spec fn meta_item_spec(item: MetaItemV, r: Result<MetaItem, Error>) -> bool {
        r matches Ok(v) && v@ == item
    }

    fn from_meta_item(item: &MetaItem) -> (r: Result<Self, Error>) {
        Ok(item.clone())
    }

    fn from_word() -> (r: Result<Self, Error>) {
        from_word_fallback()
    }

    fn from_list(items: &[NestedMetaItem]) -> (r: Result<Self, Error>) {
        from_list_fallback()
    }

    fn from_char(value: char) -> (r: Result<Self, Error>) {
        from_char_fallback()
    }

    fn from_string(value: &str) -> (r: Result<Self, Error>) {
        from_string_fallback()
    }

    fn from_bool(value: bool) -> (r: Result<Self, Error>) {
        from_bool_fallback()
    }
}

/// Any convertible type can be wrapped in `Some`: every shape the inner
/// type accepts produces a value, so absence can mean "not specified".
impl<T: FromMetaItem> FromMetaItem for Option<T> {
    open spec fn word_spec(r: Result<Option<T>, Error>) -> bool {
        is_format_err(r, "word"@)
    }

    open spec fn list_spec(items: Seq<NestedMetaItemV>, r: Result<Option<T>, Error>) -> bool {
        is_format_err(r, "list"@)
    }

    open spec fn char_spec(value: char, r: Result<Option<T>, Error>) -> bool {
        is_type_err(r, "char"@)
    }

    open spec fn string_spec(value: Seq<char>, r: Result<Option<T>, Error>) -> bool {
        is_type_err(r, "string"@)
    }

    open spec fn bool_spec(value: bool, r: Result<Option<T>, Error>) -> bool {
        is_type_err(r, "bool"@)
    }

    open spec fn meta_item_spec(item: MetaItemV, r: Result<Option<T>, Error>) -> bool {
        exists|inner: Result<T, Error>|
            {
                &&& #[trigger] T::meta_item_spec(item, inner)
                &&& match inner {
                    Ok(v) => r == Ok::<Option<T>, Error>(Some(v)),
                    Err(e) => r == Err::<Option<T>, Error>(e),
                }
            }
    }

    fn from_meta_item(item: &MetaItem) -> (r: Result<Self, Error>) {
        match T::from_meta_item(item) {
            Ok(v) => Ok(Some(v)),
            Err(e) => Err(e),
        }
    }

    fn from_word() -> (r: Result<Self, Error>) {
        from_word_fallback()
    }

    fn from_list(items: &[NestedMetaItem]) -> (r: Result<Self, Error>) {
        from_list_fallback()
    }

    fn from_char(value: char) -> (r: Result<Self, Error>) {
        from_char_fallback()
    }

    fn from_string(value: &str) -> (r: Result<Self, Error>) {
        from_string_fallback()
    }

    fn from_bool(value: bool) -> (r: Result<Self, Error>) {
        from_bool_fallback()
    }
}

/// Any convertible type can be boxed.
impl<T: FromMetaItem> FromMetaItem for Box<T> {
    open spec fn word_spec(r: Result<Box<T>, Error>) -> bool {
        is_format_err(r, "word"@)
    }

    open spec fn list_spec(items: Seq<NestedMetaItemV>, r: Result<Box<T>, Error>) -> bool {
        is_format_err(r, "list"@)
    }

    open spec fn char_spec(value: char, r: Result<Box<T>, Error>) -> bool {
        is_type_err(r, "char"@)
    }

    open spec fn string_spec(value: Seq<char>, r: Result<Box<T>, Error>) -> bool {
        is_type_err(r, "string"@)
    }

    open spec fn bool_spec(value: bool, r: Result<Box<T>, Error>) -> bool {
        is_type_err(r, "bool"@)
    }

    open spec fn meta_item_spec(item: MetaItemV, r: Result<Box<T>, Error>) -> bool {
        exists|inner: Result<T, Error>|
            {
                &&& #[trigger] T::meta_item_spec(item, inner)
                &&& match inner {
                    Ok(v) => r matches Ok(b) && b == v,
                    Err(e) => r == Err::<Box<T>, Error>(e),
                }
            }
    }

    fn from_meta_item(item: &MetaItem) -> (r: Result<Self, Error>) {
        match T::from_meta_item(item) {
            Ok(v) => Ok(Box::new(v)),
            Err(e) => Err(e),
        }
    }

    fn from_word() -> (r: Result<Self, Error>) {
        from_word_fallback()
    }

    fn from_list(items: &[NestedMetaItem]) -> (r: Result<Self, Error>) {
        from_list_fallback()
    }

    fn from_char(value: char) -> (r: Result<Self, Error>) {
        from_char_fallback()
    }

    fn from_string(value: &str) -> (r: Result<Self, Error>) {
        from_string_fallback()
    }

    fn from_bool(value: bool) -> (r: Result<Self, Error>) {
        from_bool_fallback()
    }
}

/// Fallible conversion: the field takes the whole conversion attempt,
/// success or error, so the caller can deal with the error itself.
impl<T: FromMetaItem> FromMetaItem for Result<T, Error> {
    open spec fn word_spec(r: Result<Result<T, Error>, Error>) -> bool {
        is_format_err(r, "word"@)
    }

    open spec fn list_spec(
        items: Seq<NestedMetaItemV>,
        r: Result<Result<T, Error>, Error>,
    ) -> bool {
        is_format_err(r, "list"@)
    }

    open spec fn char_spec(value: char, r: Result<Result<T, Error>, Error>) -> bool {
        is_type_err(r, "char"@)
    }

    open spec fn string_spec(value: Seq<char>, r: Result<Result<T, Error>, Error>) -> bool {
        is_type_err(r, "string"@)
    }

    open spec fn bool_spec(value: bool, r: Result<Result<T, Error>, Error>) -> bool {
        is_type_err(r, "bool"@)
    }

    open spec fn meta_item_spec(item: MetaItemV, r: Result<Result<T, Error>, Error>) -> bool {
        r matches Ok(inner) && T::meta_item_spec(item, inner)
    }

    fn from_meta_item(item: &MetaItem) -> (r: Result<Self, Error>) {
        Ok(T::from_meta_item(item))
    }

    fn from_word() -> (r: Result<Self, Error>) {
        from_word_fallback()
    }

    fn from_list(items: &[NestedMetaItem]) -> (r: Result<Self, Error>) {
        from_list_fallback()
    }

    fn from_char(value: char) -> (r: Result<Self, Error>) {
        from_char_fallback()
    }

    fn from_string(value: &str) -> (r: Result<Self, Error>) {
        from_string_fallback()
    }

    fn from_bool(value: bool) -> (r: Result<Self, Error>) {
        from_bool_fallback()
    }
}

/// Any convertible type can be wrapped in a reference-counted pointer.
impl<T: FromMetaItem> FromMetaItem for Rc<T> {
    open spec fn word_spec(r: Result<Rc<T>, Error>) -> bool {
        is_format_err(r, "word"@)
    }

    open spec fn list_spec(items: Seq<NestedMetaItemV>, r: Result<Rc<T>, Error>) -> bool {
        is_format_err(r, "list"@)
    }

    open spec fn char_spec(value: char, r: Result<Rc<T>, Error>) -> bool {
        is_type_err(r, "char"@)
    }

    open spec fn string_spec(value: Seq<char>, r: Result<Rc<T>, Error>) -> bool {
        is_type_err(r, "string"@)
    }

    open spec fn bool_spec(value: bool, r: Result<Rc<T>, Error>) -> bool {
        is_type_err(r, "bool"@)
    }

    open spec fn meta_item_spec(item: MetaItemV, r: Result<Rc<T>, Error>) -> bool {
        exists|inner: Result<T, Error>|
            {
                &&& #[trigger] T::meta_item_spec(item, inner)
                &&& match inner {
                    Ok(v) => r matches Ok(p) && p == v,
                    Err(e) => r == Err::<Rc<T>, Error>(e),
                }
            }
    }

    fn from_meta_item(item: &MetaItem) -> (r: Result<Self, Error>) {
        match T::from_meta_item(item) {
            Ok(v) => Ok(Rc::new(v)),
            Err(e) => Err(e),
        }
    }

    fn from_word() -> (r: Result<Self, Error>) {
        from_word_fallback()
    }

    fn from_list(items: &[NestedMetaItem]) -> (r: Result<Self, Error>) {
        from_list_fallback()
    }

    fn from_char(value: char) -> (r: Result<Self, Error>) {
        from_char_fallback()
    }

    fn from_string(value: &str) -> (r: Result<Self, Error>) {
        from_string_fallback()
    }

    fn from_bool(value: bool) -> (r: Result<Self, Error>) {
        from_bool_fallback()
    }
}

/// Any convertible type can be wrapped in an atomically
/// reference-counted pointer.
impl<T: FromMetaItem> FromMetaItem for Arc<T> {
    open spec fn word_spec(r: Result<Arc<T>, Error>) -> bool {
        is_format_err(r, "word"@)
    }

    open spec fn list_spec(items: Seq<NestedMetaItemV>, r: Result<Arc<T>, Error>) -> bool {
        is_format_err(r, "list"@)
    }

    open spec fn char_spec(value: char, r: Result<Arc<T>, Error>) -> bool {
        is_type_err(r, "char"@)
    }

    open spec fn string_spec(value: Seq<char>, r: Result<Arc<T>, Error>) -> bool {
        is_type_err(r, "string"@)
    }

    open spec fn bool_spec(value: bool, r: Result<Arc<T>, Error>) -> bool {
        is_type_err(r, "bool"@)
    }

    open spec fn meta_item_spec(item: MetaItemV, r: Result<Arc<T>, Error>) -> bool {
        exists|inner: Result<T, Error>|
            {
                &&& #[trigger] T::meta_item_spec(item, inner)
                &&& match inner {
                    Ok(v) => r matches Ok(p) && p == v,
                    Err(e) => r == Err::<Arc<T>, Error>(e),
                }
            }
    }

    fn from_meta_item(item: &MetaItem) -> (r: Result<Self, Error>) {
        match T::from_meta_item(item) {
            Ok(v) => Ok(Arc::new(v)),
            Err(e) => Err(e),
        }
    }

    fn from_word() -> (r: Result<Self, Error>) {
        from_word_fallback()
    }

    fn from_list(items: &[NestedMetaItem]) -> (r: Result<Self, Error>) {
        from_list_fallback()
    }

    fn from_char(value: char) -> (r: Result<Self, Error>) {
        from_char_fallback()
    }

    fn from_string(value: &str) -> (r: Result<Self, Error>) {
        from_string_fallback()
    }

    fn from_bool(value: bool) -> (r: Result<Self, Error>) {
        from_bool_fallback()
    }
}

/// A boolean flag that can be shared across threads. Nothing is promised
/// of the value stored inside the atomic; only the conversion's success
/// mirrors the plain `bool` conversion.
impl FromMetaItem for AtomicBool {
    open spec fn word_spec(r: Result<AtomicBool, Error>) -> bool {
        is_format_err(r, "word"@)
    }

    open spec fn list_spec(items: Seq<NestedMetaItemV>, r: Result<AtomicBool, Error>) -> bool {
        is_format_err(r, "list"@)
    }

    open spec fn char_spec(value: char, r: Result<AtomicBool, Error>) -> bool {
        is_type_err(r, "char"@)
    }

    open spec fn string_spec(value: Seq<char>, r: Result<AtomicBool, Error>) -> bool {
        is_type_err(r, "string"@)
    }

    open spec fn bool_spec(value: bool, r: Result<AtomicBool, Error>) -> bool {
        is_type_err(r, "bool"@)
    }

    open spec fn meta_item_spec(item: MetaItemV, r: Result<AtomicBool, Error>) -> bool {
        exists|inner: Result<bool, Error>|
            {
                &&& #[trigger] <bool as FromMetaItem>::meta_item_spec(item, inner)
                &&& match inner {
                    Ok(_) => r is Ok,
                    Err(e) => r == Err::<AtomicBool, Error>(e),
                }
            }
    }

    fn from_meta_item(item: &MetaItem) -> (r: Result<Self, Error>) {
        match <bool as FromMetaItem>::from_meta_item(item) {
            Ok(v) => Ok(AtomicBool::new(v)),
            Err(e) => Err(e),
        }
    }

    fn from_word() -> (r: Result<Self, Error>) {
        from_word_fallback()
    }

    fn from_list(items: &[NestedMetaItem]) -> (r: Result<Self, Error>) {
        from_list_fallback()
    }

    fn from_char(value: char) -> (r: Result<Self, Error>) {
        from_char_fallback()
    }

    fn from_string(value: &str) -> (r: Result<Self, Error>) {
        from_string_fallback()
    }

    fn from_bool(value: bool) -> (r: Result<Self, Error>) {
        from_bool_fallback()
    }
}

#[verifier::external_type_specification]
#[verifier::external_body]
#[verifier::reject_recursive_types(T)]
pub struct ExRefCell<T: ?Sized>(RefCell<T>);

/// Relies on core's `RefCell::new`: wraps the given value in a fresh
/// cell. The cell is opaque here; nothing further is claimed of it.
#[verifier::external_body]
fn ref_cell_new<T>(value: T) -> (r: RefCell<T>) {
    RefCell::new(value)
}

/// Any convertible type can be wrapped in a cell with interior
/// mutability. Nothing is promised of the value stored inside the cell;
/// only the conversion's success mirrors the inner conversion.
impl<T: FromMetaItem> FromMetaItem for RefCell<T> {
    open spec fn word_spec(r: Result<RefCell<T>, Error>) -> bool {
        is_format_err(r, "word"@)
    }

    open spec fn list_spec(items: Seq<NestedMetaItemV>, r: Result<RefCell<T>, Error>) -> bool {
        is_format_err(r, "list"@)
    }

    open spec fn char_spec(value: char, r: Result<RefCell<T>, Error>) -> bool {
        is_type_err(r, "char"@)
    }

    open spec fn string_spec(value: Seq<char>, r: Result<RefCell<T>, Error>) -> bool {
        is_type_err(r, "string"@)
    }

    open spec fn bool_spec(value: bool, r: Result<RefCell<T>, Error>) -> bool {
        is_type_err(r, "bool"@)
    }

    open spec fn meta_item_spec(item: MetaItemV, r: Result<RefCell<T>, Error>) -> bool {
        exists|inner: Result<T, Error>|
            {
                &&& #[trigger] T::meta_item_spec(item, inner)
                &&& match inner {
                    Ok(_) => r is Ok,
                    Err(e) => r == Err::<RefCell<T>, Error>(e),
                }
            }
    }

    fn from_meta_item(item: &MetaItem) -> (r: Result<Self, Error>) {
        match T::from_meta_item(item) {
            Ok(v) => Ok(ref_cell_new(v)),
            Err(e) => Err(e),
        }
    }

    fn from_word() -> (r: Result<Self, Error>) {
        from_word_fallback()
    }

    fn from_list(items: &[NestedMetaItem]) -> (r: Result<Self, Error>) {
        from_list_fallback()
    }

    fn from_char(value: char) -> (r: Result<Self, Error>) {
        from_char_fallback()
    }

    fn from_string(value: &str) -> (r: Result<Self, Error>) {
        from_string_fallback()
    }

    fn from_bool(value: bool) -> (r: Result<Self, Error>) {
        from_bool_fallback()
    }
}

/// Relates a list of nested items to the outcome of folding them, left to
/// right, into a map that starts as `acc`. Bare literals are passed over.
/// A full item whose name is already a key stops the fold with the
/// "duplicate field" error for that name; otherwise the item is converted
/// by the value type, an error there stops the fold with that error, and
/// a value is entered into the map under the item's name.
pub open spec fn map_list_rel<V: FromMetaItem>(
    items: Seq<NestedMetaItemV>,
    acc: Map<Seq<char>, V>,
    r: Result<StringHashMap<V>, Error>,
) -> bool
    decreases items.len(),
{
    if items.len() == 0 {
        r matches Ok(m) && m@ == acc
    } else {
        match items[0] {
            NestedMetaItemV::Literal(_) => map_list_rel(items.drop_first(), acc, r),
            NestedMetaItemV::MetaItem(mi) => {
                let name = meta_item_name(mi);
                if acc.contains_key(name) {
                    r matches Err(e) && e@ == ErrorV::DuplicateField(name)
                } else {
                    exists|inner: Result<V, Error>|
                        {
                            &&& #[trigger] V::meta_item_spec(mi, inner)
                            &&& match inner {
                                Ok(v) => map_list_rel(
                                    items.drop_first(),
                                    acc.insert(name, v),
                                    r,
                                ),
                                Err(e) => r == Err::<StringHashMap<V>, Error>(e),
                            }
                        }
                }
            },
        }
    }
}

/// A map keyed by field name is built from a list: every full item in the
/// list becomes an entry under its name, bare literals are passed over,
/// and a name that occurs twice is a duplicate-field error.
impl<V: FromMetaItem> FromMetaItem for StringHashMap<V> {
    open spec fn word_spec(r: Result<StringHashMap<V>, Error>) -> bool {
        is_format_err(r, "word"@)
    }

    open spec fn list_spec(items: Seq<NestedMetaItemV>, r: Result<StringHashMap<V>, Error>) -> bool {
        map_list_rel(items, Map::empty(), r)
    }

    open spec fn char_spec(value: char, r: Result<StringHashMap<V>, Error>) -> bool {
        is_type_err(r, "char"@)
    }

    open spec fn string_spec(value: Seq<char>, r: Result<StringHashMap<V>, Error>) -> bool {
        is_type_err(r, "string"@)
    }

    open spec fn bool_spec(value: bool, r: Result<StringHashMap<V>, Error>) -> bool {
        is_type_err(r, "bool"@)
    }

    open spec fn meta_item_spec(item: MetaItemV, r: Result<StringHashMap<V>, Error>) -> bool {
        match item {
            MetaItemV::Word(_) => Self::word_spec(r),
            MetaItemV::List(_, items) => Self::list_spec(items, r),
            MetaItemV::NameValue(_, value) => match value {
                LitV::Bool(b) => Self::bool_spec(b, r),
                LitV::Str(s, _) => Self::string_spec(s, r),
                _ => is_type_err(r, "other"@),
            },
        }
    }

    fn from_meta_item(item: &MetaItem) -> (r: Result<Self, Error>) {
        match item {
            MetaItem::Word(_) => Self::from_word(),
            MetaItem::List(_, items) => Self::from_list(items.as_slice()),
            MetaItem::NameValue(_, value) => Self::from_value(value),
        }
    }

    fn from_word() -> (r: Result<Self, Error>) {
        from_word_fallback()
    }

    #[verifier::loop_isolation(false)]
    fn from_list(items: &[NestedMetaItem]) -> (r: Result<Self, Error>) {
        let ghost full = nested_seq_view(items@);
        proof {
            lemma_nested_seq_view(items@);
            assert(full.skip(0) =~= full);
        }
        let mut map = StringHashMap::<V>::with_capacity(items.len());
        let mut j: usize = 0;
        while j < items.len()
            invariant
                j <= items.len(),
                forall|r2: Result<StringHashMap<V>, Error>|
                    map_list_rel(#[trigger] full.skip(j as int), map@, r2)
                        ==> map_list_rel(full, Map::empty(), r2),
            decreases items.len() - j,
        {
            proof {
                assert(full.skip(j as int).drop_first() =~= full.skip(j as int + 1));
                assert(full.skip(j as int)[0] == full[j as int]);
            }
            match &items[j] {
                NestedMetaItem::Literal(_) => {},
                NestedMetaItem::MetaItem(inner) => {
                    let name = inner.name().to_owned();
                    if map.contains_key(name.as_str()) {
                        let err = Err(Error::duplicate_field(name.as_str()));
                        proof {
                            assert(map_list_rel(full.skip(j as int), map@, err));
                        }
                        return err;
                    }
                    match V::from_meta_item(inner) {
                        Ok(v) => {
                            map.insert(name, v);
                        },
                        Err(e) => {
                            let err = Err::<StringHashMap<V>, Error>(e);
                            proof {
                                assert(map_list_rel(full.skip(j as int), map@, err));
                            }
                            return err;
                        },
                    }
                },
            }
            j = j + 1;
        }
        proof {
            assert(full.skip(j as int) =~= Seq::<NestedMetaItemV>::empty());
        }
        Ok(map)
    }

    fn from_char(value: char) -> (r: Result<Self, Error>) {
        from_char_fallback()
    }

    fn from_string(value: &str) -> (r: Result<Self, Error>) {
        from_string_fallback()
    }

    fn from_bool(value: bool) -> (r: Result<Self, Error>) {
        from_bool_fallback()
    }
}

} // verus!
