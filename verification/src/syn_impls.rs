use vstd::prelude::*;

use crate::error::Error;
use crate::from_meta_item::{
    from_bool_fallback, from_char_fallback, from_list_fallback, from_word_fallback,
    is_format_err, is_type_err, is_unknown_value_err, FromMetaItem,
};
use crate::meta::{LitV, MetaItem, MetaItemV, NestedMetaItem, NestedMetaItemV};
use vstd::utf8::is_ascii_chars;

verus! {

#[verifier::external_type_specification]
#[verifier::external_body]
pub struct ExPath(syn::Path);

#[verifier::external_type_specification]
#[verifier::external_body]
pub struct ExTyParamBound(syn::TyParamBound);

#[verifier::external_type_specification]
#[verifier::external_body]
pub struct ExWhereClause(syn::WhereClause);

#[verifier::external_type_specification]
#[verifier::external_body]
pub struct ExWherePredicate(syn::WherePredicate);

#[verifier::external_type_specification]
#[verifier::external_body]
pub struct ExRenameRule(ident_case::RenameRule);

/// Whether the characters parse as a path.
pub uninterp spec fn path_parses(s: Seq<char>) -> bool;

/// Whether the characters parse as a type parameter bound.
pub uninterp spec fn ty_param_bound_parses(s: Seq<char>) -> bool;

/// Whether the characters parse as a `where` clause.
pub uninterp spec fn where_clause_parses(s: Seq<char>) -> bool;

/// The texts that name a case-renaming rule.
pub open spec fn names_rename_rule(s: Seq<char>) -> bool {
    ||| s == "lowercase"@
    ||| s == "PascalCase"@
    ||| s == "camelCase"@
    ||| s == "snake_case"@
    ||| s == "SCREAMING_SNAKE_CASE"@
    ||| s == "kebab-case"@
}

/// Relies on syn's `parse_path`: parses the string as a path, and whether
/// it parses depends on the characters alone. Only ASCII text may be
/// handed in: syn 0.11's lexer slices the input at byte offsets inside
/// byte literals and panics when that splits a multi-byte character.
#[verifier::external_body]
fn parse_path_opt(value: &str) -> (r: Option<syn::Path>)
    requires
        is_ascii_chars(value@),
    ensures
        r is Some <==> path_parses(value@),
{
    match syn::parse_path(value) {
        Ok(p) => Some(p),
        Err(_) => None,
    }
}

/// Relies on syn's `parse_ty_param_bound`: parses the string as a type
/// parameter bound, and whether it parses depends on the characters
/// alone. Only ASCII text may be handed in, for the same reason as
/// [`parse_path_opt`].
#[verifier::external_body]
fn parse_ty_param_bound_opt(value: &str) -> (r: Option<syn::TyParamBound>)
    requires
        is_ascii_chars(value@),
    ensures
        r is Some <==> ty_param_bound_parses(value@),
{
    match syn::parse_ty_param_bound(value) {
        Ok(b) => Some(b),
        Err(_) => None,
    }
}

/// Relies on syn's `parse_where_clause`: parses the string as a `where`
/// clause, and whether it parses depends on the characters alone. Only
/// ASCII text may be handed in, for the same reason as
/// [`parse_path_opt`].
#[verifier::external_body]
fn parse_where_clause_opt(value: &str) -> (r: Option<syn::WhereClause>)
    requires
        is_ascii_chars(value@),
    ensures
        r is Some <==> where_clause_parses(value@),
{
    match syn::parse_where_clause(value) {
        Ok(c) => Some(c),
        Err(_) => None,
    }
}

/// Relies on the layout of syn's `WhereClause`: hands out its list of
/// predicates.
#[verifier::external_body]
fn where_clause_predicates(clause: syn::WhereClause) -> (r: Vec<syn::WherePredicate>) {
    clause.predicates
}

/// Relies on ident_case's `RenameRule::from_str`: exactly the texts of
/// [`names_rename_rule`] name a rule; anything else is refused.
#[verifier::external_body]
fn parse_rename_rule_opt(value: &str) -> (r: Option<ident_case::RenameRule>)
    ensures
        r is Some <==> names_rename_rule(value@),
{
    match value.parse::<ident_case::RenameRule>() {
        Ok(rule) => Some(rule),
        Err(_) => None,
    }
}

/// A path is built from an ASCII string literal that parses as a path;
/// any other string is an unknown value. Non-ASCII text is refused
/// before syn sees it (its lexer can panic on it), though syn itself
/// accepts some non-ASCII identifiers.
impl FromMetaItem for syn::Path {
    open spec fn word_spec(r: Result<syn::Path, Error>) -> bool {
        is_format_err(r, "word"@)
    }

    open spec fn list_spec(items: Seq<NestedMetaItemV>, r: Result<syn::Path, Error>) -> bool {
        is_format_err(r, "list"@)
    }

    open spec fn char_spec(value: char, r: Result<syn::Path, Error>) -> bool {
        is_type_err(r, "char"@)
    }

    open spec fn string_spec(value: Seq<char>, r: Result<syn::Path, Error>) -> bool {
        if is_ascii_chars(value) && path_parses(value) {
            r is Ok
        } else {
            is_unknown_value_err(r, value)
        }
    }

    open spec fn bool_spec(value: bool, r: Result<syn::Path, Error>) -> bool {
        is_type_err(r, "bool"@)
    }

    open spec fn meta_item_spec(item: MetaItemV, r: Result<syn::Path, Error>) -> bool {
        match item {
            MetaItemV::Word(_) => Self::word_spec(r),
            MetaItemV::List(_, items) => Self::list_spec(items, r),
            MetaItemV::NameValue(_, value) => match value {
                LitV::Bool(b) => Self::bool_spec(b, r),
                LitV::Str(s, _) => Self::string_spec(s, r),
                _ => is_type_err(r, "other"@),
            },
        }
    }

    fn from_meta_item(item: &MetaItem) -> (r: Result<Self, Error>) {
        match item {
            MetaItem::Word(_) => Self::from_word(),
            MetaItem::List(_, items) => Self::from_list(items.as_slice()),
            MetaItem::NameValue(_, value) => Self::from_value(value),
        }
    }

    fn from_word() -> (r: Result<Self, Error>) {
        from_word_fallback()
    }

    fn from_list(items: &[NestedMetaItem]) -> (r: Result<Self, Error>) {
        from_list_fallback()
    }

    fn from_char(value: char) -> (r: Result<Self, Error>) {
        from_char_fallback()
    }

    fn from_string(value: &str) -> (r: Result<Self, Error>) {
        if !value.is_ascii() {
            return Err(Error::unknown_value(value));
        }
        match parse_path_opt(value) {
            Some(p) => Ok(p),
            None => Err(Error::unknown_value(value)),
        }
    }

    fn from_bool(value: bool) -> (r: Result<Self, Error>) {
        from_bool_fallback()
    }
}

/// A type parameter bound is built from an ASCII string literal that
/// parses as one; any other string is an unknown value. Non-ASCII text
/// is refused before syn sees it, as for paths.
impl FromMetaItem for syn::TyParamBound {
    open spec fn word_spec(r: Result<syn::TyParamBound, Error>) -> bool {
        is_format_err(r, "word"@)
    }

    open spec fn list_spec(
        items: Seq<NestedMetaItemV>,
        r: Result<syn::TyParamBound, Error>,
    ) -> bool {
        is_format_err(r, "list"@)
    }

    open spec fn char_spec(value: char, r: Result<syn::TyParamBound, Error>) -> bool {
        is_type_err(r, "char"@)
    }

    open spec fn string_spec(value: Seq<char>, r: Result<syn::TyParamBound, Error>) -> bool {
        if is_ascii_chars(value) && ty_param_bound_parses(value) {
            r is Ok
        } else {
            is_unknown_value_err(r, value)
        }
    }

    open spec fn bool_spec(value: bool, r: Result<syn::TyParamBound, Error>) -> bool {
        is_type_err(r, "bool"@)
    }

    open spec fn meta_item_spec(item: MetaItemV, r: Result<syn::TyParamBound, Error>) -> bool {
        match item {
            MetaItemV::Word(_) => Self::word_spec(r),
            MetaItemV::List(_, items) => Self::list_spec(items, r),
            MetaItemV::NameValue(_, value) => match value {
                LitV::Bool(b) => Self::bool_spec(b, r),
                LitV::Str(s, _) => Self::string_spec(s, r),
                _ => is_type_err(r, "other"@),
            },
        }
    }

    fn from_meta_item(item: &MetaItem) -> (r: Result<Self, Error>) {
        match item {
            MetaItem::Word(_) => Self::from_word(),
            MetaItem::List(_, items) => Self::from_list(items.as_slice()),
            MetaItem::NameValue(_, value) => Self::from_value(value),
        }
    }

    fn from_word() -> (r: Result<Self, Error>) {
        from_word_fallback()
    }

    fn from_list(items: &[NestedMetaItem]) -> (r: Result<Self, Error>) {
        from_list_fallback()
    }

    fn from_char(value: char) -> (r: Result<Self, Error>) {
        from_char_fallback()
    }

    fn from_string(value: &str) -> (r: Result<Self, Error>) {
        if !value.is_ascii() {
            return Err(Error::unknown_value(value));
        }
        match parse_ty_param_bound_opt(value) {
            Some(b) => Ok(b),
            None => Err(Error::unknown_value(value)),
        }
    }

    fn from_bool(value: bool) -> (r: Result<Self, Error>) {
        from_bool_fallback()
    }
}

/// A `where` clause is built from an ASCII string literal that parses
/// as one; any other string is an unknown value. Non-ASCII text is
/// refused before syn sees it, as for paths.
impl FromMetaItem for syn::WhereClause {
    open spec fn word_spec(r: Result<syn::WhereClause, Error>) -> bool {
        is_format_err(r, "word"@)
    }

    open spec fn list_spec(
        items: Seq<NestedMetaItemV>,
        r: Result<syn::WhereClause, Error>,
    ) -> bool {
        is_format_err(r, "list"@)
    }

    open spec fn char_spec(value: char, r: Result<syn::WhereClause, Error>) -> bool {
        is_type_err(r, "char"@)
    }

    open spec fn string_spec(value: Seq<char>, r: Result<syn::WhereClause, Error>) -> bool {
        if is_ascii_chars(value) && where_clause_parses(value) {
            r is Ok
        } else {
            is_unknown_value_err(r, value)
        }
    }

    open spec fn bool_spec(value: bool, r: Result<syn::WhereClause, Error>) -> bool {
        is_type_err(r, "bool"@)
    }

    open spec fn meta_item_spec(item: MetaItemV, r: Result<syn::WhereClause, Error>) -> bool {
        match item {
            MetaItemV::Word(_) => Self::word_spec(r),
            MetaItemV::List(_, items) => Self::list_spec(items, r),
            MetaItemV::NameValue(_, value) => match value {
                LitV::Bool(b) => Self::bool_spec(b, r),
                LitV::Str(s, _) => Self::string_spec(s, r),
                _ => is_type_err(r, "other"@),
            },
        }
    }

    fn from_meta_item(item: &MetaItem) -> (r: Result<Self, Error>) {
        match item {
            MetaItem::Word(_) => Self::from_word(),
            MetaItem::List(_, items) => Self::from_list(items.as_slice()),
            MetaItem::NameValue(_, value) => Self::from_value(value),
        }
    }

    fn from_word() -> (r: Result<Self, Error>) {
        from_word_fallback()
    }

    fn from_list(items: &[NestedMetaItem]) -> (r: Result<Self, Error>) {
        from_list_fallback()
    }

    fn from_char(value: char) -> (r: Result<Self, Error>) {
        from_char_fallback()
    }

    fn from_string(value: &str) -> (r: Result<Self, Error>) {
        if !value.is_ascii() {
            return Err(Error::unknown_value(value));
        }
        match parse_where_clause_opt(value) {
            Some(c) => Ok(c),
            None => Err(Error::unknown_value(value)),
        }
    }

    fn from_bool(value: bool) -> (r: Result<Self, Error>) {
        from_bool_fallback()
    }
}

/// A list of `where` predicates is built from a string literal by
/// parsing it with `where ` put in front; the unknown-value error, when
/// it comes, carries that whole prefixed text.
impl FromMetaItem for Vec<syn::WherePredicate> {
    open spec fn word_spec(r: Result<Vec<syn::WherePredicate>, Error>) -> bool {
        is_format_err(r, "word"@)
    }

    open spec fn list_spec(
        items: Seq<NestedMetaItemV>,
        r: Result<Vec<syn::WherePredicate>, Error>,
    ) -> bool {
        is_format_err(r, "list"@)
    }

    open spec fn char_spec(value: char, r: Result<Vec<syn::WherePredicate>, Error>) -> bool {
        is_type_err(r, "char"@)
    }

    open spec fn string_spec(value: Seq<char>, r: Result<Vec<syn::WherePredicate>, Error>) -> bool {
        if is_ascii_chars("where "@ + value) && where_clause_parses("where "@ + value) {
            r is Ok
        } else {
            is_unknown_value_err(r, "where "@ + value)
        }
    }

    open spec fn bool_spec(value: bool, r: Result<Vec<syn::WherePredicate>, Error>) -> bool {
        is_type_err(r, "bool"@)
    }

    open spec fn meta_item_spec(item: MetaItemV, r: Result<Vec<syn::WherePredicate>, Error>) -> bool {
        match item {
            MetaItemV::Word(_) => Self::word_spec(r),
            MetaItemV::List(_, items) => Self::list_spec(items, r),
            MetaItemV::NameValue(_, value) => match value {
                LitV::Bool(b) => Self::bool_spec(b, r),
                LitV::Str(s, _) => Self::string_spec(s, r),
                _ => is_type_err(r, "other"@),
            },
        }
    }

    fn from_meta_item(item: &MetaItem) -> (r: Result<Self, Error>) {
        match item {
            MetaItem::Word(_) => Self::from_word(),
            MetaItem::List(_, items) => Self::from_list(items.as_slice()),
            MetaItem::NameValue(_, value) => Self::from_value(value),
        }
    }

    fn from_word() -> (r: Result<Self, Error>) {
        from_word_fallback()
    }

    fn from_list(items: &[NestedMetaItem]) -> (r: Result<Self, Error>) {
        from_list_fallback()
    }

    fn from_char(value: char) -> (r: Result<Self, Error>) {
        from_char_fallback()
    }

    fn from_string(value: &str) -> (r: Result<Self, Error>) {
        let mut full = "where ".to_owned();
        full.append(value);
        match <syn::WhereClause as FromMetaItem>::from_string(full.as_str()) {
            Ok(c) => Ok(where_clause_predicates(c)),
            Err(e) => Err(e),
        }
    }

    fn from_bool(value: bool) -> (r: Result<Self, Error>) {
        from_bool_fallback()
    }
}

/// A case-renaming rule is built from a string literal naming one of the
/// fixed set of rules; any other string is an unknown value.
impl FromMetaItem for ident_case::RenameRule {
    open spec fn word_spec(r: Result<ident_case::RenameRule, Error>) -> bool {
        is_format_err(r, "word"@)
    }

    open spec fn list_spec(
        items: Seq<NestedMetaItemV>,
        r: Result<ident_case::RenameRule, Error>,
    ) -> bool {
        is_format_err(r, "list"@)
    }

    open spec fn char_spec(value: char, r: Result<ident_case::RenameRule, Error>) -> bool {
        is_type_err(r, "char"@)
    }

    open spec fn string_spec(value: Seq<char>, r: Result<ident_case::RenameRule, Error>) -> bool {
        if names_rename_rule(value) {
            r is Ok
        } else {
            is_unknown_value_err(r, value)
        }
    }

    open spec fn bool_spec(value: bool, r: Result<ident_case::RenameRule, Error>) -> bool {
        is_type_err(r, "bool"@)
    }

    open spec fn meta_item_spec(item: MetaItemV, r: Result<ident_case::RenameRule, Error>) -> bool {
        match item {
            MetaItemV::Word(_) => Self::word_spec(r),
            MetaItemV::List(_, items) => Self::list_spec(items, r),
            MetaItemV::NameValue(_, value) => match value {
                LitV::Bool(b) => Self::bool_spec(b, r),
                LitV::Str(s, _) => Self::string_spec(s, r),
                _ => is_type_err(r, "other"@),
            },
        }
    }

    fn from_meta_item(item: &MetaItem) -> (r: Result<Self, Error>) {
        match item {
            MetaItem::Word(_) => Self::from_word(),
            MetaItem::List(_, items) => Self::from_list(items.as_slice()),
            MetaItem::NameValue(_, value) => Self::from_value(value),
        }
    }

    fn from_word() -> (r: Result<Self, Error>) {
        from_word_fallback()
    }

    fn from_list(items: &[NestedMetaItem]) -> (r: Result<Self, Error>) {
        from_list_fallback()
    }

    fn from_char(value: char) -> (r: Result<Self, Error>) {
        from_char_fallback()
    }

    fn from_string(value: &str) -> (r: Result<Self, Error>) {
        match parse_rename_rule_opt(value) {
            Some(rule) => Ok(rule),
            None => Err(Error::unknown_value(value)),
        }
    }

    fn from_bool(value: bool) -> (r: Result<Self, Error>) {
        from_bool_fallback()
    }
}

} // verus!
