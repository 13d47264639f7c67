use vstd::prelude::*;

verus! {

/// How a string literal was written in the source.
#[derive(Debug, Clone, Copy, PartialEq, Eq, Structural)]
pub enum StrStyle {
    /// A regular string, like `"foo"`.
    Cooked,
    /// A raw string, like `r##"foo"##`; the number counts the `#` marks.
    Raw(usize),
}

/// The suffix on an integer literal, e.g. the `u8` of `1u8`.
#[derive(Debug, Clone, Copy, PartialEq, Eq, Structural)]
pub enum IntSuffix {
    Isize,
    I8,
    I16,
    I32,
    I64,
    Usize,
    U8,
    U16,
    U32,
    U64,
    Unsuffixed,
}

/// The suffix on a float literal, e.g. the `f64` of `1.0f64`.
#[derive(Debug, Clone, Copy, PartialEq, Eq, Structural)]
pub enum FloatSuffix {
    F32,
    F64,
    Unsuffixed,
}

/// A literal value found inside an attribute, e.g. the `"foo"` of
/// `#[name = "foo"]`.
#[derive(Debug, PartialEq, Eq)]
pub enum Lit {
    /// A string literal (`"foo"`).
    Str(String, StrStyle),
    /// A byte string literal (`b"foo"`).
    ByteStr(Vec<u8>, StrStyle),
    /// A byte literal (`b'f'`).
    Byte(u8),
    /// A character literal (`'a'`).
    Char(char),
    /// An integer literal (`1`), with its suffix.
    Int(u64, IntSuffix),
    /// A float literal (`1.0E10`), kept as its written text, with its
    /// suffix.
    Float(String, FloatSuffix),
    /// A boolean literal (`true`).
    Bool(bool),
}

/// A compile-time attribute item, e.g. `#[test]`, `#[derive(..)]` or
/// `#[feature = "foo"]`.
#[derive(Debug, PartialEq, Eq)]
pub enum MetaItem {
    /// A bare word, e.g. `test` in `#[test]`.
    Word(String),
    /// A named list, e.g. `derive(..)` in `#[derive(..)]`.
    List(String, Vec<NestedMetaItem>),
    /// A name-value pair, e.g. `feature = "foo"` in `#[feature = "foo"]`.
    NameValue(String, Lit),
}

/// An element inside a list-form attribute: either a full item or a bare
/// literal, e.g. the `"name"` in `#[rename("name")]`.
#[derive(Debug, PartialEq, Eq)]
pub enum NestedMetaItem {
    /// A full item, e.g. `Copy` in `#[derive(Copy)]`.
    MetaItem(MetaItem),
    /// A bare literal.
    Literal(Lit),
}

/// The mathematical shape of a [`Lit`].
pub enum LitV {
    Str(Seq<char>, StrStyle),
    ByteStr(Seq<u8>, StrStyle),
    Byte(u8),
    Char(char),
    Int(u64, IntSuffix),
    Float(Seq<char>, FloatSuffix),
    Bool(bool),
}

/// The mathematical shape of a [`MetaItem`].
pub enum MetaItemV {
    Word(Seq<char>),
    List(Seq<char>, Seq<NestedMetaItemV>),
    NameValue(Seq<char>, LitV),
}

/// The mathematical shape of a [`NestedMetaItem`].
pub enum NestedMetaItemV {
    MetaItem(MetaItemV),
    Literal(LitV),
}

/// The shape of a literal.
pub open spec fn lit_view(l: Lit) -> LitV {
    match l {
        Lit::Str(s, style) => LitV::Str(s@, style),
        Lit::ByteStr(b, style) => LitV::ByteStr(b@, style),
        Lit::Byte(b) => LitV::Byte(b),
        Lit::Char(c) => LitV::Char(c),
        Lit::Int(i, suffix) => LitV::Int(i, suffix),
        Lit::Float(text, suffix) => LitV::Float(text@, suffix),
        Lit::Bool(b) => LitV::Bool(b),
    }
}

/// The shape of an attribute item.
pub open spec fn meta_item_view(m: MetaItem) -> MetaItemV
    decreases m,
{
    match m {
        MetaItem::Word(name) => MetaItemV::Word(name@),
        MetaItem::List(name, items) => MetaItemV::List(name@, nested_seq_view(items@)),
        MetaItem::NameValue(name, value) => MetaItemV::NameValue(name@, lit_view(value)),
    }
}

/// The shape of a nested item.
pub open spec fn nested_meta_item_view(n: NestedMetaItem) -> NestedMetaItemV
    decreases n,
{
    match n {
        NestedMetaItem::MetaItem(m) => NestedMetaItemV::MetaItem(meta_item_view(m)),
        NestedMetaItem::Literal(l) => NestedMetaItemV::Literal(lit_view(l)),
    }
}

/// The shapes of a sequence of nested items.
pub open spec fn nested_seq_view(items: Seq<NestedMetaItem>) -> Seq<NestedMetaItemV>
    decreases items,
{
    if items.len() == 0 {
        Seq::empty()
    } else {
        nested_seq_view(items.subrange(0, items.len() - 1)).push(
            nested_meta_item_view(items[items.len() - 1]),
        )
    }
}

/// A sequence of nested items and the sequence of their shapes have the
/// same length and correspond index by index.
pub broadcast proof fn lemma_nested_seq_view(items: Seq<NestedMetaItem>)
    ensures
        (#[trigger] nested_seq_view(items)).len() == items.len(),
        forall|i: int|
            0 <= i < items.len() ==> nested_seq_view(items)[i] == nested_meta_item_view(items[i]),
    decreases items.len(),
{
    if items.len() > 0 {
        lemma_nested_seq_view(items.subrange(0, items.len() - 1));
    }
}

impl View for Lit {
    type V = LitV;

    open spec fn view(&self) -> LitV {
        lit_view(*self)
    }
}

impl View for MetaItem {
    type V = MetaItemV;

    open spec fn view(&self) -> MetaItemV {
        meta_item_view(*self)
    }
}

impl View for NestedMetaItem {
    type V = NestedMetaItemV;

    open spec fn view(&self) -> NestedMetaItemV {
        nested_meta_item_view(*self)
    }
}

/// The name of an attribute item: the word itself, the name in front of a
/// list, or the left-hand side of a name-value pair.
pub open spec fn meta_item_name(m: MetaItemV) -> Seq<char> {
    match m {
        MetaItemV::Word(name) => name,
        MetaItemV::List(name, _) => name,
        MetaItemV::NameValue(name, _) => name,
    }
}

impl MetaItem {
    /// Name of the item: `test` in `#[test]`, `derive` in `#[derive(..)]`,
    /// `feature` in `#[feature = "foo"]`.
    pub fn name(&self) -> (r: &str)
        ensures
            r@ == meta_item_name(self@),
    {
        match self {
            MetaItem::Word(name) => name.as_str(),
            MetaItem::List(name, _) => name.as_str(),
            MetaItem::NameValue(name, _) => name.as_str(),
        }
    }
}

impl Clone for Lit {
    /// An exact copy: the copy has the same shape as the original.
    fn clone(&self) -> (r: Self)
        ensures
            r@ == self@,
    {
        match self {
            Lit::Str(s, style) => Lit::Str(s.clone(), *style),
            Lit::ByteStr(b, style) => Lit::ByteStr(clone_bytes(b), *style),
            Lit::Byte(b) => Lit::Byte(*b),
            Lit::Char(c) => Lit::Char(*c),
            Lit::Int(i, suffix) => Lit::Int(*i, *suffix),
            Lit::Float(text, suffix) => Lit::Float(text.clone(), *suffix),
            Lit::Bool(b) => Lit::Bool(*b),
        }
    }
}

/// An exact copy of a byte vector.
fn clone_bytes(b: &Vec<u8>) -> (r: Vec<u8>)
    ensures
        r@ == b@,
{
    let mut out: Vec<u8> = Vec::new();
    let mut i: usize = 0;
    while i < b.len()
        invariant
            i <= b.len(),
            out@ == b@.subrange(0, i as int),
        decreases b.len() - i,
    {
        out.push(b[i]);
        i = i + 1;
        proof {
            assert(out@ =~= b@.subrange(0, i as int));
        }
    }
    proof {
        assert(out@ =~= b@);
    }
    out
}

impl Clone for MetaItem {
    /// An exact copy: the copy has the same shape as the original.
    #[verifier::loop_isolation(false)]
    fn clone(&self) -> (r: Self)
        ensures
            r@ == self@,
        decreases *self,
    {
        match self {
            MetaItem::Word(name) => MetaItem::Word(name.clone()),
            MetaItem::List(name, items) => {
                let mut out: Vec<NestedMetaItem> = Vec::new();
                let mut i: usize = 0;
                while i < items.len()
                    invariant
                        i <= items.len(),
                        out@.len() == i,
                        forall|j: int|
                            0 <= j < i ==> #[trigger] out@[j]@ == items@[j]@,
                    decreases items.len() - i,
                {
                    proof {
                        assert(*items == (*self)->List_1);
                        assert(decreases_to!(*self => (*self)->List_1));
                        assert(decreases_to!((*self)->List_1 => (*self)->List_1@));
                        assert(decreases_to!((*self)->List_1@ => (*self)->List_1@[i as int]));
                        assert(decreases_to!(*self => items@[i as int]));
                    }
                    let c = items[i].clone();
                    out.push(c);
                    i = i + 1;
                }
                proof {
                    lemma_nested_seq_view(out@);
                    lemma_nested_seq_view(items@);
                    assert forall|j: int| 0 <= j < items@.len() implies
                        nested_seq_view(out@)[j] == nested_seq_view(items@)[j] by {
                        assert(out@[j]@ == items@[j]@);
                    }
                    assert(nested_seq_view(out@) =~= nested_seq_view(items@));
                }
                MetaItem::List(name.clone(), out)
            },
            MetaItem::NameValue(name, value) => MetaItem::NameValue(name.clone(), value.clone()),
        }
    }
}

impl Clone for NestedMetaItem {
    /// An exact copy: the copy has the same shape as the original.
    fn clone(&self) -> (r: Self)
        ensures
            r@ == self@,
        decreases *self,
    {
        match self {
            NestedMetaItem::MetaItem(m) => NestedMetaItem::MetaItem(m.clone()),
            NestedMetaItem::Literal(l) => NestedMetaItem::Literal(l.clone()),
        }
    }
}

} // verus!
