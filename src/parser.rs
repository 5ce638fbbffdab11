use vstd::prelude::*;
use crate::ast::{
    view_seq, Command, Enum, EnumField, EnumItem, Function, Object, Scheme, Struct,
    StructBody, StructField, StructItem, Type, TypeView, Union, UnionField, UnionItem, Use,
    UseView, lemma_view_seq_push, lemma_view_tuple_push, view_tuple_items, FieldType, Include, IncludeItem,
    IncludeItemView, ItemView, MajorVersion, MinorVersion, Primitive, Tuple, TupleField,
    TupleFieldView, TupleItem,
};
use crate::grammar::{
    directive_word, err_at, include_body, include_items, is_punct, is_word, is_word_token,
    major_version, minor_version, prefix, word_text, PrefixView, array_tail, field_type,
    named_type, primitive_of, tuple_items, command_decl, declarations, enum_decl, enum_field,
    enum_items, function_decl, object_decl, scheme, struct_body, struct_decl, struct_field,
    struct_items, type_decl, union_decl, union_field, union_items, use_decl, use_tail,
};
use crate::strlit::decode_string_literal;
use crate::literal::{parse_bounded_uint, parse_minor_literal, U16_MAX, U32_MAX};
use crate::token::{
    allowed_directive, container_allows_add, forbidden_directive, Container,
    Directive, Expected, ParseError, Punct, Token, TokenKind,
};

verus! {

broadcast use vstd::std_specs::vec::group_vec_axioms, vstd::seq::group_seq_axioms;

/// A parse outcome with its end position read as an integer.
pub open spec fn at_int<T>(r: Result<(T, usize), ParseError>) -> Result<(T, int), ParseError> {
    match r {
        Ok((v, p)) => Ok((v, p as int)),
        Err(e) => Err(e),
    }
}

/// A parse outcome read through the model of its value.
pub open spec fn lift<T: View>(r: Result<(T, usize), ParseError>) -> Result<(T::V, int), ParseError> {
    match r {
        Ok((v, p)) => Ok((v@, p as int)),
        Err(e) => Err(e),
    }
}

/// On success the parse consumed at least one token and stayed in bounds.
pub open spec fn advanced<T>(r: Result<(T, usize), ParseError>, pos: usize, len: nat) -> bool {
    match r {
        Ok((_, p)) => pos < p <= len,
        Err(_) => true,
    }
}

pub(crate) fn error_at(toks: &Vec<Token>, pos: usize, expected: Expected) -> (e: ParseError)
    ensures
        e == err_at(toks@, pos as int, expected),
        toks@.len() <= usize::MAX,
{
    if pos < toks.len() {
        ParseError::Syntax { span: toks[pos].span, expected }
    } else {
        ParseError::EmptyInput
    }
}

pub(crate) fn punct_at(toks: &Vec<Token>, pos: usize, p: Punct) -> (r: bool)
    ensures
        r == is_punct(toks@, pos as int, p),
        toks@.len() <= usize::MAX,
{
    if pos >= toks.len() {
        return false;
    }
    match &toks[pos].kind {
        TokenKind::Punct(q) => *q == p,
        _ => false,
    }
}

pub(crate) fn word_token_at(toks: &Vec<Token>, pos: usize) -> (r: bool)
    ensures
        r == is_word_token(toks@, pos as int),
        toks@.len() <= usize::MAX,
{
    if pos >= toks.len() {
        return false;
    }
    match &toks[pos].kind {
        TokenKind::Word(_) => true,
        _ => false,
    }
}

pub(crate) fn word_at(toks: &Vec<Token>, pos: usize, w: &str) -> (r: bool)
    ensures
        r == is_word(toks@, pos as int, w@),
        toks@.len() <= usize::MAX,
{
    if pos >= toks.len() {
        return false;
    }
    match &toks[pos].kind {
        TokenKind::Word(s) => {
            let o = w.to_owned();
            s.eq(&o)
        },
        _ => false,
    }
}

pub(crate) fn word_string(toks: &Vec<Token>, pos: usize) -> (s: String)
    requires
        is_word_token(toks@, pos as int),
    ensures
        s@ == word_text(toks@[pos as int]),
        toks@.len() <= usize::MAX,
{
    let _len = toks.len();
    match &toks[pos].kind {
        TokenKind::Word(s) => s.clone(),
        _ => String::new(),
    }
}

/// Parses `'(' Int ')'` as a major version.
pub fn parse_major_version(toks: &Vec<Token>, pos: usize) -> (r: Result<(MajorVersion, usize), ParseError>)
    ensures
        at_int(r) == major_version(toks@, pos as int),
        advanced(r, pos, toks@.len()),
{
    if !punct_at(toks, pos, Punct::LParen) {
        return Err(error_at(toks, pos, Expected::Token(Punct::LParen)));
    }
    if pos + 1 >= toks.len() {
        return Err(ParseError::EmptyInput);
    }
    match &toks[pos + 1].kind {
        TokenKind::Int(s) => match parse_bounded_uint(s.as_str(), U16_MAX) {
            Some(v) => if punct_at(toks, pos + 2, Punct::RParen) {
                Ok((MajorVersion(v as u16), pos + 3))
            } else {
                Err(error_at(toks, pos + 2, Expected::Token(Punct::RParen)))
            },
            None => Err(ParseError::Range { span: toks[pos + 1].span }),
        },
        _ => Err(ParseError::Syntax { span: toks[pos + 1].span, expected: Expected::IntLiteral }),
    }
}

/// Parses `'(' Decimal ')'` as a minor version.
pub fn parse_minor_version(toks: &Vec<Token>, pos: usize) -> (r: Result<(MinorVersion, usize), ParseError>)
    ensures
        at_int(r) == minor_version(toks@, pos as int),
        advanced(r, pos, toks@.len()),
{
    if !punct_at(toks, pos, Punct::LParen) {
        return Err(error_at(toks, pos, Expected::Token(Punct::LParen)));
    }
    if pos + 1 >= toks.len() {
        return Err(ParseError::EmptyInput);
    }
    match &toks[pos + 1].kind {
        TokenKind::Decimal(s) => match parse_minor_literal(s.as_str()) {
            Some((a, b)) => if punct_at(toks, pos + 2, Punct::RParen) {
                Ok((MinorVersion(a, b), pos + 3))
            } else {
                Err(error_at(toks, pos + 2, Expected::Token(Punct::RParen)))
            },
            None => Err(ParseError::Range { span: toks[pos + 1].span }),
        },
        _ => Err(ParseError::Syntax { span: toks[pos + 1].span, expected: Expected::DecimalLiteral }),
    }
}

/// Parses what follows `'@' ver` in an item list: a major version and an
/// optional brace-delimited list of `@add(name)` / `@rem(name)` adjustments.
pub fn parse_include(toks: &Vec<Token>, pos: usize) -> (r: Result<(Include, usize), ParseError>)
    ensures
        lift(r) == include_body(toks@, pos as int),
        advanced(r, pos, toks@.len()),
{
    let (version, p) = match parse_major_version(toks, pos) {
        Ok(x) => x,
        Err(e) => return Err(e),
    };
    let mut items: Vec<IncludeItem> = Vec::new();
    if !punct_at(toks, p, Punct::LBrace) {
        assert(items@.map_values(|x: IncludeItem| x@) =~= Seq::<IncludeItemView>::empty());
        return Ok((Include { version, items }, p));
    }
    let mut i: usize = p + 1;
    assert(items@.map_values(|x: IncludeItem| x@) =~= Seq::<IncludeItemView>::empty());
    loop
        invariant
            p + 1 <= i <= toks@.len(),
            toks@.len() <= usize::MAX,
            pos < p,
            major_version(toks@, pos as int) == Ok::<(MajorVersion, int), ParseError>((version, p as int)),
            is_punct(toks@, p as int, Punct::LBrace),
            include_items(toks@, p + 1, Seq::empty()) == include_items(
                toks@,
                i as int,
                items@.map_values(|x: IncludeItem| x@),
            ),
        decreases toks@.len() - i,
    {
        if punct_at(toks, i, Punct::RBrace) {
            return Ok((Include { version, items }, i + 1));
        }
        if !punct_at(toks, i, Punct::At) {
            return Err(error_at(toks, i, Expected::Token(Punct::At)));
        }
        let add = word_at(toks, i + 1, "add");
        if !(add || word_at(toks, i + 1, "rem")) {
            return Err(error_at(toks, i + 1, Expected::Adjustment));
        }
        if !punct_at(toks, i + 2, Punct::LParen) {
            return Err(error_at(toks, i + 2, Expected::Token(Punct::LParen)));
        }
        if !word_token_at(toks, i + 3) {
            return Err(error_at(toks, i + 3, Expected::Name));
        }
        if !punct_at(toks, i + 4, Punct::RParen) {
            return Err(error_at(toks, i + 4, Expected::Token(Punct::RParen)));
        }
        let close = punct_at(toks, i + 5, Punct::RBrace);
        if !close && !punct_at(toks, i + 5, Punct::Comma) {
            return Err(error_at(toks, i + 5, Expected::Token(Punct::Comma)));
        }
        let name = word_string(toks, i + 3);
        let item = if add {
            IncludeItem::Add(name)
        } else {
            IncludeItem::Rem(name)
        };
        proof {
            lemma_view_seq_push(items@, item);
        }
        items.push(item);
        if close {
            return Ok((Include { version, items }, i + 6));
        }
        i = i + 6;
    }
}

/// What stands before an item.
pub enum Prefix {
    Include(Include),
    Minor(MinorVersion),
    Plain,
}

impl View for Prefix {
    type V = PrefixView;

    open spec fn view(&self) -> PrefixView {
        match self {
            Prefix::Include(i) => PrefixView::Include(i@),
            Prefix::Minor(m) => PrefixView::Minor(*m),
            Prefix::Plain => PrefixView::Plain,
        }
    }
}

/// Parses what stands before an item of a list of kind `c`, applying the
/// list's add/remove policy to minor-version tags.
pub fn parse_prefix(toks: &Vec<Token>, pos: usize, c: Container) -> (r: Result<(Prefix, usize), ParseError>)
    requires
        pos <= toks@.len(),
    ensures
        lift(r) == prefix(toks@, pos as int, c),
        match r {
            Ok((Prefix::Plain, p)) => p == pos,
            Ok((_, p)) => pos < p <= toks@.len(),
            Err(_) => true,
        },
{
    if !punct_at(toks, pos, Punct::At) {
        return Ok((Prefix::Plain, pos));
    }
    if word_at(toks, pos + 1, "ver") {
        return match parse_include(toks, pos + 2) {
            Ok((i, p)) => Ok((Prefix::Include(i), p)),
            Err(e) => Err(e),
        };
    }
    let allows_add = container_allows_add(c);
    let (allowed, forbidden, allowed_directive_, forbidden_directive_) = if allows_add {
        ("add", "rem", Directive::Add, Directive::Rem)
    } else {
        ("rem", "add", Directive::Rem, Directive::Add)
    };
    proof {
        reveal_strlit("add");
        reveal_strlit("rem");
    }
    assert(allowed@ == directive_word(allowed_directive(c)));
    assert(forbidden@ == directive_word(forbidden_directive(c)));
    if word_at(toks, pos + 1, allowed) {
        return match parse_minor_version(toks, pos + 2) {
            Ok((m, p)) => Ok((Prefix::Minor(m), p)),
            Err(e) => Err(e),
        };
    }
    if word_at(toks, pos + 1, forbidden) {
        return Err(
            ParseError::Policy { directive: forbidden_directive_, container: c, span: toks[pos + 1].span },
        );
    }
    Err(error_at(toks, pos + 1, Expected::Tag(allowed_directive_)))
}

fn is_text(s: &String, w: &str) -> (r: bool)
    ensures
        r == (s@ == w@),
{
    let o = w.to_owned();
    s.eq(&o)
}

/// The primitive that a word names, if any.
pub fn primitive_named(w: &String) -> (r: Option<Primitive>)
    ensures
        r == primitive_of(w@),
{
    if is_text(w, "i8") {
        Some(Primitive::Int8)
    } else if is_text(w, "i16") {
        Some(Primitive::Int16)
    } else if is_text(w, "i32") {
        Some(Primitive::Int32)
    } else if is_text(w, "i64") {
        Some(Primitive::Int64)
    } else if is_text(w, "u8") {
        Some(Primitive::UInt8)
    } else if is_text(w, "u16") {
        Some(Primitive::UInt16)
    } else if is_text(w, "u32") {
        Some(Primitive::UInt32)
    } else if is_text(w, "u64") {
        Some(Primitive::UInt64)
    } else if is_text(w, "f32") {
        Some(Primitive::Float32)
    } else if is_text(w, "f64") {
        Some(Primitive::Float64)
    } else if is_text(w, "bool") {
        Some(Primitive::Boolean)
    } else if is_text(w, "str") {
        Some(Primitive::String)
    } else if is_text(w, "bytes") {
        Some(Primitive::Bytes)
    } else if is_text(w, "any") {
        Some(Primitive::Any)
    } else {
        None
    }
}

fn parse_named_type(toks: &Vec<Token>, pos: usize) -> (r: Result<(FieldType, usize), ParseError>)
    requires
        is_word_token(toks@, pos as int),
    ensures
        lift(r) == named_type(toks@, pos as int),
        advanced(r, pos, toks@.len()),
{
    let name = word_string(toks, pos);
    let (second, p) = if punct_at(toks, pos + 1, Punct::PathSep) {
        if !word_token_at(toks, pos + 2) {
            return Err(error_at(toks, pos + 2, Expected::Name));
        }
        (Some(word_string(toks, pos + 2)), pos + 3)
    } else {
        (None, pos + 1)
    };
    if !punct_at(toks, p, Punct::At) {
        return Ok((FieldType::Type(name, second, None), p));
    }
    if !word_at(toks, p + 1, "ver") {
        return Err(error_at(toks, p + 1, Expected::VersionKeyword));
    }
    match parse_major_version(toks, p + 2) {
        Ok((v, q)) => Ok((FieldType::Type(name, second, Some(v)), q)),
        Err(e) => Err(e),
    }
}

fn parse_array_tail(toks: &Vec<Token>, pos: usize, t: FieldType) -> (r: Result<(FieldType, usize), ParseError>)
    ensures
        lift(r) == array_tail(toks@, pos as int, t@),
        advanced(r, pos, toks@.len()),
{
    if pos >= toks.len() {
        return Err(ParseError::EmptyInput);
    }
    match &toks[pos].kind {
        TokenKind::Int(s) => {
            if !punct_at(toks, pos + 1, Punct::RBracket) {
                return Err(error_at(toks, pos + 1, Expected::Token(Punct::RBracket)));
            }
            match parse_bounded_uint(s.as_str(), U32_MAX) {
                Some(n) => Ok((FieldType::Array(Box::new(t), n as u32), pos + 2)),
                None => Err(ParseError::Range { span: toks[pos].span }),
            }
        },
        _ => Err(ParseError::Syntax { span: toks[pos].span, expected: Expected::IntLiteral }),
    }
}

/// Parses a field type: a primitive, a named type, `?T`, `&T`, `[T]`,
/// `[T; N]`, `[K: V]` or a parenthesized tuple.
pub fn parse_field_type(toks: &Vec<Token>, pos: usize) -> (r: Result<(FieldType, usize), ParseError>)
    ensures
        lift(r) == field_type(toks@, pos as int),
        advanced(r, pos, toks@.len()),
    decreases toks@.len() - pos, 0int,
{
    if pos >= toks.len() {
        return Err(ParseError::EmptyInput);
    }
    match &toks[pos].kind {
        TokenKind::Word(w) => match primitive_named(w) {
            Some(p) => Ok((FieldType::Primitive(p), pos + 1)),
            None => parse_named_type(toks, pos),
        },
        TokenKind::Punct(Punct::Question) => match parse_field_type(toks, pos + 1) {
            Ok((t, p)) => Ok((FieldType::Optional(Box::new(t)), p)),
            Err(e) => Err(e),
        },
        TokenKind::Punct(Punct::Amp) => match parse_field_type(toks, pos + 1) {
            Ok((t, p)) => Ok((FieldType::Reference(Box::new(t)), p)),
            Err(e) => Err(e),
        },
        TokenKind::Punct(Punct::LBracket) => {
            let (t, p) = match parse_field_type(toks, pos + 1) {
                Ok(x) => x,
                Err(e) => return Err(e),
            };
            if punct_at(toks, p, Punct::RBracket) {
                Ok((FieldType::List(Box::new(t)), p + 1))
            } else if punct_at(toks, p, Punct::Semi) {
                parse_array_tail(toks, p + 1, t)
            } else if punct_at(toks, p, Punct::Colon) {
                let (v, q) = match parse_field_type(toks, p + 1) {
                    Ok(x) => x,
                    Err(e) => return Err(e),
                };
                if punct_at(toks, q, Punct::RBracket) {
                    Ok((FieldType::Mapping(Box::new(t), Box::new(v)), q + 1))
                } else {
                    Err(error_at(toks, q, Expected::Token(Punct::RBracket)))
                }
            } else {
                Err(error_at(toks, p, Expected::BracketRest))
            }
        },
        TokenKind::Punct(Punct::LParen) => match parse_tuple(toks, pos + 1) {
            Ok((t, p)) => Ok((FieldType::Tuple(t), p)),
            Err(e) => Err(e),
        },
        _ => Err(ParseError::Syntax { span: toks[pos].span, expected: Expected::FieldType }),
    }
}

/// Parses the items of a tuple after its `(`, up to and including `)`.
pub fn parse_tuple(toks: &Vec<Token>, pos: usize) -> (r: Result<(Tuple, usize), ParseError>)
    ensures
        lift(r) == tuple_items(toks@, pos as int, Seq::empty()),
        advanced(r, pos, toks@.len()),
    decreases toks@.len() - pos, 1int,
{
    let mut items: Vec<TupleItem> = Vec::new();
    let mut i: usize = pos;
    assert(view_tuple_items(items@) =~= Seq::<ItemView<TupleFieldView>>::empty());
    loop
        invariant
            pos <= i,
            tuple_items(toks@, pos as int, Seq::empty()) == tuple_items(
                toks@,
                i as int,
                view_tuple_items(items@),
            ),
        decreases toks@.len() - i,
    {
        if i >= toks.len() {
            return Err(ParseError::EmptyInput);
        }
        if punct_at(toks, i, Punct::RParen) {
            return Ok((Tuple(items), i + 1));
        }
        let (pre, p) = match parse_prefix(toks, i, Container::TupleFields) {
            Ok(x) => x,
            Err(e) => return Err(e),
        };
        let ghost pre_view = pre@;
        let (item, q) = match pre {
            Prefix::Include(inc) => (TupleItem::Include(inc), p),
            Prefix::Minor(m) => match parse_field_type(toks, p) {
                Ok((t, q)) => (TupleItem::Field(TupleField { version: Some(m), field_type: t }), q),
                Err(e) => return Err(e),
            },
            Prefix::Plain => match parse_field_type(toks, p) {
                Ok((t, q)) => (TupleItem::Field(TupleField { version: None, field_type: t }), q),
                Err(e) => return Err(e),
            },
        };
        proof {
            lemma_view_tuple_push(items@, item);
        }
        items.push(item);
        if punct_at(toks, q, Punct::RParen) {
            return Ok((Tuple(items), q + 1));
        }
        if !punct_at(toks, q, Punct::Comma) {
            return Err(error_at(toks, q, Expected::Token(Punct::Comma)));
        }
        i = q + 1;
    }
}

/// A list outcome read through the models of its elements.
pub open spec fn lift_seq<T: View>(r: Result<(Vec<T>, usize), ParseError>) -> Result<(Seq<T::V>, int), ParseError> {
    match r {
        Ok((v, p)) => Ok((view_seq(v@), p as int)),
        Err(e) => Err(e),
    }
}

/// A final outcome read through the model of its value.
pub open spec fn lift_done<T: View>(r: Result<T, ParseError>) -> Result<T::V, ParseError> {
    match r {
        Ok(v) => Ok(v@),
        Err(e) => Err(e),
    }
}

fn parse_struct_field(toks: &Vec<Token>, pos: usize, v: Option<MinorVersion>) -> (r: Result<(StructItem, usize), ParseError>)
    ensures
        lift(r) == struct_field(toks@, pos as int, v),
        advanced(r, pos, toks@.len()),
{
    if !word_token_at(toks, pos) {
        return Err(error_at(toks, pos, Expected::Name));
    }
    if !punct_at(toks, pos + 1, Punct::Colon) {
        return Err(error_at(toks, pos + 1, Expected::Token(Punct::Colon)));
    }
    let name = word_string(toks, pos);
    match parse_field_type(toks, pos + 2) {
        Ok((t, q)) => Ok((StructItem::Field(StructField { version: v, name, field_type: t }), q)),
        Err(e) => Err(e),
    }
}

/// Parses comma-terminated named fields or parameters of a list of kind `c`,
/// up to and including the `close` delimiter.
pub fn parse_struct_items(toks: &Vec<Token>, pos: usize, c: Container, close: Punct) -> (r: Result<(Vec<StructItem>, usize), ParseError>)
    ensures
        lift_seq(r) == struct_items(toks@, pos as int, c, close, Seq::empty()),
        advanced(r, pos, toks@.len()),
{
    let mut items: Vec<StructItem> = Vec::new();
    let mut i: usize = pos;
    assert(view_seq(items@) =~= Seq::<ItemView<crate::ast::StructFieldView>>::empty());
    loop
        invariant
            pos <= i,
            struct_items(toks@, pos as int, c, close, Seq::empty()) == struct_items(
                toks@,
                i as int,
                c,
                close,
                view_seq(items@),
            ),
        decreases toks@.len() - i,
    {
        if i >= toks.len() {
            return Err(ParseError::EmptyInput);
        }
        if punct_at(toks, i, close) {
            return Ok((items, i + 1));
        }
        let (pre, p) = match parse_prefix(toks, i, c) {
            Ok(x) => x,
            Err(e) => return Err(e),
        };
        let (item, q) = match pre {
            Prefix::Include(inc) => (StructItem::Include(inc), p),
            Prefix::Minor(m) => match parse_struct_field(toks, p, Some(m)) {
                Ok(x) => x,
                Err(e) => return Err(e),
            },
            Prefix::Plain => match parse_struct_field(toks, p, None) {
                Ok(x) => x,
                Err(e) => return Err(e),
            },
        };
        if !punct_at(toks, q, Punct::Comma) {
            return Err(error_at(toks, q, Expected::Token(Punct::Comma)));
        }
        proof {
            lemma_view_seq_push(items@, item);
        }
        items.push(item);
        i = q + 1;
    }
}

fn parse_enum_field(toks: &Vec<Token>, pos: usize, v: Option<MinorVersion>) -> (r: Result<(EnumItem, usize), ParseError>)
    ensures
        lift(r) == enum_field(toks@, pos as int, v),
        advanced(r, pos, toks@.len()),
{
    if !word_token_at(toks, pos) {
        return Err(error_at(toks, pos, Expected::Name));
    }
    let name = word_string(toks, pos);
    if !punct_at(toks, pos + 1, Punct::Eq) {
        return Ok((EnumItem::Field(EnumField { version: v, name, value: None }), pos + 1));
    }
    if pos + 2 >= toks.len() {
        return Err(ParseError::EmptyInput);
    }
    match &toks[pos + 2].kind {
        TokenKind::Int(s) => match parse_bounded_uint(s.as_str(), U32_MAX) {
            Some(n) => Ok((EnumItem::Field(EnumField { version: v, name, value: Some(n as u32) }), pos + 3)),
            None => Err(ParseError::Range { span: toks[pos + 2].span }),
        },
        _ => Err(ParseError::Syntax { span: toks[pos + 2].span, expected: Expected::IntLiteral }),
    }
}

/// Parses comma-terminated enum members up to and including `}`.
pub fn parse_enum_items(toks: &Vec<Token>, pos: usize) -> (r: Result<(Vec<EnumItem>, usize), ParseError>)
    ensures
        lift_seq(r) == enum_items(toks@, pos as int, Seq::empty()),
        advanced(r, pos, toks@.len()),
{
    let mut items: Vec<EnumItem> = Vec::new();
    let mut i: usize = pos;
    assert(view_seq(items@) =~= Seq::<ItemView<crate::ast::EnumFieldView>>::empty());
    loop
        invariant
            pos <= i,
            enum_items(toks@, pos as int, Seq::empty()) == enum_items(toks@, i as int, view_seq(items@)),
        decreases toks@.len() - i,
    {
        if i >= toks.len() {
            return Err(ParseError::EmptyInput);
        }
        if punct_at(toks, i, Punct::RBrace) {
            return Ok((items, i + 1));
        }
        let (pre, p) = match parse_prefix(toks, i, Container::EnumMembers) {
            Ok(x) => x,
            Err(e) => return Err(e),
        };
        let (item, q) = match pre {
            Prefix::Include(inc) => (EnumItem::Include(inc), p),
            Prefix::Minor(m) => match parse_enum_field(toks, p, Some(m)) {
                Ok(x) => x,
                Err(e) => return Err(e),
            },
            Prefix::Plain => match parse_enum_field(toks, p, None) {
                Ok(x) => x,
                Err(e) => return Err(e),
            },
        };
        if !punct_at(toks, q, Punct::Comma) {
            return Err(error_at(toks, q, Expected::Token(Punct::Comma)));
        }
        proof {
            lemma_view_seq_push(items@, item);
        }
        items.push(item);
        i = q + 1;
    }
}

/// Parses a struct body: named fields in braces, a tuple, or a unit body,
/// which ends at `;` (consumed) for a struct and at `,` (left) for a union
/// variant.
pub fn parse_struct_body(toks: &Vec<Token>, pos: usize, in_union: bool) -> (r: Result<(StructBody, usize), ParseError>)
    ensures
        lift(r) == struct_body(toks@, pos as int, in_union),
        match r {
            Ok((_, p)) => pos <= p <= toks@.len(),
            Err(_) => true,
        },
{
    if punct_at(toks, pos, Punct::LBrace) {
        match parse_struct_items(toks, pos + 1, Container::StructFields, Punct::RBrace) {
            Ok((items, p)) => Ok((StructBody::Items(items), p)),
            Err(e) => Err(e),
        }
    } else if punct_at(toks, pos, Punct::LParen) {
        match parse_tuple(toks, pos + 1) {
            Ok((t, p)) => Ok((StructBody::Tuple(t), p)),
            Err(e) => Err(e),
        }
    } else if in_union && punct_at(toks, pos, Punct::Comma) {
        Ok((StructBody::Unit, pos))
    } else if !in_union && punct_at(toks, pos, Punct::Semi) {
        Ok((StructBody::Unit, pos + 1))
    } else {
        Err(error_at(toks, pos, Expected::StructBody))
    }
}

fn parse_union_field(toks: &Vec<Token>, pos: usize, v: Option<MinorVersion>) -> (r: Result<(UnionItem, usize), ParseError>)
    ensures
        lift(r) == union_field(toks@, pos as int, v),
        advanced(r, pos, toks@.len()),
{
    if !word_token_at(toks, pos) {
        return Err(error_at(toks, pos, Expected::Name));
    }
    let name = word_string(toks, pos);
    match parse_struct_body(toks, pos + 1, true) {
        Ok((body, q)) => Ok((UnionItem::Field(UnionField { version: v, name, body }), q)),
        Err(e) => Err(e),
    }
}

/// Parses comma-terminated union variants up to and including `}`.
pub fn parse_union_items(toks: &Vec<Token>, pos: usize) -> (r: Result<(Vec<UnionItem>, usize), ParseError>)
    ensures
        lift_seq(r) == union_items(toks@, pos as int, Seq::empty()),
        advanced(r, pos, toks@.len()),
{
    let mut items: Vec<UnionItem> = Vec::new();
    let mut i: usize = pos;
    assert(view_seq(items@) =~= Seq::<ItemView<crate::ast::UnionFieldView>>::empty());
    loop
        invariant
            pos <= i,
            union_items(toks@, pos as int, Seq::empty()) == union_items(toks@, i as int, view_seq(items@)),
        decreases toks@.len() - i,
    {
        if i >= toks.len() {
            return Err(ParseError::EmptyInput);
        }
        if punct_at(toks, i, Punct::RBrace) {
            return Ok((items, i + 1));
        }
        let (pre, p) = match parse_prefix(toks, i, Container::UnionVariants) {
            Ok(x) => x,
            Err(e) => return Err(e),
        };
        let (item, q) = match pre {
            Prefix::Include(inc) => (UnionItem::Include(inc), p),
            Prefix::Minor(m) => match parse_union_field(toks, p, Some(m)) {
                Ok(x) => x,
                Err(e) => return Err(e),
            },
            Prefix::Plain => match parse_union_field(toks, p, None) {
                Ok(x) => x,
                Err(e) => return Err(e),
            },
        };
        if !punct_at(toks, q, Punct::Comma) {
            return Err(error_at(toks, q, Expected::Token(Punct::Comma)));
        }
        proof {
            lemma_view_seq_push(items@, item);
        }
        items.push(item);
        i = q + 1;
    }
}

/// Parses `Name StructBody` after `struct`.
pub fn parse_struct_decl(toks: &Vec<Token>, pos: usize, version: MajorVersion) -> (r: Result<(Struct, usize), ParseError>)
    ensures
        lift(r) == struct_decl(toks@, pos as int, version),
        advanced(r, pos, toks@.len()),
{
    if !word_token_at(toks, pos) {
        return Err(error_at(toks, pos, Expected::Name));
    }
    let name = word_string(toks, pos);
    match parse_struct_body(toks, pos + 1, false) {
        Ok((body, p)) => Ok((Struct { version, name, body }, p)),
        Err(e) => Err(e),
    }
}

/// Parses `Name '{' Variants '}'` after `union`.
pub fn parse_union_decl(toks: &Vec<Token>, pos: usize, version: MajorVersion) -> (r: Result<(Union, usize), ParseError>)
    ensures
        lift(r) == union_decl(toks@, pos as int, version),
        advanced(r, pos, toks@.len()),
{
    if !word_token_at(toks, pos) {
        return Err(error_at(toks, pos, Expected::Name));
    }
    if !punct_at(toks, pos + 1, Punct::LBrace) {
        return Err(error_at(toks, pos + 1, Expected::Token(Punct::LBrace)));
    }
    let name = word_string(toks, pos);
    match parse_union_items(toks, pos + 2) {
        Ok((items, p)) => Ok((Union { version, name, items }, p)),
        Err(e) => Err(e),
    }
}

/// Parses `Name '{' Members '}'` after `enum`.
pub fn parse_enum_decl(toks: &Vec<Token>, pos: usize, version: MajorVersion) -> (r: Result<(Enum, usize), ParseError>)
    ensures
        lift(r) == enum_decl(toks@, pos as int, version),
        advanced(r, pos, toks@.len()),
{
    if !word_token_at(toks, pos) {
        return Err(error_at(toks, pos, Expected::Name));
    }
    if !punct_at(toks, pos + 1, Punct::LBrace) {
        return Err(error_at(toks, pos + 1, Expected::Token(Punct::LBrace)));
    }
    let name = word_string(toks, pos);
    match parse_enum_items(toks, pos + 2) {
        Ok((items, p)) => Ok((Enum { version, name, items }, p)),
        Err(e) => Err(e),
    }
}

/// Parses `Name '(' Params ')' ('->' FieldType)?` after `fn`.
pub fn parse_function_decl(toks: &Vec<Token>, pos: usize, version: MajorVersion) -> (r: Result<(Function, usize), ParseError>)
    ensures
        lift(r) == function_decl(toks@, pos as int, version),
        advanced(r, pos, toks@.len()),
{
    if !word_token_at(toks, pos) {
        return Err(error_at(toks, pos, Expected::Name));
    }
    if !punct_at(toks, pos + 1, Punct::LParen) {
        return Err(error_at(toks, pos + 1, Expected::Token(Punct::LParen)));
    }
    let name = word_string(toks, pos);
    let (items, p) = match parse_struct_items(toks, pos + 2, Container::FunctionParams, Punct::RParen) {
        Ok(x) => x,
        Err(e) => return Err(e),
    };
    if punct_at(toks, p, Punct::Arrow) {
        match parse_field_type(toks, p + 1) {
            Ok((t, q)) => Ok((Function { version, name, items, return_type: Some(t) }, q)),
            Err(e) => Err(e),
        }
    } else {
        Ok((Function { version, name, items, return_type: None }, p))
    }
}

/// Parses `Name '(' Params ')'` after `cmd`.
pub fn parse_command_decl(toks: &Vec<Token>, pos: usize, version: MajorVersion) -> (r: Result<(Command, usize), ParseError>)
    ensures
        lift(r) == command_decl(toks@, pos as int, version),
        advanced(r, pos, toks@.len()),
{
    if !word_token_at(toks, pos) {
        return Err(error_at(toks, pos, Expected::Name));
    }
    if !punct_at(toks, pos + 1, Punct::LParen) {
        return Err(error_at(toks, pos + 1, Expected::Token(Punct::LParen)));
    }
    let name = word_string(toks, pos);
    match parse_struct_items(toks, pos + 2, Container::CommandParams, Punct::RParen) {
        Ok((items, p)) => Ok((Command { version, name, items }, p)),
        Err(e) => Err(e),
    }
}

/// Parses `'(' (struct|union|enum) ')'` after `obj` and the declaration of
/// the kind it names.
pub fn parse_object_decl(toks: &Vec<Token>, pos: usize, version: MajorVersion) -> (r: Result<(Object, usize), ParseError>)
    ensures
        lift(r) == object_decl(toks@, pos as int, version),
        advanced(r, pos, toks@.len()),
{
    if !punct_at(toks, pos, Punct::LParen) {
        return Err(error_at(toks, pos, Expected::Token(Punct::LParen)));
    }
    let is_struct = word_at(toks, pos + 1, "struct");
    let is_union = word_at(toks, pos + 1, "union");
    let is_enum = word_at(toks, pos + 1, "enum");
    if !(is_struct || is_union || is_enum) {
        return Err(error_at(toks, pos + 1, Expected::ObjectKind));
    }
    if !punct_at(toks, pos + 2, Punct::RParen) {
        return Err(error_at(toks, pos + 2, Expected::Token(Punct::RParen)));
    }
    if is_struct {
        match parse_struct_decl(toks, pos + 3, version) {
            Ok((s, p)) => Ok((Object::Struct(s), p)),
            Err(e) => Err(e),
        }
    } else if is_union {
        match parse_union_decl(toks, pos + 3, version) {
            Ok((u, p)) => Ok((Object::Union(u), p)),
            Err(e) => Err(e),
        }
    } else {
        match parse_enum_decl(toks, pos + 3, version) {
            Ok((e, p)) => Ok((Object::Enum(e), p)),
            Err(e) => Err(e),
        }
    }
}

/// Parses `'@' ver MajorVersion` and one declaration of any kind.
pub fn parse_type_decl(toks: &Vec<Token>, pos: usize) -> (r: Result<(Type, usize), ParseError>)
    ensures
        lift(r) == type_decl(toks@, pos as int),
        advanced(r, pos, toks@.len()),
{
    if !punct_at(toks, pos, Punct::At) {
        return Err(error_at(toks, pos, Expected::Token(Punct::At)));
    }
    if !word_at(toks, pos + 1, "ver") {
        return Err(error_at(toks, pos + 1, Expected::VersionKeyword));
    }
    let (v, p) = match parse_major_version(toks, pos + 2) {
        Ok(x) => x,
        Err(e) => return Err(e),
    };
    if word_at(toks, p, "obj") {
        match parse_object_decl(toks, p + 1, v) {
            Ok((o, q)) => Ok((Type::Object(o), q)),
            Err(e) => Err(e),
        }
    } else if word_at(toks, p, "struct") {
        match parse_struct_decl(toks, p + 1, v) {
            Ok((s, q)) => Ok((Type::Struct(s), q)),
            Err(e) => Err(e),
        }
    } else if word_at(toks, p, "union") {
        match parse_union_decl(toks, p + 1, v) {
            Ok((u, q)) => Ok((Type::Union(u), q)),
            Err(e) => Err(e),
        }
    } else if word_at(toks, p, "enum") {
        match parse_enum_decl(toks, p + 1, v) {
            Ok((e, q)) => Ok((Type::Enum(e), q)),
            Err(e) => Err(e),
        }
    } else if word_at(toks, p, "fn") {
        match parse_function_decl(toks, p + 1, v) {
            Ok((f, q)) => Ok((Type::Function(f), q)),
            Err(e) => Err(e),
        }
    } else if word_at(toks, p, "cmd") {
        match parse_command_decl(toks, p + 1, v) {
            Ok((c, q)) => Ok((Type::Command(c), q)),
            Err(e) => Err(e),
        }
    } else {
        Err(error_at(toks, p, Expected::Declaration))
    }
}

/// Parses an import after `use`: `Word ('::' Word)* ('as' Word)? ';'`.
pub fn parse_use(toks: &Vec<Token>, pos: usize) -> (r: Result<(Use, usize), ParseError>)
    ensures
        lift(r) == use_decl(toks@, pos as int),
        advanced(r, pos, toks@.len()),
{
    if !word_token_at(toks, pos) {
        return Err(error_at(toks, pos, Expected::Name));
    }
    let mut segments: Vec<String> = Vec::new();
    let first = word_string(toks, pos);
    proof {
        lemma_view_seq_push(segments@, first);
    }
    segments.push(first);
    assert(view_seq(segments@) =~= seq![word_text(toks@[pos as int])]);
    let mut i: usize = pos + 1;
    loop
        invariant
            pos < i,
            use_decl(toks@, pos as int) == use_tail(toks@, i as int, view_seq(segments@)),
        decreases toks@.len() - i,
    {
        if i >= toks.len() {
            return Err(ParseError::EmptyInput);
        }
        if punct_at(toks, i, Punct::Semi) {
            return Ok((Use { segments, alias: None }, i + 1));
        }
        if word_at(toks, i, "as") {
            if !word_token_at(toks, i + 1) {
                return Err(error_at(toks, i + 1, Expected::Name));
            }
            if !punct_at(toks, i + 2, Punct::Semi) {
                return Err(error_at(toks, i + 2, Expected::Token(Punct::Semi)));
            }
            let alias = word_string(toks, i + 1);
            return Ok((Use { segments, alias: Some(alias) }, i + 3));
        }
        if !punct_at(toks, i, Punct::PathSep) {
            return Err(error_at(toks, i, Expected::UseRest));
        }
        if !word_token_at(toks, i + 1) {
            return Err(error_at(toks, i + 1, Expected::Name));
        }
        let seg = word_string(toks, i + 1);
        proof {
            lemma_view_seq_push(segments@, seg);
        }
        segments.push(seg);
        i = i + 2;
    }
}

/// Parses imports and declarations from `pos` to the end of the tokens, for
/// a scheme of the given name.
pub fn parse_declarations(toks: &Vec<Token>, pos: usize, name: String) -> (r: Result<Scheme, ParseError>)
    ensures
        lift_done(r) == declarations(toks@, pos as int, name@, Seq::empty(), Seq::empty()),
{
    let mut uses: Vec<Use> = Vec::new();
    let mut types: Vec<Type> = Vec::new();
    let mut i: usize = pos;
    assert(view_seq(uses@) =~= Seq::<UseView>::empty());
    assert(view_seq(types@) =~= Seq::<TypeView>::empty());
    loop
        invariant
            declarations(toks@, pos as int, name@, Seq::empty(), Seq::empty()) == declarations(
                toks@,
                i as int,
                name@,
                view_seq(uses@),
                view_seq(types@),
            ),
        decreases toks@.len() - i,
    {
        proof {
            reveal(declarations);
        }
        if i >= toks.len() {
            return Ok(Scheme { name, uses, types });
        }
        if types.len() == 0 && word_at(toks, i, "use") {
            let (u, p) = match parse_use(toks, i + 1) {
                Ok(x) => x,
                Err(e) => return Err(e),
            };
            proof {
                lemma_view_seq_push(uses@, u);
            }
            uses.push(u);
            i = p;
        } else if punct_at(toks, i, Punct::At) {
            let (t, p) = match parse_type_decl(toks, i) {
                Ok(x) => x,
                Err(e) => return Err(e),
            };
            proof {
                lemma_view_seq_push(types@, t);
            }
            types.push(t);
            i = p;
        } else if types.len() == 0 {
            return Err(error_at(toks, i, Expected::Item));
        } else {
            return Err(error_at(toks, i, Expected::Token(Punct::At)));
        }
    }
}

impl Scheme {
    /// Parses one scheme unit: `sch "name";` followed by imports and
    /// versioned declarations until the tokens end.
    pub fn parse(toks: &Vec<Token>) -> (r: Result<Scheme, ParseError>)
        ensures
            lift_done(r) == scheme(toks@),
    {
        if !word_at(toks, 0, "sch") {
            return Err(error_at(toks, 0, Expected::SchemeKeyword));
        }
        if 1 >= toks.len() {
            return Err(ParseError::EmptyInput);
        }
        match &toks[1].kind {
            TokenKind::Str(s) => match decode_string_literal(s) {
                Some(name) => if !punct_at(toks, 2, Punct::Semi) {
                    Err(error_at(toks, 2, Expected::Token(Punct::Semi)))
                } else {
                    parse_declarations(toks, 3, name)
                },
                None => Err(ParseError::Syntax { span: toks[1].span, expected: Expected::StringLiteral }),
            },
            _ => Err(ParseError::Syntax { span: toks[1].span, expected: Expected::StringLiteral }),
        }
    }
}

} // verus!
