use vstd::prelude::*;
use crate::ast::{
    CommandView, EnumFieldView, EnumView, FieldTypeView, FunctionView, IncludeItemView, IncludeView,
    ItemView, MajorVersion, MinorVersion, ObjectView, Primitive, SchemeView, StructBodyView,
    StructFieldView, StructView, TupleFieldView, TypeView, UnionFieldView, UnionView, UseView,
};
use crate::literal::{bounded_uint, minor_of, U16_MAX, U32_MAX};
use crate::strlit::string_literal_value;
use crate::token::{
    allowed_directive, forbidden_directive, Container, Directive, Expected, ParseError, Punct, Token, TokenKind,
};

verus! {

// The grammar as spec functions over the token sequence. Each function reads
// from position `pos` and gives the parsed model and the position after it,
// or the first error.

pub open spec fn err_at(toks: Seq<Token>, pos: int, expected: Expected) -> ParseError {
    if 0 <= pos < toks.len() {
        ParseError::Syntax { span: toks[pos].span, expected }
    } else {
        ParseError::EmptyInput
    }
}

pub open spec fn is_punct(toks: Seq<Token>, pos: int, p: Punct) -> bool {
    0 <= pos < toks.len() && toks[pos].kind == TokenKind::Punct(p)
}

pub open spec fn is_word_token(toks: Seq<Token>, pos: int) -> bool {
    0 <= pos < toks.len() && toks[pos].kind is Word
}

pub open spec fn word_text(t: Token) -> Seq<char> {
    match t.kind {
        TokenKind::Word(s) => s@,
        _ => Seq::empty(),
    }
}

pub open spec fn is_word(toks: Seq<Token>, pos: int, w: Seq<char>) -> bool {
    is_word_token(toks, pos) && word_text(toks[pos]) == w
}

pub open spec fn expect(toks: Seq<Token>, pos: int, p: Punct) -> Result<int, ParseError> {
    if is_punct(toks, pos, p) {
        Ok(pos + 1)
    } else {
        Err(err_at(toks, pos, Expected::Token(p)))
    }
}

pub open spec fn primitive_of(w: Seq<char>) -> Option<Primitive> {
    if w == "i8"@ {
        Some(Primitive::Int8)
    } else if w == "i16"@ {
        Some(Primitive::Int16)
    } else if w == "i32"@ {
        Some(Primitive::Int32)
    } else if w == "i64"@ {
        Some(Primitive::Int64)
    } else if w == "u8"@ {
        Some(Primitive::UInt8)
    } else if w == "u16"@ {
        Some(Primitive::UInt16)
    } else if w == "u32"@ {
        Some(Primitive::UInt32)
    } else if w == "u64"@ {
        Some(Primitive::UInt64)
    } else if w == "f32"@ {
        Some(Primitive::Float32)
    } else if w == "f64"@ {
        Some(Primitive::Float64)
    } else if w == "bool"@ {
        Some(Primitive::Boolean)
    } else if w == "str"@ {
        Some(Primitive::String)
    } else if w == "bytes"@ {
        Some(Primitive::Bytes)
    } else if w == "any"@ {
        Some(Primitive::Any)
    } else {
        None
    }
}

/// `'(' Int ')'`, the integer fitting in 16 bits.
pub open spec fn major_version(toks: Seq<Token>, pos: int) -> Result<(MajorVersion, int), ParseError> {
    if !is_punct(toks, pos, Punct::LParen) {
        Err(err_at(toks, pos, Expected::Token(Punct::LParen)))
    } else if !(pos + 1 < toks.len()) {
        Err(ParseError::EmptyInput)
    } else {
        match toks[pos + 1].kind {
            TokenKind::Int(s) => match bounded_uint(s@, U16_MAX as nat) {
                Some(v) => if is_punct(toks, pos + 2, Punct::RParen) {
                    Ok((MajorVersion(v as u16), pos + 3))
                } else {
                    Err(err_at(toks, pos + 2, Expected::Token(Punct::RParen)))
                },
                None => Err(ParseError::Range { span: toks[pos + 1].span }),
            },
            _ => Err(ParseError::Syntax { span: toks[pos + 1].span, expected: Expected::IntLiteral }),
        }
    }
}

/// `'(' Decimal ')'`, the decimal being `digits.digits` with 16-bit halves.
pub open spec fn minor_version(toks: Seq<Token>, pos: int) -> Result<(MinorVersion, int), ParseError> {
    if !is_punct(toks, pos, Punct::LParen) {
        Err(err_at(toks, pos, Expected::Token(Punct::LParen)))
    } else if !(pos + 1 < toks.len()) {
        Err(ParseError::EmptyInput)
    } else {
        match toks[pos + 1].kind {
            TokenKind::Decimal(s) => match minor_of(s@) {
                Some((a, b)) => if is_punct(toks, pos + 2, Punct::RParen) {
                    Ok((MinorVersion(a, b), pos + 3))
                } else {
                    Err(err_at(toks, pos + 2, Expected::Token(Punct::RParen)))
                },
                None => Err(ParseError::Range { span: toks[pos + 1].span }),
            },
            _ => Err(ParseError::Syntax { span: toks[pos + 1].span, expected: Expected::DecimalLiteral }),
        }
    }
}

/// The adjustments of an include up to and including `}`: each
/// `'@' (add|rem) '(' Word ')'`, separated by commas, the last comma optional.
pub open spec fn include_items(toks: Seq<Token>, pos: int, acc: Seq<IncludeItemView>) -> Result<
    (Seq<IncludeItemView>, int),
    ParseError,
>
    decreases toks.len() - pos,
{
    if is_punct(toks, pos, Punct::RBrace) {
        Ok((acc, pos + 1))
    } else if !is_punct(toks, pos, Punct::At) {
        Err(err_at(toks, pos, Expected::Token(Punct::At)))
    } else if !(is_word(toks, pos + 1, "add"@) || is_word(toks, pos + 1, "rem"@)) {
        Err(err_at(toks, pos + 1, Expected::Adjustment))
    } else if !is_punct(toks, pos + 2, Punct::LParen) {
        Err(err_at(toks, pos + 2, Expected::Token(Punct::LParen)))
    } else if !is_word_token(toks, pos + 3) {
        Err(err_at(toks, pos + 3, Expected::Name))
    } else if !is_punct(toks, pos + 4, Punct::RParen) {
        Err(err_at(toks, pos + 4, Expected::Token(Punct::RParen)))
    } else {
        let name = word_text(toks[pos + 3]);
        let item = if is_word(toks, pos + 1, "add"@) {
            IncludeItemView::Add(name)
        } else {
            IncludeItemView::Rem(name)
        };
        if is_punct(toks, pos + 5, Punct::RBrace) {
            Ok((acc.push(item), pos + 6))
        } else if !is_punct(toks, pos + 5, Punct::Comma) {
            Err(err_at(toks, pos + 5, Expected::Token(Punct::Comma)))
        } else {
            include_items(toks, pos + 6, acc.push(item))
        }
    }
}

/// What follows `'@' ver`: a major version and an optional adjustment list.
pub open spec fn include_body(toks: Seq<Token>, pos: int) -> Result<(IncludeView, int), ParseError> {
    match major_version(toks, pos) {
        Err(e) => Err(e),
        Ok((v, p)) => if is_punct(toks, p, Punct::LBrace) {
            match include_items(toks, p + 1, Seq::empty()) {
                Ok((items, q)) => Ok((IncludeView { version: v, items }, q)),
                Err(e) => Err(e),
            }
        } else {
            Ok((IncludeView { version: v, items: Seq::empty() }, p))
        },
    }
}

pub enum PrefixView {
    Include(IncludeView),
    Minor(MinorVersion),
    Plain,
}

pub open spec fn directive_word(d: Directive) -> Seq<char> {
    match d {
        Directive::Add => "add"@,
        Directive::Rem => "rem"@,
    }
}

/// What stands before an item of a list of kind `c`: an include, a
/// minor-version tag with the directive that `c` allows, or nothing.
pub open spec fn prefix(toks: Seq<Token>, pos: int, c: Container) -> Result<(PrefixView, int), ParseError> {
    if !is_punct(toks, pos, Punct::At) {
        Ok((PrefixView::Plain, pos))
    } else if is_word(toks, pos + 1, "ver"@) {
        match include_body(toks, pos + 2) {
            Ok((i, p)) => Ok((PrefixView::Include(i), p)),
            Err(e) => Err(e),
        }
    } else if is_word(toks, pos + 1, directive_word(allowed_directive(c))) {
        match minor_version(toks, pos + 2) {
            Ok((m, p)) => Ok((PrefixView::Minor(m), p)),
            Err(e) => Err(e),
        }
    } else if is_word(toks, pos + 1, directive_word(forbidden_directive(c))) {
        Err(
            ParseError::Policy {
                directive: forbidden_directive(c),
                container: c,
                span: toks[pos + 1].span,
            },
        )
    } else {
        Err(err_at(toks, pos + 1, Expected::Tag(allowed_directive(c))))
    }
}

pub open spec fn prefix_version(p: PrefixView) -> Option<MinorVersion> {
    match p {
        PrefixView::Minor(m) => Some(m),
        _ => None,
    }
}

/// After a name: `('::' Word)? ('@' ver MajorVersion)?`.
pub open spec fn named_type(toks: Seq<Token>, pos: int) -> Result<(FieldTypeView, int), ParseError> {
    let name = word_text(toks[pos]);
    let (second, p) = if is_punct(toks, pos + 1, Punct::PathSep) {
        (Some(word_text(toks[pos + 2])), pos + 3)
    } else {
        (None, pos + 1)
    };
    if is_punct(toks, pos + 1, Punct::PathSep) && !is_word_token(toks, pos + 2) {
        Err(err_at(toks, pos + 2, Expected::Name))
    } else if !is_punct(toks, p, Punct::At) {
        Ok((FieldTypeView::Type(name, second, None), p))
    } else if !is_word(toks, p + 1, "ver"@) {
        Err(err_at(toks, p + 1, Expected::VersionKeyword))
    } else {
        match major_version(toks, p + 2) {
            Ok((v, q)) => Ok((FieldTypeView::Type(name, second, Some(v)), q)),
            Err(e) => Err(e),
        }
    }
}

/// After `[T ;`: `Int ']'`, the size fitting in 32 bits.
pub open spec fn array_tail(toks: Seq<Token>, pos: int, t: FieldTypeView) -> Result<(FieldTypeView, int), ParseError> {
    if !(0 <= pos < toks.len()) {
        Err(ParseError::EmptyInput)
    } else {
        match toks[pos].kind {
            TokenKind::Int(s) => if !is_punct(toks, pos + 1, Punct::RBracket) {
                Err(err_at(toks, pos + 1, Expected::Token(Punct::RBracket)))
            } else {
                match bounded_uint(s@, U32_MAX as nat) {
                    Some(n) => Ok((FieldTypeView::Array(Box::new(t), n as u32), pos + 2)),
                    None => Err(ParseError::Range { span: toks[pos].span }),
                }
            },
            _ => Err(ParseError::Syntax { span: toks[pos].span, expected: Expected::IntLiteral }),
        }
    }
}

/// A field type.
pub open spec fn field_type(toks: Seq<Token>, pos: int) -> Result<(FieldTypeView, int), ParseError>
    decreases toks.len() - pos, 0int,
{
    if !(0 <= pos < toks.len()) {
        Err(ParseError::EmptyInput)
    } else {
        match toks[pos].kind {
            TokenKind::Word(w) => match primitive_of(w@) {
                Some(p) => Ok((FieldTypeView::Primitive(p), pos + 1)),
                None => named_type(toks, pos),
            },
            TokenKind::Punct(Punct::Question) => match field_type(toks, pos + 1) {
                Ok((t, p)) => Ok((FieldTypeView::Optional(Box::new(t)), p)),
                Err(e) => Err(e),
            },
            TokenKind::Punct(Punct::Amp) => match field_type(toks, pos + 1) {
                Ok((t, p)) => Ok((FieldTypeView::Reference(Box::new(t)), p)),
                Err(e) => Err(e),
            },
            TokenKind::Punct(Punct::LBracket) => match field_type(toks, pos + 1) {
                Err(e) => Err(e),
                Ok((t, p)) => if p <= pos {
                    Err(err_at(toks, p, Expected::BracketRest))
                } else if is_punct(toks, p, Punct::RBracket) {
                    Ok((FieldTypeView::List(Box::new(t)), p + 1))
                } else if is_punct(toks, p, Punct::Semi) {
                    array_tail(toks, p + 1, t)
                } else if is_punct(toks, p, Punct::Colon) {
                    match field_type(toks, p + 1) {
                        Err(e) => Err(e),
                        Ok((v, q)) => if is_punct(toks, q, Punct::RBracket) {
                            Ok((FieldTypeView::Mapping(Box::new(t), Box::new(v)), q + 1))
                        } else {
                            Err(err_at(toks, q, Expected::Token(Punct::RBracket)))
                        },
                    }
                } else {
                    Err(err_at(toks, p, Expected::BracketRest))
                },
            },
            TokenKind::Punct(Punct::LParen) => match tuple_items(toks, pos + 1, Seq::empty()) {
                Ok((items, p)) => Ok((FieldTypeView::Tuple(items), p)),
                Err(e) => Err(e),
            },
            _ => Err(ParseError::Syntax { span: toks[pos].span, expected: Expected::FieldType }),
        }
    }
}

/// The items of a parenthesized tuple after `(`, up to and including `)`;
/// the last comma is optional.
pub open spec fn tuple_items(toks: Seq<Token>, pos: int, acc: Seq<ItemView<TupleFieldView>>) -> Result<
    (Seq<ItemView<TupleFieldView>>, int),
    ParseError,
>
    decreases toks.len() - pos, 1int,
{
    if !(0 <= pos < toks.len()) {
        Err(ParseError::EmptyInput)
    } else if is_punct(toks, pos, Punct::RParen) {
        Ok((acc, pos + 1))
    } else {
        match prefix(toks, pos, Container::TupleFields) {
            Err(e) => Err(e),
            Ok((pre, p)) => {
                let item: Result<(ItemView<TupleFieldView>, int), ParseError> = match pre {
                    PrefixView::Include(i) => Ok((ItemView::Include(i), p)),
                    _ => if p < pos {
                        Err(err_at(toks, p, Expected::FieldType))
                    } else {
                        match field_type(toks, p) {
                            Ok((t, q)) => Ok(
                                (
                                    ItemView::Field(
                                        TupleFieldView { version: prefix_version(pre), field_type: t },
                                    ),
                                    q,
                                ),
                            ),
                            Err(e) => Err(e),
                        }
                    },
                };
                match item {
                    Err(e) => Err(e),
                    Ok((it, q)) => if q <= pos {
                        Err(err_at(toks, q, Expected::Token(Punct::Comma)))
                    } else if is_punct(toks, q, Punct::RParen) {
                        Ok((acc.push(it), q + 1))
                    } else if !is_punct(toks, q, Punct::Comma) {
                        Err(err_at(toks, q, Expected::Token(Punct::Comma)))
                    } else {
                        tuple_items(toks, q + 1, acc.push(it))
                    },
                }
            },
        }
    }
}

/// `Word ':' FieldType`.
pub open spec fn struct_field(toks: Seq<Token>, pos: int, v: Option<MinorVersion>) -> Result<
    (ItemView<StructFieldView>, int),
    ParseError,
> {
    if !is_word_token(toks, pos) {
        Err(err_at(toks, pos, Expected::Name))
    } else if !is_punct(toks, pos + 1, Punct::Colon) {
        Err(err_at(toks, pos + 1, Expected::Token(Punct::Colon)))
    } else {
        match field_type(toks, pos + 2) {
            Ok((t, q)) => Ok(
                (
                    ItemView::Field(
                        StructFieldView { version: v, name: word_text(toks[pos]), field_type: t },
                    ),
                    q,
                ),
            ),
            Err(e) => Err(e),
        }
    }
}

/// Comma-terminated named fields or parameters up to and including `close`.
pub open spec fn struct_items(
    toks: Seq<Token>,
    pos: int,
    c: Container,
    close: Punct,
    acc: Seq<ItemView<StructFieldView>>,
) -> Result<(Seq<ItemView<StructFieldView>>, int), ParseError>
    decreases toks.len() - pos,
{
    if !(0 <= pos < toks.len()) {
        Err(ParseError::EmptyInput)
    } else if is_punct(toks, pos, close) {
        Ok((acc, pos + 1))
    } else {
        match prefix(toks, pos, c) {
            Err(e) => Err(e),
            Ok((pre, p)) => {
                let item = match pre {
                    PrefixView::Include(i) => Ok((ItemView::Include(i), p)),
                    _ => struct_field(toks, p, prefix_version(pre)),
                };
                match item {
                    Err(e) => Err(e),
                    Ok((it, q)) => if q <= pos {
                        Err(err_at(toks, q, Expected::Token(Punct::Comma)))
                    } else if !is_punct(toks, q, Punct::Comma) {
                        Err(err_at(toks, q, Expected::Token(Punct::Comma)))
                    } else {
                        struct_items(toks, q + 1, c, close, acc.push(it))
                    },
                }
            },
        }
    }
}

/// `Word ('=' Int)?`, the value fitting in 32 bits.
pub open spec fn enum_field(toks: Seq<Token>, pos: int, v: Option<MinorVersion>) -> Result<
    (ItemView<EnumFieldView>, int),
    ParseError,
> {
    if !is_word_token(toks, pos) {
        Err(err_at(toks, pos, Expected::Name))
    } else if !is_punct(toks, pos + 1, Punct::Eq) {
        Ok((ItemView::Field(EnumFieldView { version: v, name: word_text(toks[pos]), value: None }), pos + 1))
    } else if !(pos + 2 < toks.len()) {
        Err(ParseError::EmptyInput)
    } else {
        match toks[pos + 2].kind {
            TokenKind::Int(s) => match bounded_uint(s@, U32_MAX as nat) {
                Some(n) => Ok(
                    (
                        ItemView::Field(
                            EnumFieldView { version: v, name: word_text(toks[pos]), value: Some(n as u32) },
                        ),
                        pos + 3,
                    ),
                ),
                None => Err(ParseError::Range { span: toks[pos + 2].span }),
            },
            _ => Err(ParseError::Syntax { span: toks[pos + 2].span, expected: Expected::IntLiteral }),
        }
    }
}

/// Comma-terminated enum members up to and including `}`.
pub open spec fn enum_items(toks: Seq<Token>, pos: int, acc: Seq<ItemView<EnumFieldView>>) -> Result<
    (Seq<ItemView<EnumFieldView>>, int),
    ParseError,
>
    decreases toks.len() - pos,
{
    if !(0 <= pos < toks.len()) {
        Err(ParseError::EmptyInput)
    } else if is_punct(toks, pos, Punct::RBrace) {
        Ok((acc, pos + 1))
    } else {
        match prefix(toks, pos, Container::EnumMembers) {
            Err(e) => Err(e),
            Ok((pre, p)) => {
                let item = match pre {
                    PrefixView::Include(i) => Ok((ItemView::Include(i), p)),
                    _ => enum_field(toks, p, prefix_version(pre)),
                };
                match item {
                    Err(e) => Err(e),
                    Ok((it, q)) => if q <= pos {
                        Err(err_at(toks, q, Expected::Token(Punct::Comma)))
                    } else if !is_punct(toks, q, Punct::Comma) {
                        Err(err_at(toks, q, Expected::Token(Punct::Comma)))
                    } else {
                        enum_items(toks, q + 1, acc.push(it))
                    },
                }
            },
        }
    }
}

/// A struct body: named fields in braces, a tuple, or nothing. A unit body
/// ends at `;` (consumed) for a struct and at `,` (left) for a union variant.
pub open spec fn struct_body(toks: Seq<Token>, pos: int, in_union: bool) -> Result<(StructBodyView, int), ParseError> {
    if is_punct(toks, pos, Punct::LBrace) {
        match struct_items(toks, pos + 1, Container::StructFields, Punct::RBrace, Seq::empty()) {
            Ok((items, p)) => Ok((StructBodyView::Items(items), p)),
            Err(e) => Err(e),
        }
    } else if is_punct(toks, pos, Punct::LParen) {
        match tuple_items(toks, pos + 1, Seq::empty()) {
            Ok((items, p)) => Ok((StructBodyView::Tuple(items), p)),
            Err(e) => Err(e),
        }
    } else if in_union && is_punct(toks, pos, Punct::Comma) {
        Ok((StructBodyView::Unit, pos))
    } else if !in_union && is_punct(toks, pos, Punct::Semi) {
        Ok((StructBodyView::Unit, pos + 1))
    } else {
        Err(err_at(toks, pos, Expected::StructBody))
    }
}

/// `Word StructBody`.
pub open spec fn union_field(toks: Seq<Token>, pos: int, v: Option<MinorVersion>) -> Result<
    (ItemView<UnionFieldView>, int),
    ParseError,
> {
    if !is_word_token(toks, pos) {
        Err(err_at(toks, pos, Expected::Name))
    } else {
        match struct_body(toks, pos + 1, true) {
            Ok((b, q)) => Ok(
                (ItemView::Field(UnionFieldView { version: v, name: word_text(toks[pos]), body: b }), q),
            ),
            Err(e) => Err(e),
        }
    }
}

/// Comma-terminated union variants up to and including `}`.
pub open spec fn union_items(toks: Seq<Token>, pos: int, acc: Seq<ItemView<UnionFieldView>>) -> Result<
    (Seq<ItemView<UnionFieldView>>, int),
    ParseError,
>
    decreases toks.len() - pos,
{
    if !(0 <= pos < toks.len()) {
        Err(ParseError::EmptyInput)
    } else if is_punct(toks, pos, Punct::RBrace) {
        Ok((acc, pos + 1))
    } else {
        match prefix(toks, pos, Container::UnionVariants) {
            Err(e) => Err(e),
            Ok((pre, p)) => {
                let item = match pre {
                    PrefixView::Include(i) => Ok((ItemView::Include(i), p)),
                    _ => union_field(toks, p, prefix_version(pre)),
                };
                match item {
                    Err(e) => Err(e),
                    Ok((it, q)) => if q <= pos {
                        Err(err_at(toks, q, Expected::Token(Punct::Comma)))
                    } else if !is_punct(toks, q, Punct::Comma) {
                        Err(err_at(toks, q, Expected::Token(Punct::Comma)))
                    } else {
                        union_items(toks, q + 1, acc.push(it))
                    },
                }
            },
        }
    }
}

/// `Word StructBody`.
pub open spec fn struct_decl(toks: Seq<Token>, pos: int, v: MajorVersion) -> Result<(StructView, int), ParseError> {
    if !is_word_token(toks, pos) {
        Err(err_at(toks, pos, Expected::Name))
    } else {
        match struct_body(toks, pos + 1, false) {
            Ok((b, p)) => Ok((StructView { version: v, name: word_text(toks[pos]), body: b }, p)),
            Err(e) => Err(e),
        }
    }
}

/// `Word '{' UnionItems`.
pub open spec fn union_decl(toks: Seq<Token>, pos: int, v: MajorVersion) -> Result<(UnionView, int), ParseError> {
    if !is_word_token(toks, pos) {
        Err(err_at(toks, pos, Expected::Name))
    } else if !is_punct(toks, pos + 1, Punct::LBrace) {
        Err(err_at(toks, pos + 1, Expected::Token(Punct::LBrace)))
    } else {
        match union_items(toks, pos + 2, Seq::empty()) {
            Ok((items, p)) => Ok((UnionView { version: v, name: word_text(toks[pos]), items }, p)),
            Err(e) => Err(e),
        }
    }
}

/// `Word '{' EnumItems`.
pub open spec fn enum_decl(toks: Seq<Token>, pos: int, v: MajorVersion) -> Result<(EnumView, int), ParseError> {
    if !is_word_token(toks, pos) {
        Err(err_at(toks, pos, Expected::Name))
    } else if !is_punct(toks, pos + 1, Punct::LBrace) {
        Err(err_at(toks, pos + 1, Expected::Token(Punct::LBrace)))
    } else {
        match enum_items(toks, pos + 2, Seq::empty()) {
            Ok((items, p)) => Ok((EnumView { version: v, name: word_text(toks[pos]), items }, p)),
            Err(e) => Err(e),
        }
    }
}

/// `Word '(' Params ('->' FieldType)?`.
pub open spec fn function_decl(toks: Seq<Token>, pos: int, v: MajorVersion) -> Result<(FunctionView, int), ParseError> {
    if !is_word_token(toks, pos) {
        Err(err_at(toks, pos, Expected::Name))
    } else if !is_punct(toks, pos + 1, Punct::LParen) {
        Err(err_at(toks, pos + 1, Expected::Token(Punct::LParen)))
    } else {
        match struct_items(toks, pos + 2, Container::FunctionParams, Punct::RParen, Seq::empty()) {
            Err(e) => Err(e),
            Ok((items, p)) => if is_punct(toks, p, Punct::Arrow) {
                match field_type(toks, p + 1) {
                    Ok((t, q)) => Ok(
                        (FunctionView { version: v, name: word_text(toks[pos]), items, return_type: Some(t) }, q),
                    ),
                    Err(e) => Err(e),
                }
            } else {
                Ok((FunctionView { version: v, name: word_text(toks[pos]), items, return_type: None }, p))
            },
        }
    }
}

/// `Word '(' Params`.
pub open spec fn command_decl(toks: Seq<Token>, pos: int, v: MajorVersion) -> Result<(CommandView, int), ParseError> {
    if !is_word_token(toks, pos) {
        Err(err_at(toks, pos, Expected::Name))
    } else if !is_punct(toks, pos + 1, Punct::LParen) {
        Err(err_at(toks, pos + 1, Expected::Token(Punct::LParen)))
    } else {
        match struct_items(toks, pos + 2, Container::CommandParams, Punct::RParen, Seq::empty()) {
            Ok((items, p)) => Ok((CommandView { version: v, name: word_text(toks[pos]), items }, p)),
            Err(e) => Err(e),
        }
    }
}

/// After `obj`: `'(' (struct|union|enum) ')'` and the declaration of that kind.
pub open spec fn object_decl(toks: Seq<Token>, pos: int, v: MajorVersion) -> Result<(ObjectView, int), ParseError> {
    if !is_punct(toks, pos, Punct::LParen) {
        Err(err_at(toks, pos, Expected::Token(Punct::LParen)))
    } else if !(is_word(toks, pos + 1, "struct"@) || is_word(toks, pos + 1, "union"@) || is_word(
        toks,
        pos + 1,
        "enum"@,
    )) {
        Err(err_at(toks, pos + 1, Expected::ObjectKind))
    } else if !is_punct(toks, pos + 2, Punct::RParen) {
        Err(err_at(toks, pos + 2, Expected::Token(Punct::RParen)))
    } else if is_word(toks, pos + 1, "struct"@) {
        match struct_decl(toks, pos + 3, v) {
            Ok((s, p)) => Ok((ObjectView::Struct(s), p)),
            Err(e) => Err(e),
        }
    } else if is_word(toks, pos + 1, "union"@) {
        match union_decl(toks, pos + 3, v) {
            Ok((u, p)) => Ok((ObjectView::Union(u), p)),
            Err(e) => Err(e),
        }
    } else {
        match enum_decl(toks, pos + 3, v) {
            Ok((e, p)) => Ok((ObjectView::Enum(e), p)),
            Err(e) => Err(e),
        }
    }
}

/// `'@' ver MajorVersion` and one declaration.
pub open spec fn type_decl(toks: Seq<Token>, pos: int) -> Result<(TypeView, int), ParseError> {
    if !is_punct(toks, pos, Punct::At) {
        Err(err_at(toks, pos, Expected::Token(Punct::At)))
    } else if !is_word(toks, pos + 1, "ver"@) {
        Err(err_at(toks, pos + 1, Expected::VersionKeyword))
    } else {
        match major_version(toks, pos + 2) {
            Err(e) => Err(e),
            Ok((v, p)) => if is_word(toks, p, "obj"@) {
                match object_decl(toks, p + 1, v) {
                    Ok((o, q)) => Ok((TypeView::Object(o), q)),
                    Err(e) => Err(e),
                }
            } else if is_word(toks, p, "struct"@) {
                match struct_decl(toks, p + 1, v) {
                    Ok((s, q)) => Ok((TypeView::Struct(s), q)),
                    Err(e) => Err(e),
                }
            } else if is_word(toks, p, "union"@) {
                match union_decl(toks, p + 1, v) {
                    Ok((u, q)) => Ok((TypeView::Union(u), q)),
                    Err(e) => Err(e),
                }
            } else if is_word(toks, p, "enum"@) {
                match enum_decl(toks, p + 1, v) {
                    Ok((e, q)) => Ok((TypeView::Enum(e), q)),
                    Err(e) => Err(e),
                }
            } else if is_word(toks, p, "fn"@) {
                match function_decl(toks, p + 1, v) {
                    Ok((f, q)) => Ok((TypeView::Function(f), q)),
                    Err(e) => Err(e),
                }
            } else if is_word(toks, p, "cmd"@) {
                match command_decl(toks, p + 1, v) {
                    Ok((c, q)) => Ok((TypeView::Command(c), q)),
                    Err(e) => Err(e),
                }
            } else {
                Err(err_at(toks, p, Expected::Declaration))
            },
        }
    }
}

/// The rest of an import after its first segment: `('::' Word)* ('as' Word)? ';'`.
pub open spec fn use_tail(toks: Seq<Token>, pos: int, segs: Seq<Seq<char>>) -> Result<(UseView, int), ParseError>
    decreases toks.len() - pos,
{
    if !(0 <= pos < toks.len()) {
        Err(ParseError::EmptyInput)
    } else if is_punct(toks, pos, Punct::Semi) {
        Ok((UseView { segments: segs, alias: None }, pos + 1))
    } else if is_word(toks, pos, "as"@) {
        if !is_word_token(toks, pos + 1) {
            Err(err_at(toks, pos + 1, Expected::Name))
        } else if !is_punct(toks, pos + 2, Punct::Semi) {
            Err(err_at(toks, pos + 2, Expected::Token(Punct::Semi)))
        } else {
            Ok((UseView { segments: segs, alias: Some(word_text(toks[pos + 1])) }, pos + 3))
        }
    } else if is_punct(toks, pos, Punct::PathSep) {
        if !is_word_token(toks, pos + 1) {
            Err(err_at(toks, pos + 1, Expected::Name))
        } else {
            use_tail(toks, pos + 2, segs.push(word_text(toks[pos + 1])))
        }
    } else {
        Err(err_at(toks, pos, Expected::UseRest))
    }
}

/// An import after `use`.
pub open spec fn use_decl(toks: Seq<Token>, pos: int) -> Result<(UseView, int), ParseError> {
    if !is_word_token(toks, pos) {
        Err(err_at(toks, pos, Expected::Name))
    } else {
        use_tail(toks, pos + 1, seq![word_text(toks[pos])])
    }
}

/// Imports and then declarations from `pos` to the end of the tokens; once a
/// declaration has been read, no import may follow.
#[verifier::opaque]
pub open spec fn declarations(
    toks: Seq<Token>,
    pos: int,
    name: Seq<char>,
    uses: Seq<UseView>,
    types: Seq<TypeView>,
) -> Result<SchemeView, ParseError>
    decreases toks.len() - pos,
{
    if pos >= toks.len() {
        Ok(SchemeView { name, uses, types })
    } else if types.len() == 0 && is_word(toks, pos, "use"@) {
        match use_decl(toks, pos + 1) {
            Err(e) => Err(e),
            Ok((u, p)) => if p <= pos || p > toks.len() {
                Err(err_at(toks, p, Expected::Item))
            } else {
                declarations(toks, p, name, uses.push(u), types)
            },
        }
    } else if is_punct(toks, pos, Punct::At) {
        match type_decl(toks, pos) {
            Err(e) => Err(e),
            Ok((t, p)) => if p <= pos || p > toks.len() {
                Err(err_at(toks, p, Expected::Item))
            } else {
                declarations(toks, p, name, uses, types.push(t))
            },
        }
    } else if types.len() == 0 {
        Err(err_at(toks, pos, Expected::Item))
    } else {
        Err(err_at(toks, pos, Expected::Token(Punct::At)))
    }
}

/// A whole scheme: `sch StringLiteral ';'` and its imports and declarations.
pub open spec fn scheme(toks: Seq<Token>) -> Result<SchemeView, ParseError> {
    if !is_word(toks, 0, "sch"@) {
        Err(err_at(toks, 0, Expected::SchemeKeyword))
    } else if !(1 < toks.len()) {
        Err(ParseError::EmptyInput)
    } else {
        match toks[1].kind {
            TokenKind::Str(s) => match string_literal_value(s@) {
                Some(name) => if !is_punct(toks, 2, Punct::Semi) {
                    Err(err_at(toks, 2, Expected::Token(Punct::Semi)))
                } else {
                    declarations(toks, 3, name, Seq::empty(), Seq::empty())
                },
                None => Err(ParseError::Syntax { span: toks[1].span, expected: Expected::StringLiteral }),
            },
            _ => Err(ParseError::Syntax { span: toks[1].span, expected: Expected::StringLiteral }),
        }
    }
}

} // verus!
