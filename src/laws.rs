use vstd::prelude::*;
use crate::ast::{
    EnumFieldView, FieldTypeView, ItemView, MajorVersion, MinorVersion, ObjectView, StructFieldView,
    TupleFieldView, UnionFieldView,
};
use crate::grammar::{
    array_tail, directive_word, enum_decl, enum_field, enum_items, struct_items, union_items, field_type, is_punct, is_word,
    is_word_token, major_version, minor_version, object_decl, prefix, struct_decl,
    tuple_items, union_decl, PrefixView,
};
use crate::literal::{all_digits, decimal_value, U16_MAX, U32_MAX};
use crate::token::{
    add_allowed, allowed_directive, forbidden_directive, Container, Directive, Expected, ParseError, Punct,
    Token, TokenKind,
};

verus! {

/// The add/remove policy of item lists: in struct fields, tuple fields and
/// parameters an `@rem(..)` tag is a policy error and `@add(m.n)` tags the
/// item; in union variants and enum members it is the other way round.
pub proof fn lemma_tag_policy(toks: Seq<Token>, pos: int, c: Container, d: Directive)
    requires
        is_punct(toks, pos, Punct::At),
        is_word(toks, pos + 1, directive_word(d)),
    ensures
        d == forbidden_directive(c) ==> prefix(toks, pos, c) == Err::<(PrefixView, int), ParseError>(
            ParseError::Policy { directive: d, container: c, span: toks[pos + 1].span },
        ),
        d == allowed_directive(c) ==> prefix(toks, pos, c) == match minor_version(toks, pos + 2) {
            Ok((m, p)) => Ok((PrefixView::Minor(m), p)),
            Err(e) => Err(e),
        },
        add_allowed(c) ==> (d == Directive::Add <==> d == allowed_directive(c)),
        !add_allowed(c) ==> (d == Directive::Rem <==> d == allowed_directive(c)),
{
    reveal_strlit("ver");
    reveal_strlit("add");
    reveal_strlit("rem");
    assert("ver"@ != "add"@ && "ver"@ != "rem"@ && "add"@ != "rem"@) by {
        assert("ver"@[0] != "add"@[0]);
        assert("ver"@[0] != "rem"@[0]);
        assert("add"@[0] != "rem"@[0]);
    }
}

/// The same policy seen from a tuple's item list: a forbidden tag ends the
/// parse with a policy error.
pub proof fn lemma_tuple_rejects_rem(toks: Seq<Token>, pos: int, acc: Seq<ItemView<TupleFieldView>>)
    requires
        is_punct(toks, pos, Punct::At),
        is_word(toks, pos + 1, "rem"@),
    ensures
        tuple_items(toks, pos, acc) == Err::<(Seq<ItemView<TupleFieldView>>, int), ParseError>(
            ParseError::Policy {
                directive: Directive::Rem,
                container: Container::TupleFields,
                span: toks[pos + 1].span,
            },
        ),
{
    lemma_tag_policy(toks, pos, Container::TupleFields, Directive::Rem);
}

/// The same policy seen from an enum's member list: an `@add(..)` tag ends
/// the parse with a policy error.
pub proof fn lemma_enum_rejects_add(toks: Seq<Token>, pos: int, acc: Seq<ItemView<crate::ast::EnumFieldView>>)
    requires
        is_punct(toks, pos, Punct::At),
        is_word(toks, pos + 1, "add"@),
    ensures
        enum_items(toks, pos, acc) == Err::<(Seq<ItemView<crate::ast::EnumFieldView>>, int), ParseError>(
            ParseError::Policy {
                directive: Directive::Add,
                container: Container::EnumMembers,
                span: toks[pos + 1].span,
            },
        ),
{
    lemma_tag_policy(toks, pos, Container::EnumMembers, Directive::Add);
}

/// A major version `(L)` is accepted exactly when `L <= 2^16 - 1`, and is
/// otherwise a range error.
pub proof fn lemma_major_version_range(toks: Seq<Token>, pos: int)
    requires
        is_punct(toks, pos, Punct::LParen),
        pos + 1 < toks.len(),
        toks[pos + 1].kind is Int,
        toks[pos + 1].kind->Int_0@.len() > 0,
        all_digits(toks[pos + 1].kind->Int_0@),
        is_punct(toks, pos + 2, Punct::RParen),
    ensures
        ({
            let l = decimal_value(toks[pos + 1].kind->Int_0@);
            &&& l <= U16_MAX ==> major_version(toks, pos) == Ok::<(MajorVersion, int), ParseError>(
                (MajorVersion(l as u16), pos + 3),
            )
            &&& l > U16_MAX ==> major_version(toks, pos) == Err::<(MajorVersion, int), ParseError>(
                ParseError::Range { span: toks[pos + 1].span },
            )
        }),
{
}

/// An array size `[T; L]` is accepted exactly when `L <= 2^32 - 1`, and is
/// otherwise a range error.
pub proof fn lemma_array_size_range(toks: Seq<Token>, pos: int, t: FieldTypeView)
    requires
        0 <= pos < toks.len(),
        toks[pos].kind is Int,
        toks[pos].kind->Int_0@.len() > 0,
        all_digits(toks[pos].kind->Int_0@),
        is_punct(toks, pos + 1, Punct::RBracket),
    ensures
        ({
            let l = decimal_value(toks[pos].kind->Int_0@);
            &&& l <= U32_MAX ==> array_tail(toks, pos, t) == Ok::<(FieldTypeView, int), ParseError>(
                (FieldTypeView::Array(Box::new(t), l as u32), pos + 2),
            )
            &&& l > U32_MAX ==> array_tail(toks, pos, t) == Err::<(FieldTypeView, int), ParseError>(
                ParseError::Range { span: toks[pos].span },
            )
        }),
{
}

/// A successful field-type parse consumes at least one token.
pub proof fn lemma_field_type_advances(toks: Seq<Token>, pos: int)
    ensures
        field_type(toks, pos) is Ok ==> field_type(toks, pos)->Ok_0.1 > pos,
    decreases toks.len() - pos, 0int,
{
    if 0 <= pos < toks.len() {
        match toks[pos].kind {
            TokenKind::Punct(Punct::Question) | TokenKind::Punct(Punct::Amp) => {
                lemma_field_type_advances(toks, pos + 1);
            },
            TokenKind::Punct(Punct::LParen) => {
                lemma_tuple_items_advance(toks, pos + 1, Seq::empty());
            },
            TokenKind::Punct(Punct::LBracket) => {
                lemma_field_type_advances(toks, pos + 1);
                if let Ok((_, p)) = field_type(toks, pos + 1) {
                    if p > pos && p < toks.len() {
                        lemma_field_type_advances(toks, p + 1);
                    }
                }
            },
            _ => {},
        }
    }
}

/// A successful tuple parse ends after its start.
pub proof fn lemma_tuple_items_advance(toks: Seq<Token>, pos: int, acc: Seq<ItemView<TupleFieldView>>)
    ensures
        tuple_items(toks, pos, acc) is Ok ==> tuple_items(toks, pos, acc)->Ok_0.1 > pos,
    decreases toks.len() - pos, 1int,
{
    if 0 <= pos < toks.len() && !is_punct(toks, pos, Punct::RParen) {
        if let Ok((pre, p)) = prefix(toks, pos, Container::TupleFields) {
            if !(pre is Include) && p >= pos {
                lemma_field_type_advances(toks, p);
            }
            let item: Result<(ItemView<TupleFieldView>, int), ParseError> = match pre {
                PrefixView::Include(i) => Ok((ItemView::Include(i), p)),
                _ => if p < pos {
                    Err(crate::grammar::err_at(toks, p, Expected::FieldType))
                } else {
                    match field_type(toks, p) {
                        Ok((t, q)) => Ok(
                            (
                                ItemView::Field(
                                    TupleFieldView {
                                        version: crate::grammar::prefix_version(pre),
                                        field_type: t,
                                    },
                                ),
                                q,
                            ),
                        ),
                        Err(e) => Err(e),
                    }
                },
            };
            if let Ok((it, q)) = item {
                if q > pos && is_punct(toks, q, Punct::Comma) {
                    lemma_tuple_items_advance(toks, q + 1, acc.push(it));
                }
            }
        }
    }
}

/// The three bracket forms: `[T]` is a list, `[T; N]` an array of size `N`
/// and `[K: V]` a map, for any element type that parses.
pub proof fn lemma_bracket_forms(toks: Seq<Token>, pos: int)
    requires
        is_punct(toks, pos, Punct::LBracket),
        field_type(toks, pos + 1) is Ok,
    ensures
        ({
            let (t, p) = field_type(toks, pos + 1)->Ok_0;
            &&& is_punct(toks, p, Punct::RBracket) ==> field_type(toks, pos) == Ok::<(FieldTypeView, int), ParseError>(
                (FieldTypeView::List(Box::new(t)), p + 1),
            )
            &&& is_punct(toks, p, Punct::Semi) ==> field_type(toks, pos) == array_tail(toks, p + 1, t)
            &&& is_punct(toks, p, Punct::Colon) && field_type(toks, p + 1) is Ok && is_punct(
                toks,
                field_type(toks, p + 1)->Ok_0.1,
                Punct::RBracket,
            ) ==> field_type(toks, pos) == Ok::<(FieldTypeView, int), ParseError>(
                (
                    FieldTypeView::Mapping(Box::new(t), Box::new(field_type(toks, p + 1)->Ok_0.0)),
                    field_type(toks, p + 1)->Ok_0.1 + 1,
                ),
            )
        }),
{
    lemma_field_type_advances(toks, pos + 1);
}

/// `obj(struct)`, `obj(union)` and `obj(enum)` parse the declaration of the
/// kind they name and tag it with that kind.
pub proof fn lemma_object_kind(toks: Seq<Token>, pos: int, v: MajorVersion)
    requires
        is_punct(toks, pos, Punct::LParen),
        is_punct(toks, pos + 2, Punct::RParen),
    ensures
        is_word(toks, pos + 1, "struct"@) ==> object_decl(toks, pos, v) == match struct_decl(toks, pos + 3, v) {
            Ok((s, p)) => Ok((ObjectView::Struct(s), p)),
            Err(e) => Err(e),
        },
        is_word(toks, pos + 1, "union"@) ==> object_decl(toks, pos, v) == match union_decl(toks, pos + 3, v) {
            Ok((u, p)) => Ok((ObjectView::Union(u), p)),
            Err(e) => Err(e),
        },
        is_word(toks, pos + 1, "enum"@) ==> object_decl(toks, pos, v) == match enum_decl(toks, pos + 3, v) {
            Ok((e, p)) => Ok((ObjectView::Enum(e), p)),
            Err(e) => Err(e),
        },
{
    reveal_strlit("struct");
    reveal_strlit("union");
    reveal_strlit("enum");
    assert("struct"@ != "union"@ && "struct"@ != "enum"@ && "union"@ != "enum"@) by {
        assert("struct"@[0] != "union"@[0]);
        assert("struct"@[0] != "enum"@[0]);
        assert("union"@[0] != "enum"@[0]);
    }
}

/// A body whose shape does not match the kind named by `obj(..)` is a syntax
/// error: named fields `{ x: .. }` under `obj(enum)` or `obj(union)` fail at
/// the colon.
pub proof fn lemma_object_kind_mismatch(toks: Seq<Token>, pos: int, v: MajorVersion)
    requires
        is_punct(toks, pos, Punct::LParen),
        is_word(toks, pos + 1, "enum"@) || is_word(toks, pos + 1, "union"@),
        is_punct(toks, pos + 2, Punct::RParen),
        is_word_token(toks, pos + 3),
        is_punct(toks, pos + 4, Punct::LBrace),
        is_word_token(toks, pos + 5),
        is_punct(toks, pos + 6, Punct::Colon),
    ensures
        object_decl(toks, pos, v) matches Err(ParseError::Syntax { span, .. }) && span
            == toks[pos + 6].span,
{
    lemma_object_kind(toks, pos, v);
    reveal_strlit("struct");
    reveal_strlit("union");
    reveal_strlit("enum");
    assert("struct"@[0] != "union"@[0]);
    assert("struct"@[0] != "enum"@[0]);
}

/// The same policy seen from a list of named fields or parameters: once the
/// items before it have been read, an item tagged `@rem(..)` ends the parse
/// with a policy error naming the list's kind.
pub proof fn lemma_struct_items_reject_rem(
    toks: Seq<Token>,
    pos: int,
    c: Container,
    close: Punct,
    acc: Seq<ItemView<StructFieldView>>,
)
    requires
        add_allowed(c),
        close != Punct::At,
        is_punct(toks, pos, Punct::At),
        is_word(toks, pos + 1, "rem"@),
    ensures
        struct_items(toks, pos, c, close, acc) == Err::<(Seq<ItemView<StructFieldView>>, int), ParseError>(
            ParseError::Policy { directive: Directive::Rem, container: c, span: toks[pos + 1].span },
        ),
{
    lemma_tag_policy(toks, pos, c, Directive::Rem);
}

/// The same policy seen from a union's variant list: an item tagged
/// `@add(..)` ends the parse with a policy error.
pub proof fn lemma_union_items_reject_add(toks: Seq<Token>, pos: int, acc: Seq<ItemView<UnionFieldView>>)
    requires
        is_punct(toks, pos, Punct::At),
        is_word(toks, pos + 1, "add"@),
    ensures
        union_items(toks, pos, acc) == Err::<(Seq<ItemView<UnionFieldView>>, int), ParseError>(
            ParseError::Policy {
                directive: Directive::Add,
                container: Container::UnionVariants,
                span: toks[pos + 1].span,
            },
        ),
{
    lemma_tag_policy(toks, pos, Container::UnionVariants, Directive::Add);
}

/// An enum member `N = L` is accepted exactly when `L <= 2^32 - 1`, and is
/// otherwise a range error.
pub proof fn lemma_enum_value_range(toks: Seq<Token>, pos: int, v: Option<MinorVersion>)
    requires
        is_word_token(toks, pos),
        is_punct(toks, pos + 1, Punct::Eq),
        pos + 2 < toks.len(),
        toks[pos + 2].kind is Int,
        toks[pos + 2].kind->Int_0@.len() > 0,
        all_digits(toks[pos + 2].kind->Int_0@),
    ensures
        ({
            let l = decimal_value(toks[pos + 2].kind->Int_0@);
            let name = crate::grammar::word_text(toks[pos]);
            &&& l <= U32_MAX ==> enum_field(toks, pos, v) == Ok::<(ItemView<EnumFieldView>, int), ParseError>(
                (ItemView::Field(EnumFieldView { version: v, name, value: Some(l as u32) }), pos + 3),
            )
            &&& l > U32_MAX ==> enum_field(toks, pos, v) == Err::<(ItemView<EnumFieldView>, int), ParseError>(
                ParseError::Range { span: toks[pos + 2].span },
            )
        }),
{
}

} // verus!
