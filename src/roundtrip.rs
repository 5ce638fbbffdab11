use vstd::prelude::*;
use crate::ast::{
    CommandView, EnumFieldView, EnumView, FunctionView, ObjectView, SchemeView, StructBodyView,
    StructFieldView, StructView, TypeView, UnionFieldView, UnionView, UseView, FieldTypeView, IncludeItemView, IncludeView, ItemView, MajorVersion, Primitive, TupleFieldView,
};
use crate::grammar::{
    command_decl, declarations, enum_decl, function_decl, object_decl, scheme, struct_decl,
    type_decl, union_decl, use_decl, use_tail, struct_items, enum_items, union_items, struct_body, directive_word, prefix, PrefixView, field_type, include_body, include_items, is_punct, primitive_of, tuple_items, word_text,
};
use crate::literal::{all_digits, decimal_value, minor_of};
use crate::strlit::string_literal_value;
use crate::token::{Punct, Token, TokenKind};

verus! {

broadcast use vstd::seq::group_seq_axioms;

// A canonical rendering of the model as a sequence of token descriptions,
// and the proof that any tokens spelling it parse back to the same model.

/// What a token of a canonical rendering must be.
pub enum Lexeme {
    Word(Seq<char>),
    Int(nat),
    Decimal(u16, u16),
    Str(Seq<char>),
    Punct(Punct),
}

/// `t` is a token for `l`: a word with that text, a numeral with that value,
/// a `major.minor` literal for that pair, a string literal for that text, or
/// that punctuation.
pub open spec fn stands_for(t: Token, l: Lexeme) -> bool {
    match l {
        Lexeme::Word(w) => t.kind is Word && word_text(t) == w,
        Lexeme::Int(n) => match t.kind {
            TokenKind::Int(s) => s@.len() > 0 && all_digits(s@) && decimal_value(s@) == n,
            _ => false,
        },
        Lexeme::Decimal(a, b) => match t.kind {
            TokenKind::Decimal(s) => minor_of(s@) == Some((a, b)),
            _ => false,
        },
        Lexeme::Str(v) => match t.kind {
            TokenKind::Str(s) => string_literal_value(s@) == Some(v),
            _ => false,
        },
        Lexeme::Punct(p) => t.kind == TokenKind::Punct(p),
    }
}

/// The tokens from `pos` on spell `ls`.
pub open spec fn spells(toks: Seq<Token>, pos: int, ls: Seq<Lexeme>) -> bool {
    &&& 0 <= pos
    &&& pos + ls.len() <= toks.len()
    &&& forall|i: int| 0 <= i < ls.len() ==> stands_for(toks[pos + i], #[trigger] ls[i])
}

pub proof fn lemma_spells_split(toks: Seq<Token>, pos: int, a: Seq<Lexeme>, b: Seq<Lexeme>)
    requires
        spells(toks, pos, a + b),
    ensures
        spells(toks, pos, a),
        spells(toks, pos + a.len(), b),
{
    assert forall|i: int| 0 <= i < a.len() implies stands_for(toks[pos + i], #[trigger] a[i]) by {
        assert((a + b)[i] == a[i]);
    }
    assert forall|j: int| 0 <= j < b.len() implies stands_for(toks[pos + a.len() + j], #[trigger] b[j]) by {
        assert((a + b)[a.len() + j] == b[j]);
    }
}

pub proof fn lemma_spells_join(toks: Seq<Token>, pos: int, a: Seq<Lexeme>, b: Seq<Lexeme>)
    requires
        spells(toks, pos, a),
        spells(toks, pos + a.len(), b),
    ensures
        spells(toks, pos, a + b),
{
    assert forall|i: int| 0 <= i < (a + b).len() implies stands_for(toks[pos + i], #[trigger] (a + b)[i]) by {
        if i < a.len() {
            assert(stands_for(toks[pos + i], a[i]));
        } else {
            assert(stands_for(toks[pos + a.len() + (i - a.len())], b[i - a.len()]));
        }
    }
}

pub open spec fn p(x: Punct) -> Lexeme {
    Lexeme::Punct(x)
}

pub open spec fn primitive_word(x: Primitive) -> Seq<char> {
    match x {
        Primitive::Int8 => "i8"@,
        Primitive::Int16 => "i16"@,
        Primitive::Int32 => "i32"@,
        Primitive::Int64 => "i64"@,
        Primitive::UInt8 => "u8"@,
        Primitive::UInt16 => "u16"@,
        Primitive::UInt32 => "u32"@,
        Primitive::UInt64 => "u64"@,
        Primitive::Float32 => "f32"@,
        Primitive::Float64 => "f64"@,
        Primitive::Boolean => "bool"@,
        Primitive::String => "str"@,
        Primitive::Bytes => "bytes"@,
        Primitive::Any => "any"@,
    }
}

pub open spec fn render_major(v: MajorVersion) -> Seq<Lexeme> {
    seq![p(Punct::LParen), Lexeme::Int(v.0 as nat), p(Punct::RParen)]
}

pub open spec fn render_adjustments(s: Seq<IncludeItemView>) -> Seq<Lexeme>
    decreases s.len(),
{
    if s.len() == 0 {
        Seq::empty()
    } else {
        let (d, name) = match s[0] {
            IncludeItemView::Add(n) => ("add"@, n),
            IncludeItemView::Rem(n) => ("rem"@, n),
        };
        seq![p(Punct::At), Lexeme::Word(d), p(Punct::LParen), Lexeme::Word(name), p(Punct::RParen), p(Punct::Comma)]
            + render_adjustments(s.drop_first())
    }
}

/// An include after `@ ver`: its version, and its adjustments in braces
/// when there are any.
pub open spec fn render_include_body(i: IncludeView) -> Seq<Lexeme> {
    render_major(i.version) + (if i.items.len() == 0 {
        Seq::empty()
    } else {
        seq![p(Punct::LBrace)] + render_adjustments(i.items) + seq![p(Punct::RBrace)]
    })
}

pub open spec fn render_field_type(t: FieldTypeView) -> Seq<Lexeme>
    decreases t,
{
    match t {
        FieldTypeView::Primitive(x) => seq![Lexeme::Word(primitive_word(x))],
        FieldTypeView::Type(n, second, v) => seq![Lexeme::Word(n)] + (match second {
            Some(s) => seq![p(Punct::PathSep), Lexeme::Word(s)],
            None => Seq::empty(),
        }) + (match v {
            Some(m) => seq![p(Punct::At), Lexeme::Word("ver"@)] + render_major(m),
            None => Seq::empty(),
        }),
        FieldTypeView::Optional(b) => seq![p(Punct::Question)] + render_field_type(*b),
        FieldTypeView::Reference(b) => seq![p(Punct::Amp)] + render_field_type(*b),
        FieldTypeView::Array(b, n) => seq![p(Punct::LBracket)] + render_field_type(*b) + seq![
            p(Punct::Semi),
            Lexeme::Int(n as nat),
            p(Punct::RBracket),
        ],
        FieldTypeView::List(b) => seq![p(Punct::LBracket)] + render_field_type(*b) + seq![p(Punct::RBracket)],
        FieldTypeView::Mapping(k, v) => seq![p(Punct::LBracket)] + render_field_type(*k) + seq![
            p(Punct::Colon),
        ] + render_field_type(*v) + seq![p(Punct::RBracket)],
        FieldTypeView::Tuple(items) => seq![p(Punct::LParen)] + render_tuple_items(items) + seq![
            p(Punct::RParen),
        ],
    }
}

/// A minor-version tag with directive `d`.
pub open spec fn render_tag(d: Seq<char>, v: Option<crate::ast::MinorVersion>) -> Seq<Lexeme> {
    match v {
        Some(m) => seq![
            p(Punct::At),
            Lexeme::Word(d),
            p(Punct::LParen),
            Lexeme::Decimal(m.0, m.1),
            p(Punct::RParen),
        ],
        None => Seq::empty(),
    }
}

/// Each tuple item followed by a comma.
pub open spec fn render_tuple_items(s: Seq<ItemView<TupleFieldView>>) -> Seq<Lexeme>
    decreases s,
{
    if s.len() == 0 {
        Seq::empty()
    } else {
        let first = match s[0] {
            ItemView::Include(i) => seq![p(Punct::At), Lexeme::Word("ver"@)] + render_include_body(i),
            ItemView::Field(f) => render_tag("add"@, f.version) + render_field_type(f.field_type),
        };
        first + seq![p(Punct::Comma)] + render_tuple_items(s.subrange(1, s.len() as int))
    }
}

/// A named type never names a primitive, at any depth.
pub open spec fn wf_field_type(t: FieldTypeView) -> bool
    decreases t,
{
    match t {
        FieldTypeView::Primitive(_) => true,
        FieldTypeView::Type(n, _, _) => primitive_of(n) is None,
        FieldTypeView::Optional(b) => wf_field_type(*b),
        FieldTypeView::Reference(b) => wf_field_type(*b),
        FieldTypeView::Array(b, _) => wf_field_type(*b),
        FieldTypeView::List(b) => wf_field_type(*b),
        FieldTypeView::Mapping(k, v) => wf_field_type(*k) && wf_field_type(*v),
        FieldTypeView::Tuple(items) => wf_tuple_items(items),
    }
}

pub open spec fn wf_tuple_items(s: Seq<ItemView<TupleFieldView>>) -> bool
    decreases s,
{
    if s.len() == 0 {
        true
    } else {
        (match s[0] {
            ItemView::Include(_) => true,
            ItemView::Field(f) => wf_field_type(f.field_type),
        }) && wf_tuple_items(s.subrange(1, s.len() as int))
    }
}

/// The type ends in a named type without a pinned version, which a
/// following `::` or `@` would extend.
pub open spec fn ends_open(t: FieldTypeView) -> bool
    decreases t,
{
    match t {
        FieldTypeView::Type(_, _, None) => true,
        FieldTypeView::Optional(b) => ends_open(*b),
        FieldTypeView::Reference(b) => ends_open(*b),
        _ => false,
    }
}

pub open spec fn closed_by(toks: Seq<Token>, q: int) -> bool {
    !is_punct(toks, q, Punct::At) && !is_punct(toks, q, Punct::PathSep)
}

proof fn lemma_primitive_word(x: Primitive)
    ensures
        primitive_of(primitive_word(x)) == Some(x),
{
    reveal_strlit("i8");
    reveal_strlit("i16");
    reveal_strlit("i32");
    reveal_strlit("i64");
    reveal_strlit("u8");
    reveal_strlit("u16");
    reveal_strlit("u32");
    reveal_strlit("u64");
    reveal_strlit("f32");
    reveal_strlit("f64");
    reveal_strlit("bool");
    reveal_strlit("str");
    reveal_strlit("bytes");
    reveal_strlit("any");
    assert("i8"@.len() == 2 && "i8"@[0] == 'i' && "i8"@[1] == '8');
    assert("i16"@.len() == 3 && "i16"@[0] == 'i' && "i16"@[1] == '1' && "i16"@[2] == '6');
    assert("i32"@.len() == 3 && "i32"@[0] == 'i' && "i32"@[1] == '3' && "i32"@[2] == '2');
    assert("i64"@.len() == 3 && "i64"@[0] == 'i' && "i64"@[1] == '6' && "i64"@[2] == '4');
    assert("u8"@.len() == 2 && "u8"@[0] == 'u' && "u8"@[1] == '8');
    assert("u16"@.len() == 3 && "u16"@[0] == 'u' && "u16"@[1] == '1' && "u16"@[2] == '6');
    assert("u32"@.len() == 3 && "u32"@[0] == 'u' && "u32"@[1] == '3' && "u32"@[2] == '2');
    assert("u64"@.len() == 3 && "u64"@[0] == 'u' && "u64"@[1] == '6' && "u64"@[2] == '4');
    assert("f32"@.len() == 3 && "f32"@[0] == 'f' && "f32"@[1] == '3' && "f32"@[2] == '2');
    assert("f64"@.len() == 3 && "f64"@[0] == 'f' && "f64"@[1] == '6' && "f64"@[2] == '4');
    assert("bool"@.len() == 4 && "bool"@[0] == 'b' && "bool"@[1] == 'o' && "bool"@[2] == 'o' && "bool"@[3] == 'l');
    assert("str"@.len() == 3 && "str"@[0] == 's' && "str"@[1] == 't' && "str"@[2] == 'r');
    assert("bytes"@.len() == 5 && "bytes"@[0] == 'b' && "bytes"@[1] == 'y' && "bytes"@[2] == 't' && "bytes"@[3] == 'e' && "bytes"@[4] == 's');
    assert("any"@.len() == 3 && "any"@[0] == 'a' && "any"@[1] == 'n' && "any"@[2] == 'y');
}

proof fn lemma_words_differ()
    ensures
        "ver"@ != "add"@,
        "ver"@ != "rem"@,
        "add"@ != "rem"@,
{
    reveal_strlit("ver");
    reveal_strlit("add");
    reveal_strlit("rem");
    assert("ver"@[0] != "add"@[0]);
    assert("ver"@[0] != "rem"@[0]);
    assert("add"@[0] != "rem"@[0]);
}

proof fn lemma_major_round_trip(toks: Seq<Token>, pos: int, v: MajorVersion)
    requires
        spells(toks, pos, render_major(v)),
    ensures
        crate::grammar::major_version(toks, pos) == Ok::<(MajorVersion, int), crate::token::ParseError>(
            (v, pos + 3),
        ),
{
    assert(stands_for(toks[pos + 0], render_major(v)[0]));
    assert(stands_for(toks[pos + 1], render_major(v)[1]));
    assert(stands_for(toks[pos + 2], render_major(v)[2]));
}

proof fn lemma_adjustments_round_trip(toks: Seq<Token>, pos: int, acc: Seq<IncludeItemView>, s: Seq<IncludeItemView>)
    requires
        spells(toks, pos, render_adjustments(s) + seq![p(Punct::RBrace)]),
    ensures
        include_items(toks, pos, acc) == Ok::<(Seq<IncludeItemView>, int), crate::token::ParseError>(
            (acc + s, pos + render_adjustments(s).len() + 1),
        ),
    decreases s.len(),
{
    lemma_words_differ();
    reveal_strlit("add");
    reveal_strlit("rem");
    let r = render_adjustments(s) + seq![p(Punct::RBrace)];
    if s.len() == 0 {
        assert(stands_for(toks[pos + 0], r[0]));
        assert(acc + s =~= acc);
    } else {
        let head = render_adjustments(s) .subrange(0, 6);
        let tail = render_adjustments(s.drop_first());
        assert(render_adjustments(s) =~= head + tail);
        assert(r =~= head + (tail + seq![p(Punct::RBrace)]));
        lemma_spells_split(toks, pos, head, tail + seq![p(Punct::RBrace)]);
        assert(stands_for(toks[pos + 0], head[0]));
        assert(stands_for(toks[pos + 1], head[1]));
        assert(stands_for(toks[pos + 2], head[2]));
        assert(stands_for(toks[pos + 3], head[3]));
        assert(stands_for(toks[pos + 4], head[4]));
        assert(stands_for(toks[pos + 5], head[5]));
        lemma_adjustments_round_trip(toks, pos + 6, acc.push(s[0]), s.drop_first());
        assert(acc.push(s[0]) + s.drop_first() =~= acc + s);
    }
}

proof fn lemma_include_round_trip(toks: Seq<Token>, pos: int, i: IncludeView)
    requires
        spells(toks, pos, render_include_body(i)),
        i.items.len() == 0 ==> !is_punct(toks, pos + 3, Punct::LBrace),
    ensures
        include_body(toks, pos) == Ok::<(IncludeView, int), crate::token::ParseError>(
            (i, pos + render_include_body(i).len()),
        ),
{
    let rest = if i.items.len() == 0 {
        Seq::empty()
    } else {
        seq![p(Punct::LBrace)] + render_adjustments(i.items) + seq![p(Punct::RBrace)]
    };
    lemma_spells_split(toks, pos, render_major(i.version), rest);
    lemma_major_round_trip(toks, pos, i.version);
    if i.items.len() > 0 {
        assert(rest =~= seq![p(Punct::LBrace)] + (render_adjustments(i.items) + seq![p(Punct::RBrace)]));
        lemma_spells_split(toks, pos + 3, seq![p(Punct::LBrace)], render_adjustments(i.items) + seq![p(Punct::RBrace)]);
        assert(stands_for(toks[pos + 3], seq![p(Punct::LBrace)][0]));
        lemma_adjustments_round_trip(toks, pos + 4, Seq::empty(), i.items);
        assert(Seq::<IncludeItemView>::empty() + i.items =~= i.items);
    } else {
        assert(i.items =~= Seq::<IncludeItemView>::empty());
    }
}

proof fn lemma_render_starts(t: FieldTypeView)
    ensures
        render_field_type(t).len() > 0,
        render_field_type(t)[0] is Word || render_field_type(t)[0] == p(Punct::Question)
            || render_field_type(t)[0] == p(Punct::Amp) || render_field_type(t)[0] == p(Punct::LBracket)
            || render_field_type(t)[0] == p(Punct::LParen),
{
}

/// Tokens spelling the rendering of a well-formed field type parse back to
/// it, provided that a type ending in an unpinned name is not followed by
/// `::` or `@`.
pub proof fn lemma_field_type_round_trip(toks: Seq<Token>, pos: int, t: FieldTypeView)
    requires
        wf_field_type(t),
        spells(toks, pos, render_field_type(t)),
        ends_open(t) ==> closed_by(toks, pos + render_field_type(t).len()),
    ensures
        field_type(toks, pos) == Ok::<(FieldTypeView, int), crate::token::ParseError>(
            (t, pos + render_field_type(t).len()),
        ),
    decreases t,
{
    let r = render_field_type(t);
    assert(stands_for(toks[pos + 0], r[0]));
    match t {
        FieldTypeView::Primitive(x) => {
            lemma_primitive_word(x);
        },
        FieldTypeView::Type(n, second, v) => {
            let a: Seq<Lexeme> = seq![Lexeme::Word(n)];
            let b: Seq<Lexeme> = match second {
                Some(s2) => seq![p(Punct::PathSep), Lexeme::Word(s2)],
                None => Seq::empty(),
            };
            let c: Seq<Lexeme> = match v {
                Some(m) => seq![p(Punct::At), Lexeme::Word("ver"@)] + render_major(m),
                None => Seq::empty(),
            };
            assert(r == a + b + c);
            lemma_spells_split(toks, pos, a + b, c);
            lemma_spells_split(toks, pos, a, b);
            if b.len() > 0 {
                assert(stands_for(toks[pos + 1], b[0]));
                assert(stands_for(toks[pos + 2], b[1]));
            }
            let k = pos + 1 + b.len();
            if let Some(m) = v {
                lemma_spells_split(toks, k, seq![p(Punct::At), Lexeme::Word("ver"@)], render_major(m));
                assert(stands_for(toks[k + 0], c[0]));
                assert(stands_for(toks[k + 1], c[1]));
                lemma_major_round_trip(toks, k + 2, m);
            }
        },
        FieldTypeView::Optional(b) => {
            lemma_spells_split(toks, pos, seq![p(Punct::Question)], render_field_type(*b));
            lemma_field_type_round_trip(toks, pos + 1, *b);
        },
        FieldTypeView::Reference(b) => {
            lemma_spells_split(toks, pos, seq![p(Punct::Amp)], render_field_type(*b));
            lemma_field_type_round_trip(toks, pos + 1, *b);
        },
        FieldTypeView::Array(b, n) => {
            let rb = render_field_type(*b);
            let tail: Seq<Lexeme> = seq![p(Punct::Semi), Lexeme::Int(n as nat), p(Punct::RBracket)];
            lemma_spells_split(toks, pos, seq![p(Punct::LBracket)] + rb, tail);
            lemma_spells_split(toks, pos, seq![p(Punct::LBracket)], rb);
            let q = pos + 1 + rb.len();
            assert(stands_for(toks[q + 0], tail[0]));
            assert(stands_for(toks[q + 1], tail[1]));
            assert(stands_for(toks[q + 2], tail[2]));
            lemma_field_type_round_trip(toks, pos + 1, *b);
        },
        FieldTypeView::List(b) => {
            let rb = render_field_type(*b);
            let tail: Seq<Lexeme> = seq![p(Punct::RBracket)];
            lemma_spells_split(toks, pos, seq![p(Punct::LBracket)] + rb, tail);
            lemma_spells_split(toks, pos, seq![p(Punct::LBracket)], rb);
            let q = pos + 1 + rb.len();
            assert(stands_for(toks[q + 0], tail[0]));
            lemma_field_type_round_trip(toks, pos + 1, *b);
        },
        FieldTypeView::Mapping(k, v) => {
            let rk = render_field_type(*k);
            let rv = render_field_type(*v);
            let colon: Seq<Lexeme> = seq![p(Punct::Colon)];
            let close: Seq<Lexeme> = seq![p(Punct::RBracket)];
            lemma_spells_split(toks, pos, seq![p(Punct::LBracket)] + rk + colon + rv, close);
            lemma_spells_split(toks, pos, seq![p(Punct::LBracket)] + rk + colon, rv);
            lemma_spells_split(toks, pos, seq![p(Punct::LBracket)] + rk, colon);
            lemma_spells_split(toks, pos, seq![p(Punct::LBracket)], rk);
            let q = pos + 1 + rk.len();
            assert(stands_for(toks[q + 0], colon[0]));
            let e = q + 1 + rv.len();
            assert(stands_for(toks[e + 0], close[0]));
            lemma_field_type_round_trip(toks, pos + 1, *k);
            lemma_field_type_round_trip(toks, q + 1, *v);
        },
        FieldTypeView::Tuple(items) => {
            let ri = render_tuple_items(items);
            assert(r =~= seq![p(Punct::LParen)] + (ri + seq![p(Punct::RParen)]));
            lemma_spells_split(toks, pos, seq![p(Punct::LParen)], ri + seq![p(Punct::RParen)]);
            lemma_tuple_round_trip(toks, pos + 1, Seq::empty(), items);
            assert(Seq::<ItemView<TupleFieldView>>::empty() + items =~= items);
        },
    }
}

/// Tokens spelling a rendered tuple item list and its `)` parse back to it.
pub proof fn lemma_tuple_round_trip(
    toks: Seq<Token>,
    pos: int,
    acc: Seq<ItemView<TupleFieldView>>,
    items: Seq<ItemView<TupleFieldView>>,
)
    requires
        wf_tuple_items(items),
        spells(toks, pos, render_tuple_items(items) + seq![p(Punct::RParen)]),
    ensures
        tuple_items(toks, pos, acc) == Ok::<(Seq<ItemView<TupleFieldView>>, int), crate::token::ParseError>(
            (acc + items, pos + render_tuple_items(items).len() + 1),
        ),
    decreases items,
{
    let whole = render_tuple_items(items) + seq![p(Punct::RParen)];
    if items.len() == 0 {
        assert(stands_for(toks[pos + 0], whole[0]));
        assert(acc + items =~= acc);
    } else {
        let rest = items.subrange(1, items.len() as int);
        let first = match items[0] {
            ItemView::Include(i) => seq![p(Punct::At), Lexeme::Word("ver"@)] + render_include_body(i),
            ItemView::Field(f) => render_tag("add"@, f.version) + render_field_type(f.field_type),
        };
        let tail = render_tuple_items(rest) + seq![p(Punct::RParen)];
        assert(whole =~= first + (seq![p(Punct::Comma)] + tail));
        lemma_spells_split(toks, pos, first, seq![p(Punct::Comma)] + tail);
        lemma_spells_split(toks, pos + first.len(), seq![p(Punct::Comma)], tail);
        let q = pos + first.len();
        assert(stands_for(toks[q + 0], (seq![p(Punct::Comma)] + tail)[0]));
        lemma_words_differ();
        reveal_strlit("add");
        match items[0] {
            ItemView::Include(i) => {
                let body = render_include_body(i);
                lemma_spells_split(toks, pos, seq![p(Punct::At), Lexeme::Word("ver"@)], body);
                assert(stands_for(toks[pos + 0], first[0]));
                assert(stands_for(toks[pos + 1], first[1]));
                lemma_include_round_trip(toks, pos + 2, i);
            },
            ItemView::Field(f) => {
                let tag = render_tag("add"@, f.version);
                lemma_spells_split(toks, pos, tag, render_field_type(f.field_type));
                lemma_render_starts(f.field_type);
                assert(stands_for(toks[pos + tag.len()], render_field_type(f.field_type)[0]));
                if let Some(m) = f.version {
                    assert(stands_for(toks[pos + 0], tag[0]));
                    assert(stands_for(toks[pos + 1], tag[1]));
                    assert(stands_for(toks[pos + 2], tag[2]));
                    assert(stands_for(toks[pos + 3], tag[3]));
                    assert(stands_for(toks[pos + 4], tag[4]));
                    assert(directive_word(crate::token::allowed_directive(crate::token::Container::TupleFields)) == "add"@);
                }
                lemma_field_type_round_trip(toks, pos + tag.len(), f.field_type);
            },
        }
        lemma_tuple_round_trip(toks, q + 1, acc.push(items[0]), rest);
        assert(acc.push(items[0]) + rest =~= acc + items);
    }
}

pub open spec fn render_struct_item(it: ItemView<StructFieldView>) -> Seq<Lexeme> {
    match it {
        ItemView::Include(i) => seq![p(Punct::At), Lexeme::Word("ver"@)] + render_include_body(i),
        ItemView::Field(f) => render_tag("add"@, f.version) + seq![Lexeme::Word(f.name), p(Punct::Colon)]
            + render_field_type(f.field_type),
    }
}

pub open spec fn render_struct_items(s: Seq<ItemView<StructFieldView>>) -> Seq<Lexeme>
    decreases s.len(),
{
    if s.len() == 0 {
        Seq::empty()
    } else {
        render_struct_item(s[0]) + seq![p(Punct::Comma)] + render_struct_items(s.drop_first())
    }
}

pub open spec fn wf_struct_items(s: Seq<ItemView<StructFieldView>>) -> bool {
    forall|i: int| 0 <= i < s.len() ==> match #[trigger] s[i] {
        ItemView::Field(f) => wf_field_type(f.field_type),
        ItemView::Include(_) => true,
    }
}

pub open spec fn render_enum_item(it: ItemView<EnumFieldView>) -> Seq<Lexeme> {
    match it {
        ItemView::Include(i) => seq![p(Punct::At), Lexeme::Word("ver"@)] + render_include_body(i),
        ItemView::Field(f) => render_tag("rem"@, f.version) + seq![Lexeme::Word(f.name)] + match f.value {
            Some(n) => seq![p(Punct::Eq), Lexeme::Int(n as nat)],
            None => Seq::empty(),
        },
    }
}

pub open spec fn render_enum_items(s: Seq<ItemView<EnumFieldView>>) -> Seq<Lexeme>
    decreases s.len(),
{
    if s.len() == 0 {
        Seq::empty()
    } else {
        render_enum_item(s[0]) + seq![p(Punct::Comma)] + render_enum_items(s.drop_first())
    }
}

/// A struct body; a unit body is `;` after a struct and nothing after a
/// union variant.
pub open spec fn render_body(b: StructBodyView, in_union: bool) -> Seq<Lexeme> {
    match b {
        StructBodyView::Items(items) => seq![p(Punct::LBrace)] + render_struct_items(items) + seq![p(Punct::RBrace)],
        StructBodyView::Tuple(items) => seq![p(Punct::LParen)] + render_tuple_items(items) + seq![p(Punct::RParen)],
        StructBodyView::Unit => if in_union {
            Seq::empty()
        } else {
            seq![p(Punct::Semi)]
        },
    }
}

pub open spec fn wf_body(b: StructBodyView) -> bool {
    match b {
        StructBodyView::Items(items) => wf_struct_items(items),
        StructBodyView::Tuple(items) => wf_tuple_items(items),
        StructBodyView::Unit => true,
    }
}

pub open spec fn render_union_item(it: ItemView<UnionFieldView>) -> Seq<Lexeme> {
    match it {
        ItemView::Include(i) => seq![p(Punct::At), Lexeme::Word("ver"@)] + render_include_body(i),
        ItemView::Field(f) => render_tag("rem"@, f.version) + seq![Lexeme::Word(f.name)] + render_body(f.body, true),
    }
}

pub open spec fn render_union_items(s: Seq<ItemView<UnionFieldView>>) -> Seq<Lexeme>
    decreases s.len(),
{
    if s.len() == 0 {
        Seq::empty()
    } else {
        render_union_item(s[0]) + seq![p(Punct::Comma)] + render_union_items(s.drop_first())
    }
}

pub open spec fn wf_union_items(s: Seq<ItemView<UnionFieldView>>) -> bool {
    forall|i: int| 0 <= i < s.len() ==> match #[trigger] s[i] {
        ItemView::Field(f) => wf_body(f.body),
        ItemView::Include(_) => true,
    }
}

pub open spec fn render_struct_decl(x: StructView) -> Seq<Lexeme> {
    seq![Lexeme::Word(x.name)] + render_body(x.body, false)
}

pub open spec fn render_union_decl(x: UnionView) -> Seq<Lexeme> {
    seq![Lexeme::Word(x.name), p(Punct::LBrace)] + render_union_items(x.items) + seq![p(Punct::RBrace)]
}

pub open spec fn render_enum_decl(x: EnumView) -> Seq<Lexeme> {
    seq![Lexeme::Word(x.name), p(Punct::LBrace)] + render_enum_items(x.items) + seq![p(Punct::RBrace)]
}

pub open spec fn render_function_decl(x: FunctionView) -> Seq<Lexeme> {
    seq![Lexeme::Word(x.name), p(Punct::LParen)] + render_struct_items(x.items) + seq![p(Punct::RParen)] + match x.return_type {
        Some(t) => seq![p(Punct::Arrow)] + render_field_type(t),
        None => Seq::empty(),
    }
}

pub open spec fn render_command_decl(x: CommandView) -> Seq<Lexeme> {
    seq![Lexeme::Word(x.name), p(Punct::LParen)] + render_struct_items(x.items) + seq![p(Punct::RParen)]
}

pub open spec fn type_version(t: TypeView) -> MajorVersion {
    match t {
        TypeView::Object(ObjectView::Struct(x)) => x.version,
        TypeView::Object(ObjectView::Union(x)) => x.version,
        TypeView::Object(ObjectView::Enum(x)) => x.version,
        TypeView::Struct(x) => x.version,
        TypeView::Union(x) => x.version,
        TypeView::Enum(x) => x.version,
        TypeView::Function(x) => x.version,
        TypeView::Command(x) => x.version,
    }
}

/// A declaration: `@ ver (v)`, its keyword and its body.
pub open spec fn render_type(t: TypeView) -> Seq<Lexeme> {
    seq![p(Punct::At), Lexeme::Word("ver"@)] + render_major(type_version(t)) + match t {
        TypeView::Object(ObjectView::Struct(x)) => seq![
            Lexeme::Word("obj"@),
            p(Punct::LParen),
            Lexeme::Word("struct"@),
            p(Punct::RParen),
        ] + render_struct_decl(x),
        TypeView::Object(ObjectView::Union(x)) => seq![
            Lexeme::Word("obj"@),
            p(Punct::LParen),
            Lexeme::Word("union"@),
            p(Punct::RParen),
        ] + render_union_decl(x),
        TypeView::Object(ObjectView::Enum(x)) => seq![
            Lexeme::Word("obj"@),
            p(Punct::LParen),
            Lexeme::Word("enum"@),
            p(Punct::RParen),
        ] + render_enum_decl(x),
        TypeView::Struct(x) => seq![Lexeme::Word("struct"@)] + render_struct_decl(x),
        TypeView::Union(x) => seq![Lexeme::Word("union"@)] + render_union_decl(x),
        TypeView::Enum(x) => seq![Lexeme::Word("enum"@)] + render_enum_decl(x),
        TypeView::Function(x) => seq![Lexeme::Word("fn"@)] + render_function_decl(x),
        TypeView::Command(x) => seq![Lexeme::Word("cmd"@)] + render_command_decl(x),
    }
}

/// A function whose return type ends in an unpinned name: a following
/// declaration's `@ver(..)` would be read as that name's pin.
pub open spec fn open_ended(t: TypeView) -> bool {
    match t {
        TypeView::Function(x) => match x.return_type {
            Some(r) => ends_open(r),
            None => false,
        },
        _ => false,
    }
}

pub open spec fn wf_type(t: TypeView) -> bool {
    match t {
        TypeView::Object(ObjectView::Struct(x)) => wf_body(x.body),
        TypeView::Object(ObjectView::Union(x)) => wf_union_items(x.items),
        TypeView::Object(ObjectView::Enum(_)) => true,
        TypeView::Struct(x) => wf_body(x.body),
        TypeView::Union(x) => wf_union_items(x.items),
        TypeView::Enum(_) => true,
        TypeView::Function(x) => wf_struct_items(x.items) && match x.return_type {
            Some(r) => wf_field_type(r),
            None => true,
        },
        TypeView::Command(x) => wf_struct_items(x.items),
    }
}

pub open spec fn render_path_tail(s: Seq<Seq<char>>) -> Seq<Lexeme>
    decreases s.len(),
{
    if s.len() == 0 {
        Seq::empty()
    } else {
        seq![p(Punct::PathSep), Lexeme::Word(s[0])] + render_path_tail(s.drop_first())
    }
}

pub open spec fn render_alias(a: Option<Seq<char>>) -> Seq<Lexeme> {
    match a {
        Some(a) => seq![Lexeme::Word("as"@), Lexeme::Word(a)],
        None => Seq::empty(),
    }
}

/// An import: `use`, its path, its alias if any, and `;`.
pub open spec fn render_use(u: UseView) -> Seq<Lexeme> {
    seq![Lexeme::Word("use"@), Lexeme::Word(u.segments[0])] + render_path_tail(u.segments.drop_first())
        + render_alias(u.alias) + seq![p(Punct::Semi)]
}

proof fn lemma_tag_round_trip(toks: Seq<Token>, pos: int, c: crate::token::Container, d: Seq<char>, v: Option<crate::ast::MinorVersion>, next: Lexeme)
    requires
        d == directive_word(crate::token::allowed_directive(c)),
        spells(toks, pos, render_tag(d, v) + seq![next]),
        next is Word,
    ensures
        prefix(toks, pos, c) == Ok::<(PrefixView, int), crate::token::ParseError>(
            (
                match v {
                    Some(m) => PrefixView::Minor(m),
                    None => PrefixView::Plain,
                },
                pos + render_tag(d, v).len(),
            ),
        ),
{
    let r = render_tag(d, v) + seq![next];
    lemma_words_differ();
    reveal_strlit("add");
    reveal_strlit("rem");
    assert(stands_for(toks[pos + 0], r[0]));
    if let Some(m) = v {
        assert(stands_for(toks[pos + 1], r[1]));
        assert(stands_for(toks[pos + 2], r[2]));
        assert(stands_for(toks[pos + 3], r[3]));
        assert(stands_for(toks[pos + 4], r[4]));
    }
}

proof fn lemma_struct_item_round_trip(toks: Seq<Token>, pos: int, c: crate::token::Container, it: ItemView<StructFieldView>)
    requires
        crate::token::add_allowed(c),
        match it {
            ItemView::Field(f) => wf_field_type(f.field_type),
            ItemView::Include(_) => true,
        },
        spells(toks, pos, render_struct_item(it) + seq![p(Punct::Comma)]),
    ensures
        toks[pos].kind is Word || toks[pos].kind == TokenKind::Punct(Punct::At),
        ({
            let n = pos + render_struct_item(it).len();
            match prefix(toks, pos, c) {
                Ok((PrefixView::Include(i), q)) => ItemView::<StructFieldView>::Include(i) == it && q == n,
                Ok((pre, q)) => crate::grammar::struct_field(toks, q, crate::grammar::prefix_version(pre))
                    == Ok::<(ItemView<StructFieldView>, int), crate::token::ParseError>((it, n)),
                Err(_) => false,
            }
        }),
{
    let first = render_struct_item(it);
    lemma_spells_split(toks, pos, first, seq![p(Punct::Comma)]);
    assert(stands_for(toks[pos + first.len()], seq![p(Punct::Comma)][0]));
    assert(stands_for(toks[pos + 0], first[0]));
    lemma_words_differ();
    reveal_strlit("add");
    match it {
        ItemView::Include(i) => {
            lemma_spells_split(toks, pos, seq![p(Punct::At), Lexeme::Word("ver"@)], render_include_body(i));
            assert(stands_for(toks[pos + 1], first[1]));
            lemma_include_round_trip(toks, pos + 2, i);
        },
        ItemView::Field(f) => {
            let tag = render_tag("add"@, f.version);
            let named = seq![Lexeme::Word(f.name), p(Punct::Colon)];
            assert(first =~= tag + (named + render_field_type(f.field_type)));
            lemma_spells_split(toks, pos, tag, named + render_field_type(f.field_type));
            lemma_spells_split(toks, pos + tag.len(), named, render_field_type(f.field_type));
            assert(stands_for(toks[pos + tag.len() + 0], named[0]));
            assert(stands_for(toks[pos + tag.len() + 1], named[1]));
            lemma_spells_join(toks, pos, tag, seq![named[0]]);
            lemma_tag_round_trip(toks, pos, c, "add"@, f.version, named[0]);
            lemma_field_type_round_trip(toks, pos + tag.len() + 2, f.field_type);
        },
    }
}

/// Tokens spelling rendered named fields and the closing delimiter parse
/// back to them, in any list that allows `add`.
#[verifier::rlimit(100)]
pub proof fn lemma_struct_items_round_trip(
    toks: Seq<Token>,
    pos: int,
    c: crate::token::Container,
    close: Punct,
    acc: Seq<ItemView<StructFieldView>>,
    items: Seq<ItemView<StructFieldView>>,
)
    requires
        crate::token::add_allowed(c),
        close == Punct::RParen || close == Punct::RBrace,
        wf_struct_items(items),
        spells(toks, pos, render_struct_items(items) + seq![p(close)]),
    ensures
        struct_items(toks, pos, c, close, acc) == Ok::<(Seq<ItemView<StructFieldView>>, int), crate::token::ParseError>(
            (acc + items, pos + render_struct_items(items).len() + 1),
        ),
    decreases items.len(),
{
    let whole = render_struct_items(items) + seq![p(close)];
    if items.len() == 0 {
        assert(stands_for(toks[pos + 0], whole[0]));
        assert(acc + items =~= acc);
    } else {
        let rest = items.drop_first();
        let first = render_struct_item(items[0]);
        let tail = render_struct_items(rest) + seq![p(close)];
        assert(whole =~= (first + seq![p(Punct::Comma)]) + tail);
        lemma_spells_split(toks, pos, first + seq![p(Punct::Comma)], tail);
        assert(wf_struct_items(items) ==> match items[0] {
            ItemView::Field(f) => wf_field_type(f.field_type),
            ItemView::Include(_) => true,
        });
        lemma_struct_item_round_trip(toks, pos, c, items[0]);
        let q = pos + first.len();
        assert(first.len() >= 2);
        assert(stands_for(toks[pos + first.len()], (first + seq![p(Punct::Comma)])[first.len() as int]));
        assert(is_punct(toks, q, Punct::Comma));
        assert(!is_punct(toks, pos, close));
        assert(wf_struct_items(rest)) by {
            assert forall|i: int| 0 <= i < rest.len() implies match #[trigger] rest[i] {
                ItemView::Field(f) => wf_field_type(f.field_type),
                ItemView::Include(_) => true,
            } by {
                assert(rest[i] == items[i + 1]);
            }
        }
        lemma_struct_items_round_trip(toks, q + 1, c, close, acc.push(items[0]), rest);
        assert(acc.push(items[0]) + rest =~= acc + items);
    }
}

proof fn lemma_enum_item_round_trip(toks: Seq<Token>, pos: int, it: ItemView<EnumFieldView>)
    requires
        spells(toks, pos, render_enum_item(it) + seq![p(Punct::Comma)]),
    ensures
        toks[pos].kind is Word || toks[pos].kind == TokenKind::Punct(Punct::At),
        render_enum_item(it).len() >= 1,
        ({
            let n = pos + render_enum_item(it).len();
            match prefix(toks, pos, crate::token::Container::EnumMembers) {
                Ok((PrefixView::Include(i), q)) => ItemView::<EnumFieldView>::Include(i) == it && q == n,
                Ok((pre, q)) => crate::grammar::enum_field(toks, q, crate::grammar::prefix_version(pre))
                    == Ok::<(ItemView<EnumFieldView>, int), crate::token::ParseError>((it, n)),
                Err(_) => false,
            }
        }),
{
    let first = render_enum_item(it);
    lemma_spells_split(toks, pos, first, seq![p(Punct::Comma)]);
    assert(stands_for(toks[pos + first.len()], seq![p(Punct::Comma)][0]));
    assert(stands_for(toks[pos + 0], first[0]));
    lemma_words_differ();
    reveal_strlit("rem");
    match it {
        ItemView::Include(i) => {
            lemma_spells_split(toks, pos, seq![p(Punct::At), Lexeme::Word("ver"@)], render_include_body(i));
            assert(stands_for(toks[pos + 1], first[1]));
            lemma_include_round_trip(toks, pos + 2, i);
        },
        ItemView::Field(f) => {
            let tag = render_tag("rem"@, f.version);
            let value: Seq<Lexeme> = match f.value {
                Some(n) => seq![p(Punct::Eq), Lexeme::Int(n as nat)],
                None => Seq::empty(),
            };
            assert(first =~= tag + (seq![Lexeme::Word(f.name)] + value));
            lemma_spells_split(toks, pos, tag, seq![Lexeme::Word(f.name)] + value);
            lemma_spells_split(toks, pos + tag.len(), seq![Lexeme::Word(f.name)], value);
            assert(stands_for(toks[pos + tag.len() + 0], (seq![Lexeme::Word(f.name)] + value)[0]));
            lemma_spells_join(toks, pos, tag, seq![Lexeme::Word(f.name)]);
            lemma_tag_round_trip(toks, pos, crate::token::Container::EnumMembers, "rem"@, f.version, Lexeme::Word(f.name));
            if value.len() > 0 {
                assert(stands_for(toks[pos + tag.len() + 1], value[0]));
                assert(stands_for(toks[pos + tag.len() + 2], value[1]));
            }
        },
    }
}

/// Tokens spelling rendered enum members and `}` parse back to them.
#[verifier::rlimit(100)]
pub proof fn lemma_enum_items_round_trip(
    toks: Seq<Token>,
    pos: int,
    acc: Seq<ItemView<EnumFieldView>>,
    items: Seq<ItemView<EnumFieldView>>,
)
    requires
        spells(toks, pos, render_enum_items(items) + seq![p(Punct::RBrace)]),
    ensures
        enum_items(toks, pos, acc) == Ok::<(Seq<ItemView<EnumFieldView>>, int), crate::token::ParseError>(
            (acc + items, pos + render_enum_items(items).len() + 1),
        ),
    decreases items.len(),
{
    let whole = render_enum_items(items) + seq![p(Punct::RBrace)];
    if items.len() == 0 {
        assert(stands_for(toks[pos + 0], whole[0]));
        assert(acc + items =~= acc);
    } else {
        let rest = items.drop_first();
        let first = render_enum_item(items[0]);
        let tail = render_enum_items(rest) + seq![p(Punct::RBrace)];
        assert(whole =~= (first + seq![p(Punct::Comma)]) + tail);
        lemma_spells_split(toks, pos, first + seq![p(Punct::Comma)], tail);
        lemma_enum_item_round_trip(toks, pos, items[0]);
        let q = pos + first.len();
        assert(stands_for(toks[pos + first.len()], (first + seq![p(Punct::Comma)])[first.len() as int]));
        assert(is_punct(toks, q, Punct::Comma));
        lemma_enum_items_round_trip(toks, q + 1, acc.push(items[0]), rest);
        assert(acc.push(items[0]) + rest =~= acc + items);
    }
}

/// Tokens spelling a rendered struct body parse back to it.
pub proof fn lemma_body_round_trip(toks: Seq<Token>, pos: int, b: StructBodyView, in_union: bool)
    requires
        wf_body(b),
        spells(toks, pos, render_body(b, in_union)),
        in_union && b is Unit ==> is_punct(toks, pos, Punct::Comma),
    ensures
        struct_body(toks, pos, in_union) == Ok::<(StructBodyView, int), crate::token::ParseError>(
            (b, pos + render_body(b, in_union).len()),
        ),
{
    let r = render_body(b, in_union);
    match b {
        StructBodyView::Items(items) => {
            let inner = render_struct_items(items) + seq![p(Punct::RBrace)];
            assert(r =~= seq![p(Punct::LBrace)] + inner);
            lemma_spells_split(toks, pos, seq![p(Punct::LBrace)], inner);
            assert(stands_for(toks[pos + 0], r[0]));
            lemma_struct_items_round_trip(
                toks,
                pos + 1,
                crate::token::Container::StructFields,
                Punct::RBrace,
                Seq::empty(),
                items,
            );
            assert(Seq::<ItemView<StructFieldView>>::empty() + items =~= items);
        },
        StructBodyView::Tuple(items) => {
            let inner = render_tuple_items(items) + seq![p(Punct::RParen)];
            assert(r =~= seq![p(Punct::LParen)] + inner);
            lemma_spells_split(toks, pos, seq![p(Punct::LParen)], inner);
            assert(stands_for(toks[pos + 0], r[0]));
            lemma_tuple_round_trip(toks, pos + 1, Seq::empty(), items);
            assert(Seq::<ItemView<TupleFieldView>>::empty() + items =~= items);
        },
        StructBodyView::Unit => {
            if !in_union {
                assert(stands_for(toks[pos + 0], r[0]));
            }
        },
    }
}

proof fn lemma_union_item_round_trip(toks: Seq<Token>, pos: int, it: ItemView<UnionFieldView>)
    requires
        match it {
            ItemView::Field(f) => wf_body(f.body),
            ItemView::Include(_) => true,
        },
        spells(toks, pos, render_union_item(it) + seq![p(Punct::Comma)]),
    ensures
        toks[pos].kind is Word || toks[pos].kind == TokenKind::Punct(Punct::At),
        render_union_item(it).len() >= 1,
        ({
            let n = pos + render_union_item(it).len();
            match prefix(toks, pos, crate::token::Container::UnionVariants) {
                Ok((PrefixView::Include(i), q)) => ItemView::<UnionFieldView>::Include(i) == it && q == n,
                Ok((pre, q)) => crate::grammar::union_field(toks, q, crate::grammar::prefix_version(pre))
                    == Ok::<(ItemView<UnionFieldView>, int), crate::token::ParseError>((it, n)),
                Err(_) => false,
            }
        }),
{
    let first = render_union_item(it);
    lemma_spells_split(toks, pos, first, seq![p(Punct::Comma)]);
    assert(stands_for(toks[pos + first.len()], seq![p(Punct::Comma)][0]));
    assert(stands_for(toks[pos + 0], first[0]));
    lemma_words_differ();
    reveal_strlit("rem");
    match it {
        ItemView::Include(i) => {
            lemma_spells_split(toks, pos, seq![p(Punct::At), Lexeme::Word("ver"@)], render_include_body(i));
            assert(stands_for(toks[pos + 1], first[1]));
            lemma_include_round_trip(toks, pos + 2, i);
        },
        ItemView::Field(f) => {
            let tag = render_tag("rem"@, f.version);
            let body = render_body(f.body, true);
            assert(first =~= tag + (seq![Lexeme::Word(f.name)] + body));
            lemma_spells_split(toks, pos, tag, seq![Lexeme::Word(f.name)] + body);
            lemma_spells_split(toks, pos + tag.len(), seq![Lexeme::Word(f.name)], body);
            assert(stands_for(toks[pos + tag.len() + 0], (seq![Lexeme::Word(f.name)] + body)[0]));
            lemma_spells_join(toks, pos, tag, seq![Lexeme::Word(f.name)]);
            lemma_tag_round_trip(toks, pos, crate::token::Container::UnionVariants, "rem"@, f.version, Lexeme::Word(f.name));
            lemma_body_round_trip(toks, pos + tag.len() + 1, f.body, true);
        },
    }
}

/// Tokens spelling rendered union variants and `}` parse back to them.
#[verifier::rlimit(100)]
pub proof fn lemma_union_items_round_trip(
    toks: Seq<Token>,
    pos: int,
    acc: Seq<ItemView<UnionFieldView>>,
    items: Seq<ItemView<UnionFieldView>>,
)
    requires
        wf_union_items(items),
        spells(toks, pos, render_union_items(items) + seq![p(Punct::RBrace)]),
    ensures
        union_items(toks, pos, acc) == Ok::<(Seq<ItemView<UnionFieldView>>, int), crate::token::ParseError>(
            (acc + items, pos + render_union_items(items).len() + 1),
        ),
    decreases items.len(),
{
    let whole = render_union_items(items) + seq![p(Punct::RBrace)];
    if items.len() == 0 {
        assert(stands_for(toks[pos + 0], whole[0]));
        assert(acc + items =~= acc);
    } else {
        let rest = items.drop_first();
        let first = render_union_item(items[0]);
        let tail = render_union_items(rest) + seq![p(Punct::RBrace)];
        assert(whole =~= (first + seq![p(Punct::Comma)]) + tail);
        lemma_spells_split(toks, pos, first + seq![p(Punct::Comma)], tail);
        assert(wf_union_items(items) ==> match items[0] {
            ItemView::Field(f) => wf_body(f.body),
            ItemView::Include(_) => true,
        });
        lemma_union_item_round_trip(toks, pos, items[0]);
        let q = pos + first.len();
        assert(stands_for(toks[pos + first.len()], (first + seq![p(Punct::Comma)])[first.len() as int]));
        assert(is_punct(toks, q, Punct::Comma));
        assert(wf_union_items(rest)) by {
            assert forall|i: int| 0 <= i < rest.len() implies match #[trigger] rest[i] {
                ItemView::Field(f) => wf_body(f.body),
                ItemView::Include(_) => true,
            } by {
                assert(rest[i] == items[i + 1]);
            }
        }
        lemma_union_items_round_trip(toks, q + 1, acc.push(items[0]), rest);
        assert(acc.push(items[0]) + rest =~= acc + items);
    }
}

proof fn lemma_struct_decl_round_trip(toks: Seq<Token>, pos: int, x: StructView)
    requires
        wf_body(x.body),
        spells(toks, pos, render_struct_decl(x)),
    ensures
        struct_decl(toks, pos, x.version) == Ok::<(StructView, int), crate::token::ParseError>(
            (x, pos + render_struct_decl(x).len()),
        ),
{
    lemma_spells_split(toks, pos, seq![Lexeme::Word(x.name)], render_body(x.body, false));
    assert(stands_for(toks[pos + 0], render_struct_decl(x)[0]));
    lemma_body_round_trip(toks, pos + 1, x.body, false);
}

proof fn lemma_union_decl_round_trip(toks: Seq<Token>, pos: int, x: UnionView)
    requires
        wf_union_items(x.items),
        spells(toks, pos, render_union_decl(x)),
    ensures
        union_decl(toks, pos, x.version) == Ok::<(UnionView, int), crate::token::ParseError>(
            (x, pos + render_union_decl(x).len()),
        ),
{
    let head = seq![Lexeme::Word(x.name), p(Punct::LBrace)];
    let inner = render_union_items(x.items) + seq![p(Punct::RBrace)];
    assert(render_union_decl(x) =~= head + inner);
    lemma_spells_split(toks, pos, head, inner);
    assert(stands_for(toks[pos + 0], head[0]));
    assert(stands_for(toks[pos + 1], head[1]));
    lemma_union_items_round_trip(toks, pos + 2, Seq::empty(), x.items);
    assert(Seq::<ItemView<UnionFieldView>>::empty() + x.items =~= x.items);
}

proof fn lemma_enum_decl_round_trip(toks: Seq<Token>, pos: int, x: EnumView)
    requires
        spells(toks, pos, render_enum_decl(x)),
    ensures
        enum_decl(toks, pos, x.version) == Ok::<(EnumView, int), crate::token::ParseError>(
            (x, pos + render_enum_decl(x).len()),
        ),
{
    let head = seq![Lexeme::Word(x.name), p(Punct::LBrace)];
    let inner = render_enum_items(x.items) + seq![p(Punct::RBrace)];
    assert(render_enum_decl(x) =~= head + inner);
    lemma_spells_split(toks, pos, head, inner);
    assert(stands_for(toks[pos + 0], head[0]));
    assert(stands_for(toks[pos + 1], head[1]));
    lemma_enum_items_round_trip(toks, pos + 2, Seq::empty(), x.items);
    assert(Seq::<ItemView<EnumFieldView>>::empty() + x.items =~= x.items);
}

proof fn lemma_params_round_trip(toks: Seq<Token>, pos: int, c: crate::token::Container, name: Seq<char>, items: Seq<ItemView<StructFieldView>>)
    requires
        crate::token::add_allowed(c),
        wf_struct_items(items),
        spells(toks, pos, seq![Lexeme::Word(name), p(Punct::LParen)] + render_struct_items(items) + seq![p(Punct::RParen)]),
    ensures
        is_word_token_text(toks, pos, name),
        is_punct(toks, pos + 1, Punct::LParen),
        struct_items(toks, pos + 2, c, Punct::RParen, Seq::empty()) == Ok::<(Seq<ItemView<StructFieldView>>, int), crate::token::ParseError>(
            (items, pos + 3 + render_struct_items(items).len()),
        ),
{
    let head = seq![Lexeme::Word(name), p(Punct::LParen)];
    let inner = render_struct_items(items) + seq![p(Punct::RParen)];
    assert(head + render_struct_items(items) + seq![p(Punct::RParen)] =~= head + inner);
    lemma_spells_split(toks, pos, head, inner);
    assert(stands_for(toks[pos + 0], head[0]));
    assert(stands_for(toks[pos + 1], head[1]));
    lemma_struct_items_round_trip(toks, pos + 2, c, Punct::RParen, Seq::empty(), items);
    assert(Seq::<ItemView<StructFieldView>>::empty() + items =~= items);
}

pub open spec fn is_word_token_text(toks: Seq<Token>, pos: int, w: Seq<char>) -> bool {
    crate::grammar::is_word_token(toks, pos) && word_text(toks[pos]) == w
}

proof fn lemma_function_decl_round_trip(toks: Seq<Token>, pos: int, x: FunctionView)
    requires
        wf_struct_items(x.items),
        match x.return_type {
            Some(r) => wf_field_type(r),
            None => true,
        },
        spells(toks, pos, render_function_decl(x)),
        open_ended(TypeView::Function(x)) ==> closed_by(toks, pos + render_function_decl(x).len()),
        !is_punct(toks, pos + render_function_decl(x).len(), Punct::Arrow),
    ensures
        function_decl(toks, pos, x.version) == Ok::<(FunctionView, int), crate::token::ParseError>(
            (x, pos + render_function_decl(x).len()),
        ),
{
    let params = seq![Lexeme::Word(x.name), p(Punct::LParen)] + render_struct_items(x.items) + seq![p(Punct::RParen)];
    let ret: Seq<Lexeme> = match x.return_type {
        Some(t) => seq![p(Punct::Arrow)] + render_field_type(t),
        None => Seq::empty(),
    };
    assert(render_function_decl(x) == params + ret);
    lemma_spells_split(toks, pos, params, ret);
    lemma_params_round_trip(toks, pos, crate::token::Container::FunctionParams, x.name, x.items);
    let e = pos + params.len();
    if let Some(t) = x.return_type {
        lemma_spells_split(toks, e, seq![p(Punct::Arrow)], render_field_type(t));
        assert(stands_for(toks[e + 0], ret[0]));
        lemma_field_type_round_trip(toks, e + 1, t);
    }
}

proof fn lemma_command_decl_round_trip(toks: Seq<Token>, pos: int, x: CommandView)
    requires
        wf_struct_items(x.items),
        spells(toks, pos, render_command_decl(x)),
    ensures
        command_decl(toks, pos, x.version) == Ok::<(CommandView, int), crate::token::ParseError>(
            (x, pos + render_command_decl(x).len()),
        ),
{
    lemma_params_round_trip(toks, pos, crate::token::Container::CommandParams, x.name, x.items);
}

proof fn lemma_keywords_differ()
    ensures
        "obj"@ != "struct"@ && "obj"@ != "union"@ && "obj"@ != "enum"@ && "obj"@ != "fn"@ && "obj"@ != "cmd"@,
        "struct"@ != "union"@ && "struct"@ != "enum"@ && "struct"@ != "fn"@ && "struct"@ != "cmd"@,
        "union"@ != "enum"@ && "union"@ != "fn"@ && "union"@ != "cmd"@,
        "enum"@ != "fn"@ && "enum"@ != "cmd"@,
        "fn"@ != "cmd"@,
{
    reveal_strlit("obj");
    reveal_strlit("struct");
    reveal_strlit("union");
    reveal_strlit("enum");
    reveal_strlit("fn");
    reveal_strlit("cmd");
    assert("obj"@.len() == 3 && "obj"@[0] == 'o' && "obj"@[1] == 'b' && "obj"@[2] == 'j');
    assert("struct"@.len() == 6 && "struct"@[0] == 's' && "struct"@[1] == 't' && "struct"@[2] == 'r' && "struct"@[3] == 'u' && "struct"@[4] == 'c' && "struct"@[5] == 't');
    assert("union"@.len() == 5 && "union"@[0] == 'u' && "union"@[1] == 'n' && "union"@[2] == 'i' && "union"@[3] == 'o' && "union"@[4] == 'n');
    assert("enum"@.len() == 4 && "enum"@[0] == 'e' && "enum"@[1] == 'n' && "enum"@[2] == 'u' && "enum"@[3] == 'm');
    assert("fn"@.len() == 2 && "fn"@[0] == 'f' && "fn"@[1] == 'n');
    assert("cmd"@.len() == 3 && "cmd"@[0] == 'c' && "cmd"@[1] == 'm' && "cmd"@[2] == 'd');
}

proof fn lemma_type_head(toks: Seq<Token>, pos: int, t: TypeView)
    requires
        spells(toks, pos, render_type(t)),
    ensures
        render_type(t).len() >= 6,
        is_punct(toks, pos, Punct::At),
        crate::grammar::is_word(toks, pos + 1, "ver"@),
        crate::grammar::major_version(toks, pos + 2) == Ok::<(MajorVersion, int), crate::token::ParseError>(
            (type_version(t), pos + 5),
        ),
        spells(toks, pos + 5, render_type(t).subrange(5, render_type(t).len() as int)),
{
    let v = type_version(t);
    let head = seq![p(Punct::At), Lexeme::Word("ver"@)] + render_major(v);
    let r = render_type(t);
    let body = r.subrange(5, r.len() as int);
    assert(r =~= head + body);
    lemma_spells_split(toks, pos, head, body);
    lemma_spells_split(toks, pos, seq![p(Punct::At), Lexeme::Word("ver"@)], render_major(v));
    assert(stands_for(toks[pos + 0], head[0]));
    assert(stands_for(toks[pos + 1], head[1]));
    lemma_major_round_trip(toks, pos + 2, v);
}

#[verifier::rlimit(100)]
proof fn lemma_type_struct_round_trip(toks: Seq<Token>, pos: int, x: StructView)
    requires
        wf_body(x.body),
        spells(toks, pos, render_type(TypeView::Struct(x))),
    ensures
        type_decl(toks, pos) == Ok::<(TypeView, int), crate::token::ParseError>(
            (TypeView::Struct(x), pos + render_type(TypeView::Struct(x)).len()),
        ),
{
    let t = TypeView::Struct(x);
    lemma_type_head(toks, pos, t);
    let body = render_type(t).subrange(5, render_type(t).len() as int);
    assert(body =~= seq![Lexeme::Word("struct"@)] + render_struct_decl(x));
    lemma_spells_split(toks, pos + 5, seq![Lexeme::Word("struct"@)], render_struct_decl(x));
    assert(stands_for(toks[pos + 5], body[0]));
    lemma_type_struct_dispatch(toks, pos, x.version);
    lemma_struct_decl_round_trip(toks, pos + 6, x);
}

#[verifier::rlimit(100)]
proof fn lemma_type_union_round_trip(toks: Seq<Token>, pos: int, x: UnionView)
    requires
        wf_union_items(x.items),
        spells(toks, pos, render_type(TypeView::Union(x))),
    ensures
        type_decl(toks, pos) == Ok::<(TypeView, int), crate::token::ParseError>(
            (TypeView::Union(x), pos + render_type(TypeView::Union(x)).len()),
        ),
{
    let t = TypeView::Union(x);
    lemma_type_head(toks, pos, t);
    let body = render_type(t).subrange(5, render_type(t).len() as int);
    assert(body =~= seq![Lexeme::Word("union"@)] + render_union_decl(x));
    lemma_spells_split(toks, pos + 5, seq![Lexeme::Word("union"@)], render_union_decl(x));
    assert(stands_for(toks[pos + 5], body[0]));
    lemma_type_union_dispatch(toks, pos, x.version);
    lemma_union_decl_round_trip(toks, pos + 6, x);
}

#[verifier::rlimit(100)]
proof fn lemma_type_enum_round_trip(toks: Seq<Token>, pos: int, x: EnumView)
    requires
        true,
        spells(toks, pos, render_type(TypeView::Enum(x))),
    ensures
        type_decl(toks, pos) == Ok::<(TypeView, int), crate::token::ParseError>(
            (TypeView::Enum(x), pos + render_type(TypeView::Enum(x)).len()),
        ),
{
    let t = TypeView::Enum(x);
    lemma_type_head(toks, pos, t);
    let body = render_type(t).subrange(5, render_type(t).len() as int);
    assert(body =~= seq![Lexeme::Word("enum"@)] + render_enum_decl(x));
    lemma_spells_split(toks, pos + 5, seq![Lexeme::Word("enum"@)], render_enum_decl(x));
    assert(stands_for(toks[pos + 5], body[0]));
    lemma_type_enum_dispatch(toks, pos, x.version);
    lemma_enum_decl_round_trip(toks, pos + 6, x);
}

proof fn lemma_type_struct_dispatch(toks: Seq<Token>, pos: int, v: MajorVersion)
    requires
        is_punct(toks, pos, Punct::At),
        crate::grammar::is_word(toks, pos + 1, "ver"@),
        crate::grammar::major_version(toks, pos + 2) == Ok::<(MajorVersion, int), crate::token::ParseError>((v, pos + 5)),
        crate::grammar::is_word(toks, pos + 5, "struct"@),
    ensures
        type_decl(toks, pos) == match struct_decl(toks, pos + 6, v) {
            Ok((x, q)) => Ok((TypeView::Struct(x), q)),
            Err(e) => Err(e),
        },
{
    lemma_keywords_differ();
}

proof fn lemma_type_union_dispatch(toks: Seq<Token>, pos: int, v: MajorVersion)
    requires
        is_punct(toks, pos, Punct::At),
        crate::grammar::is_word(toks, pos + 1, "ver"@),
        crate::grammar::major_version(toks, pos + 2) == Ok::<(MajorVersion, int), crate::token::ParseError>((v, pos + 5)),
        crate::grammar::is_word(toks, pos + 5, "union"@),
    ensures
        type_decl(toks, pos) == match union_decl(toks, pos + 6, v) {
            Ok((x, q)) => Ok((TypeView::Union(x), q)),
            Err(e) => Err(e),
        },
{
    lemma_keywords_differ();
}

proof fn lemma_type_enum_dispatch(toks: Seq<Token>, pos: int, v: MajorVersion)
    requires
        is_punct(toks, pos, Punct::At),
        crate::grammar::is_word(toks, pos + 1, "ver"@),
        crate::grammar::major_version(toks, pos + 2) == Ok::<(MajorVersion, int), crate::token::ParseError>((v, pos + 5)),
        crate::grammar::is_word(toks, pos + 5, "enum"@),
    ensures
        type_decl(toks, pos) == match enum_decl(toks, pos + 6, v) {
            Ok((x, q)) => Ok((TypeView::Enum(x), q)),
            Err(e) => Err(e),
        },
{
    lemma_keywords_differ();
}

proof fn lemma_type_fn_dispatch(toks: Seq<Token>, pos: int, v: MajorVersion)
    requires
        is_punct(toks, pos, Punct::At),
        crate::grammar::is_word(toks, pos + 1, "ver"@),
        crate::grammar::major_version(toks, pos + 2) == Ok::<(MajorVersion, int), crate::token::ParseError>((v, pos + 5)),
        crate::grammar::is_word(toks, pos + 5, "fn"@),
    ensures
        type_decl(toks, pos) == match function_decl(toks, pos + 6, v) {
            Ok((x, q)) => Ok((TypeView::Function(x), q)),
            Err(e) => Err(e),
        },
{
    lemma_keywords_differ();
}

proof fn lemma_type_obj_dispatch(toks: Seq<Token>, pos: int, v: MajorVersion)
    requires
        is_punct(toks, pos, Punct::At),
        crate::grammar::is_word(toks, pos + 1, "ver"@),
        crate::grammar::major_version(toks, pos + 2) == Ok::<(MajorVersion, int), crate::token::ParseError>((v, pos + 5)),
        crate::grammar::is_word(toks, pos + 5, "obj"@),
    ensures
        type_decl(toks, pos) == match object_decl(toks, pos + 6, v) {
            Ok((o, q)) => Ok((TypeView::Object(o), q)),
            Err(e) => Err(e),
        },
{
}

proof fn lemma_object_struct_dispatch(toks: Seq<Token>, pos: int, v: MajorVersion)
    requires
        is_punct(toks, pos, Punct::LParen),
        crate::grammar::is_word(toks, pos + 1, "struct"@),
        is_punct(toks, pos + 2, Punct::RParen),
    ensures
        object_decl(toks, pos, v) == match struct_decl(toks, pos + 3, v) {
            Ok((x, q)) => Ok((ObjectView::Struct(x), q)),
            Err(e) => Err(e),
        },
{
    lemma_keywords_differ();
}

proof fn lemma_object_union_dispatch(toks: Seq<Token>, pos: int, v: MajorVersion)
    requires
        is_punct(toks, pos, Punct::LParen),
        crate::grammar::is_word(toks, pos + 1, "union"@),
        is_punct(toks, pos + 2, Punct::RParen),
    ensures
        object_decl(toks, pos, v) == match union_decl(toks, pos + 3, v) {
            Ok((x, q)) => Ok((ObjectView::Union(x), q)),
            Err(e) => Err(e),
        },
{
    lemma_keywords_differ();
}

proof fn lemma_object_enum_dispatch(toks: Seq<Token>, pos: int, v: MajorVersion)
    requires
        is_punct(toks, pos, Punct::LParen),
        crate::grammar::is_word(toks, pos + 1, "enum"@),
        is_punct(toks, pos + 2, Punct::RParen),
    ensures
        object_decl(toks, pos, v) == match enum_decl(toks, pos + 3, v) {
            Ok((x, q)) => Ok((ObjectView::Enum(x), q)),
            Err(e) => Err(e),
        },
{
    lemma_keywords_differ();
}

proof fn lemma_type_cmd_dispatch(toks: Seq<Token>, pos: int, v: MajorVersion)
    requires
        is_punct(toks, pos, Punct::At),
        crate::grammar::is_word(toks, pos + 1, "ver"@),
        crate::grammar::major_version(toks, pos + 2) == Ok::<(MajorVersion, int), crate::token::ParseError>((v, pos + 5)),
        crate::grammar::is_word(toks, pos + 5, "cmd"@),
    ensures
        type_decl(toks, pos) == match command_decl(toks, pos + 6, v) {
            Ok((c, q)) => Ok((TypeView::Command(c), q)),
            Err(e) => Err(e),
        },
{
    lemma_keywords_differ();
}

#[verifier::rlimit(100)]
proof fn lemma_type_cmd_round_trip(toks: Seq<Token>, pos: int, x: CommandView)
    requires
        wf_struct_items(x.items),
        spells(toks, pos, render_type(TypeView::Command(x))),
    ensures
        type_decl(toks, pos) == Ok::<(TypeView, int), crate::token::ParseError>(
            (TypeView::Command(x), pos + render_type(TypeView::Command(x)).len()),
        ),
{
    let t = TypeView::Command(x);
    lemma_type_head(toks, pos, t);
    let body = render_type(t).subrange(5, render_type(t).len() as int);
    assert(body =~= seq![Lexeme::Word("cmd"@)] + render_command_decl(x));
    lemma_spells_split(toks, pos + 5, seq![Lexeme::Word("cmd"@)], render_command_decl(x));
    assert(stands_for(toks[pos + 5], body[0]));
    lemma_keywords_differ();
    lemma_type_cmd_dispatch(toks, pos, x.version);
    lemma_command_decl_round_trip(toks, pos + 6, x);
}

#[verifier::rlimit(100)]
proof fn lemma_type_fn_round_trip(toks: Seq<Token>, pos: int, x: FunctionView)
    requires
        wf_type(TypeView::Function(x)),
        spells(toks, pos, render_type(TypeView::Function(x))),
        open_ended(TypeView::Function(x)) ==> closed_by(toks, pos + render_type(TypeView::Function(x)).len()),
        !is_punct(toks, pos + render_type(TypeView::Function(x)).len(), Punct::Arrow),
    ensures
        type_decl(toks, pos) == Ok::<(TypeView, int), crate::token::ParseError>(
            (TypeView::Function(x), pos + render_type(TypeView::Function(x)).len()),
        ),
{
    let t = TypeView::Function(x);
    lemma_type_head(toks, pos, t);
    let body = render_type(t).subrange(5, render_type(t).len() as int);
    assert(body =~= seq![Lexeme::Word("fn"@)] + render_function_decl(x));
    lemma_spells_split(toks, pos + 5, seq![Lexeme::Word("fn"@)], render_function_decl(x));
    assert(stands_for(toks[pos + 5], body[0]));
    lemma_type_fn_dispatch(toks, pos, x.version);
    lemma_function_decl_round_trip(toks, pos + 6, x);
}

#[verifier::rlimit(100)]
proof fn lemma_type_obj_struct_round_trip(toks: Seq<Token>, pos: int, x: StructView)
    requires
        wf_body(x.body),
        spells(toks, pos, render_type(TypeView::Object(ObjectView::Struct(x)))),
    ensures
        type_decl(toks, pos) == Ok::<(TypeView, int), crate::token::ParseError>(
            (TypeView::Object(ObjectView::Struct(x)), pos + render_type(TypeView::Object(ObjectView::Struct(x))).len()),
        ),
{
    let t = TypeView::Object(ObjectView::Struct(x));
    lemma_type_head(toks, pos, t);
    let body = render_type(t).subrange(5, render_type(t).len() as int);
    let kind = seq![Lexeme::Word("obj"@), p(Punct::LParen), Lexeme::Word("struct"@), p(Punct::RParen)];
    assert(body =~= kind + render_struct_decl(x));
    lemma_spells_split(toks, pos + 5, kind, render_struct_decl(x));
    assert(stands_for(toks[pos + 5], kind[0]));
    assert(stands_for(toks[pos + 6], kind[1]));
    assert(stands_for(toks[pos + 7], kind[2]));
    assert(stands_for(toks[pos + 8], kind[3]));
    lemma_type_obj_dispatch(toks, pos, x.version);
    lemma_object_struct_dispatch(toks, pos + 6, x.version);
    lemma_struct_decl_round_trip(toks, pos + 9, x);
}

#[verifier::rlimit(100)]
proof fn lemma_type_obj_union_round_trip(toks: Seq<Token>, pos: int, x: UnionView)
    requires
        wf_union_items(x.items),
        spells(toks, pos, render_type(TypeView::Object(ObjectView::Union(x)))),
    ensures
        type_decl(toks, pos) == Ok::<(TypeView, int), crate::token::ParseError>(
            (TypeView::Object(ObjectView::Union(x)), pos + render_type(TypeView::Object(ObjectView::Union(x))).len()),
        ),
{
    let t = TypeView::Object(ObjectView::Union(x));
    lemma_type_head(toks, pos, t);
    let body = render_type(t).subrange(5, render_type(t).len() as int);
    let kind = seq![Lexeme::Word("obj"@), p(Punct::LParen), Lexeme::Word("union"@), p(Punct::RParen)];
    assert(body =~= kind + render_union_decl(x));
    lemma_spells_split(toks, pos + 5, kind, render_union_decl(x));
    assert(stands_for(toks[pos + 5], kind[0]));
    assert(stands_for(toks[pos + 6], kind[1]));
    assert(stands_for(toks[pos + 7], kind[2]));
    assert(stands_for(toks[pos + 8], kind[3]));
    lemma_type_obj_dispatch(toks, pos, x.version);
    lemma_object_union_dispatch(toks, pos + 6, x.version);
    lemma_union_decl_round_trip(toks, pos + 9, x);
}

#[verifier::rlimit(100)]
proof fn lemma_type_obj_enum_round_trip(toks: Seq<Token>, pos: int, x: EnumView)
    requires
        true,
        spells(toks, pos, render_type(TypeView::Object(ObjectView::Enum(x)))),
    ensures
        type_decl(toks, pos) == Ok::<(TypeView, int), crate::token::ParseError>(
            (TypeView::Object(ObjectView::Enum(x)), pos + render_type(TypeView::Object(ObjectView::Enum(x))).len()),
        ),
{
    let t = TypeView::Object(ObjectView::Enum(x));
    lemma_type_head(toks, pos, t);
    let body = render_type(t).subrange(5, render_type(t).len() as int);
    let kind = seq![Lexeme::Word("obj"@), p(Punct::LParen), Lexeme::Word("enum"@), p(Punct::RParen)];
    assert(body =~= kind + render_enum_decl(x));
    lemma_spells_split(toks, pos + 5, kind, render_enum_decl(x));
    assert(stands_for(toks[pos + 5], kind[0]));
    assert(stands_for(toks[pos + 6], kind[1]));
    assert(stands_for(toks[pos + 7], kind[2]));
    assert(stands_for(toks[pos + 8], kind[3]));
    lemma_type_obj_dispatch(toks, pos, x.version);
    lemma_object_enum_dispatch(toks, pos + 6, x.version);
    lemma_enum_decl_round_trip(toks, pos + 9, x);
}

/// Tokens spelling a rendered declaration parse back to it, provided that an
/// open-ended function is followed by neither `::` nor `@`, and that no `->`
/// follows.
pub proof fn lemma_type_round_trip(toks: Seq<Token>, pos: int, t: TypeView)
    requires
        wf_type(t),
        spells(toks, pos, render_type(t)),
        open_ended(t) ==> closed_by(toks, pos + render_type(t).len()),
        !is_punct(toks, pos + render_type(t).len(), Punct::Arrow),
    ensures
        type_decl(toks, pos) == Ok::<(TypeView, int), crate::token::ParseError>((t, pos + render_type(t).len())),
{
    match t {
        TypeView::Object(ObjectView::Struct(x)) => lemma_type_obj_struct_round_trip(toks, pos, x),
        TypeView::Object(ObjectView::Union(x)) => lemma_type_obj_union_round_trip(toks, pos, x),
        TypeView::Object(ObjectView::Enum(x)) => lemma_type_obj_enum_round_trip(toks, pos, x),
        TypeView::Struct(x) => lemma_type_struct_round_trip(toks, pos, x),
        TypeView::Union(x) => lemma_type_union_round_trip(toks, pos, x),
        TypeView::Enum(x) => lemma_type_enum_round_trip(toks, pos, x),
        TypeView::Function(x) => lemma_type_fn_round_trip(toks, pos, x),
        TypeView::Command(x) => lemma_type_cmd_round_trip(toks, pos, x),
    }
}

proof fn lemma_use_tail_round_trip(
    toks: Seq<Token>,
    pos: int,
    acc: Seq<Seq<char>>,
    rest: Seq<Seq<char>>,
    alias: Option<Seq<char>>,
)
    requires
        spells(toks, pos, render_path_tail(rest) + render_alias(alias) + seq![p(Punct::Semi)]),
    ensures
        use_tail(toks, pos, acc) == Ok::<(UseView, int), crate::token::ParseError>(
            (
                UseView { segments: acc + rest, alias },
                pos + render_path_tail(rest).len() + render_alias(alias).len() + 1,
            ),
        ),
    decreases rest.len(),
{
    let tail = render_alias(alias) + seq![p(Punct::Semi)];
    let r = render_path_tail(rest) + render_alias(alias) + seq![p(Punct::Semi)];
    assert(r =~= render_path_tail(rest) + tail);
    if rest.len() == 0 {
        assert(r =~= tail);
        assert(acc + rest =~= acc);
        assert(stands_for(toks[pos + 0], r[0]));
        if let Some(a) = alias {
            assert(stands_for(toks[pos + 1], r[1]));
            assert(stands_for(toks[pos + 2], r[2]));
        }
    } else {
        let more = render_path_tail(rest.drop_first()) + tail;
        assert(r =~= seq![p(Punct::PathSep), Lexeme::Word(rest[0])] + more);
        lemma_spells_split(toks, pos, seq![p(Punct::PathSep), Lexeme::Word(rest[0])], more);
        assert(stands_for(toks[pos + 0], r[0]));
        assert(stands_for(toks[pos + 1], r[1]));
        assert(more =~= render_path_tail(rest.drop_first()) + render_alias(alias) + seq![p(Punct::Semi)]);
        lemma_use_tail_round_trip(toks, pos + 2, acc.push(rest[0]), rest.drop_first(), alias);
        assert(acc.push(rest[0]) + rest.drop_first() =~= acc + rest);
    }
}

/// Tokens spelling a rendered import parse back to it.
pub proof fn lemma_use_round_trip(toks: Seq<Token>, pos: int, u: UseView)
    requires
        u.segments.len() > 0,
        spells(toks, pos, render_use(u)),
    ensures
        crate::grammar::is_word(toks, pos, "use"@),
        render_use(u).len() >= 3,
        use_decl(toks, pos + 1) == Ok::<(UseView, int), crate::token::ParseError>((u, pos + render_use(u).len())),
{
    let r = render_use(u);
    let head = seq![Lexeme::Word("use"@), Lexeme::Word(u.segments[0])];
    let rest = render_path_tail(u.segments.drop_first()) + render_alias(u.alias) + seq![p(Punct::Semi)];
    assert(r =~= head + rest);
    lemma_spells_split(toks, pos, head, rest);
    assert(stands_for(toks[pos + 0], head[0]));
    assert(stands_for(toks[pos + 1], head[1]));
    lemma_use_tail_round_trip(toks, pos + 2, seq![u.segments[0]], u.segments.drop_first(), u.alias);
    assert(seq![u.segments[0]] + u.segments.drop_first() =~= u.segments);
}

pub open spec fn render_types(s: Seq<TypeView>) -> Seq<Lexeme>
    decreases s.len(),
{
    if s.len() == 0 {
        Seq::empty()
    } else {
        render_type(s[0]) + render_types(s.drop_first())
    }
}

pub open spec fn render_uses(s: Seq<UseView>) -> Seq<Lexeme>
    decreases s.len(),
{
    if s.len() == 0 {
        Seq::empty()
    } else {
        render_use(s[0]) + render_uses(s.drop_first())
    }
}

/// The canonical rendering of a scheme: its header, then its imports, then
/// its declarations.
pub open spec fn render_scheme(x: SchemeView) -> Seq<Lexeme> {
    seq![Lexeme::Word("sch"@), Lexeme::Str(x.name), p(Punct::Semi)] + render_uses(x.uses) + render_types(x.types)
}

/// Every import has a path, every named type names no primitive, and only
/// the last declaration may be a function whose return type ends in an
/// unpinned name.
pub open spec fn wf_scheme(x: SchemeView) -> bool {
    &&& forall|i: int| 0 <= i < x.uses.len() ==> (#[trigger] x.uses[i]).segments.len() > 0
    &&& forall|i: int| 0 <= i < x.types.len() ==> wf_type(#[trigger] x.types[i])
    &&& forall|i: int| 0 <= i < x.types.len() - 1 ==> !open_ended(#[trigger] x.types[i])
}

proof fn lemma_declarations_end(toks: Seq<Token>, name: Seq<char>, uses: Seq<UseView>, types: Seq<TypeView>)
    ensures
        declarations(toks, toks.len() as int, name, uses, types) == Ok::<SchemeView, crate::token::ParseError>(
            SchemeView { name, uses, types },
        ),
{
    reveal(declarations);
}

proof fn lemma_declarations_type_step(
    toks: Seq<Token>,
    pos: int,
    name: Seq<char>,
    uses: Seq<UseView>,
    acc: Seq<TypeView>,
    t: TypeView,
    e: int,
)
    requires
        0 <= pos < toks.len(),
        is_punct(toks, pos, Punct::At),
        type_decl(toks, pos) == Ok::<(TypeView, int), crate::token::ParseError>((t, e)),
        pos < e <= toks.len(),
    ensures
        declarations(toks, pos, name, uses, acc) == declarations(toks, e, name, uses, acc.push(t)),
{
    reveal(declarations);
}

proof fn lemma_declarations_use_step(
    toks: Seq<Token>,
    pos: int,
    name: Seq<char>,
    acc: Seq<UseView>,
    u: UseView,
    e: int,
)
    requires
        0 <= pos < toks.len(),
        crate::grammar::is_word(toks, pos, "use"@),
        use_decl(toks, pos + 1) == Ok::<(UseView, int), crate::token::ParseError>((u, e)),
        pos < e <= toks.len(),
    ensures
        declarations(toks, pos, name, acc, Seq::empty()) == declarations(toks, e, name, acc.push(u), Seq::empty()),
{
    reveal(declarations);
}

#[verifier::rlimit(100)]
proof fn lemma_types_round_trip(
    toks: Seq<Token>,
    pos: int,
    name: Seq<char>,
    uses: Seq<UseView>,
    acc: Seq<TypeView>,
    types: Seq<TypeView>,
)
    requires
        spells(toks, pos, render_types(types)),
        toks.len() == pos + render_types(types).len(),
        forall|i: int| 0 <= i < types.len() ==> wf_type(#[trigger] types[i]),
        forall|i: int| 0 <= i < types.len() - 1 ==> !open_ended(#[trigger] types[i]),
    ensures
        declarations(toks, pos, name, uses, acc) == Ok::<SchemeView, crate::token::ParseError>(
            SchemeView { name, uses, types: acc + types },
        ),
    decreases types.len(),
{
    if types.len() == 0 {
        assert(acc + types =~= acc);
        lemma_declarations_end(toks, name, uses, acc);
    } else {
        let r0 = render_type(types[0]);
        let rest = types.drop_first();
        lemma_spells_split(toks, pos, r0, render_types(rest));
        lemma_type_head(toks, pos, types[0]);
        let e = pos + r0.len();
        if rest.len() > 0 {
            assert(render_types(rest) =~= render_type(rest[0]) + render_types(rest.drop_first()));
            lemma_spells_split(toks, e, render_type(rest[0]), render_types(rest.drop_first()));
            lemma_type_head(toks, e, rest[0]);
            assert(!open_ended(types[0]));
        }
        lemma_type_round_trip(toks, pos, types[0]);
        lemma_declarations_type_step(toks, pos, name, uses, acc, types[0], e);
        assert forall|i: int| 0 <= i < rest.len() implies wf_type(#[trigger] rest[i]) by {
            assert(rest[i] == types[i + 1]);
        }
        assert forall|i: int| 0 <= i < rest.len() - 1 implies !open_ended(#[trigger] rest[i]) by {
            assert(rest[i] == types[i + 1]);
        }
        lemma_types_round_trip(toks, e, name, uses, acc.push(types[0]), rest);
        assert(acc.push(types[0]) + rest =~= acc + types);
    }
}

proof fn lemma_uses_round_trip(
    toks: Seq<Token>,
    pos: int,
    name: Seq<char>,
    acc: Seq<UseView>,
    uses: Seq<UseView>,
    types: Seq<TypeView>,
)
    requires
        spells(toks, pos, render_uses(uses) + render_types(types)),
        toks.len() == pos + render_uses(uses).len() + render_types(types).len(),
        forall|i: int| 0 <= i < uses.len() ==> (#[trigger] uses[i]).segments.len() > 0,
        forall|i: int| 0 <= i < types.len() ==> wf_type(#[trigger] types[i]),
        forall|i: int| 0 <= i < types.len() - 1 ==> !open_ended(#[trigger] types[i]),
    ensures
        declarations(toks, pos, name, acc, Seq::empty()) == Ok::<SchemeView, crate::token::ParseError>(
            SchemeView { name, uses: acc + uses, types },
        ),
    decreases uses.len(),
{
    if uses.len() == 0 {
        assert(render_uses(uses) + render_types(types) =~= render_types(types));
        lemma_types_round_trip(toks, pos, name, acc, Seq::empty(), types);
        assert(Seq::<TypeView>::empty() + types =~= types);
        assert(acc + uses =~= acc);
    } else {
        let rest = uses.drop_first();
        let r0 = render_use(uses[0]);
        assert(render_uses(uses) + render_types(types) =~= r0 + (render_uses(rest) + render_types(types)));
        lemma_spells_split(toks, pos, r0, render_uses(rest) + render_types(types));
        lemma_use_round_trip(toks, pos, uses[0]);
        lemma_declarations_use_step(toks, pos, name, acc, uses[0], pos + r0.len());
        assert forall|i: int| 0 <= i < rest.len() implies (#[trigger] rest[i]).segments.len() > 0 by {
            assert(rest[i] == uses[i + 1]);
        }
        lemma_uses_round_trip(toks, pos + r0.len(), name, acc.push(uses[0]), rest, types);
        assert(acc.push(uses[0]) + rest =~= acc + uses);
    }
}

/// Round trip: tokens that spell the canonical rendering of a well-formed
/// scheme model, and nothing more, parse back to that model.
pub proof fn lemma_scheme_round_trip(toks: Seq<Token>, x: SchemeView)
    requires
        wf_scheme(x),
        spells(toks, 0, render_scheme(x)),
        toks.len() == render_scheme(x).len(),
    ensures
        scheme(toks) == Ok::<SchemeView, crate::token::ParseError>(x),
{
    let head = seq![Lexeme::Word("sch"@), Lexeme::Str(x.name), p(Punct::Semi)];
    let body = render_uses(x.uses) + render_types(x.types);
    assert(render_scheme(x) =~= head + body);
    lemma_spells_split(toks, 0, head, body);
    assert(stands_for(toks[0int], head[0]));
    assert(stands_for(toks[1int], head[1]));
    assert(stands_for(toks[2int], head[2]));
    lemma_uses_round_trip(toks, 3, x.name, Seq::empty(), x.uses, x.types);
    assert(Seq::<UseView>::empty() + x.uses =~= x.uses);
}

} // verus!
