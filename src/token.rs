use vstd::prelude::*;

verus! {

/// Byte range of a token in its source text; kept for diagnostics only.
#[derive(Clone, Copy, Debug, PartialEq, Eq, Structural)]
pub struct Span {
    pub start: usize,
    pub end: usize,
}

/// Punctuation of the language; `::` and `->` are single tokens.
#[derive(Clone, Copy, Debug, PartialEq, Eq, Structural)]
pub enum Punct {
    At,
    PathSep,
    Colon,
    Semi,
    Comma,
    Question,
    Amp,
    Arrow,
    Eq,
    LBrace,
    RBrace,
    LParen,
    RParen,
    LBracket,
    RBracket,
}

/// What a token is. Keywords arrive as words and are told apart by their text.
/// A string literal keeps its quoted source text.
#[derive(Clone, Debug, PartialEq, Eq)]
pub enum TokenKind {
    Word(String),
    Int(String),
    Decimal(String),
    Str(String),
    Punct(Punct),
}

#[derive(Clone, Debug, PartialEq, Eq)]
pub struct Token {
    pub kind: TokenKind,
    pub span: Span,
}

/// The directive of a minor-version tag.
#[derive(Clone, Copy, Debug, PartialEq, Eq, Structural)]
pub enum Directive {
    Add,
    Rem,
}

/// The kind of item list being parsed, which decides the legal directive.
#[derive(Clone, Copy, Debug, PartialEq, Eq, Structural)]
pub enum Container {
    StructFields,
    TupleFields,
    FunctionParams,
    CommandParams,
    UnionVariants,
    EnumMembers,
}

/// What the grammar wanted where a syntax error was found.
#[derive(Clone, Copy, Debug, PartialEq, Eq, Structural)]
pub enum Expected {
    /// This punctuation.
    Token(Punct),
    /// An identifier.
    Name,
    /// `sch`.
    SchemeKeyword,
    /// `ver`.
    VersionKeyword,
    /// `add` or `rem`, in an include's adjustment list.
    Adjustment,
    /// `ver`, or the directive that the item list allows.
    Tag(Directive),
    /// `obj`, `struct`, `union`, `enum`, `fn` or `cmd`.
    Declaration,
    /// `struct`, `union` or `enum`.
    ObjectKind,
    IntLiteral,
    DecimalLiteral,
    StringLiteral,
    /// The start of a field type.
    FieldType,
    /// `]`, `;` or `:` after a bracketed element type.
    BracketRest,
    /// `{`, `(`, or the end of a unit body.
    StructBody,
    /// `;`, `as` or `::` in an import.
    UseRest,
    /// `use` or `@`.
    Item,
}

/// The single error that ends the parse of a scheme.
#[derive(Clone, Copy, Debug, PartialEq, Eq, Structural)]
pub enum ParseError {
    /// The token at `span` fits no alternative of the grammar.
    Syntax { span: Span, expected: Expected },
    /// A minor-version tag uses a directive that `container` forbids.
    Policy { directive: Directive, container: Container, span: Span },
    /// A numeric literal is out of range or badly shaped.
    Range { span: Span },
    /// The tokens ended where more were required.
    EmptyInput,
}

/// Struct fields, tuple fields and parameters may gain items at a minor
/// version; union variants and enum members may lose them.
pub open spec fn add_allowed(c: Container) -> bool {
    match c {
        Container::StructFields | Container::TupleFields | Container::FunctionParams
        | Container::CommandParams => true,
        Container::UnionVariants | Container::EnumMembers => false,
    }
}

pub open spec fn allowed_directive(c: Container) -> Directive {
    if add_allowed(c) { Directive::Add } else { Directive::Rem }
}

pub open spec fn forbidden_directive(c: Container) -> Directive {
    if add_allowed(c) { Directive::Rem } else { Directive::Add }
}

pub fn container_allows_add(c: Container) -> (r: bool)
    ensures
        r == add_allowed(c),
{
    match c {
        Container::StructFields | Container::TupleFields | Container::FunctionParams
        | Container::CommandParams => true,
        Container::UnionVariants | Container::EnumMembers => false,
    }
}

} // verus!
