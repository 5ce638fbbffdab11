use proc_macro2::{Delimiter, Spacing, TokenStream, TokenTree};
use scheme_parser::ast::{
    Command, Enum, EnumField, EnumItem, FieldType, Function, Include, IncludeItem, MajorVersion,
    MinorVersion, Object, Primitive, Scheme, Struct, StructBody, StructField, StructItem, Tuple,
    TupleField, TupleItem, Type, Union, UnionField, UnionItem, Use,
};
use scheme_parser::literal::{parse_bounded_uint, parse_minor_literal, U16_MAX, U32_MAX};
use scheme_parser::token::{
    Container, Directive, Expected, ParseError, Punct, Span, Token, TokenKind,
};
use std::str::FromStr;

fn push(out: &mut Vec<Token>, kind: TokenKind) {
    let i = out.len();
    out.push(Token { kind, span: Span { start: i, end: i + 1 } });
}

fn single(c: char) -> Punct {
    match c {
        '@' => Punct::At,
        ':' => Punct::Colon,
        ';' => Punct::Semi,
        ',' => Punct::Comma,
        '?' => Punct::Question,
        '&' => Punct::Amp,
        '=' => Punct::Eq,
        _ => panic!("unexpected punctuation {}", c),
    }
}

fn flatten(stream: TokenStream, out: &mut Vec<Token>) {
    let trees: Vec<TokenTree> = stream.into_iter().collect();
    let mut i = 0;
    while i < trees.len() {
        match &trees[i] {
            TokenTree::Group(g) => {
                let delims = match g.delimiter() {
                    Delimiter::Brace => Some((Punct::LBrace, Punct::RBrace)),
                    Delimiter::Parenthesis => Some((Punct::LParen, Punct::RParen)),
                    Delimiter::Bracket => Some((Punct::LBracket, Punct::RBracket)),
                    Delimiter::None => None,
                };
                if let Some((open, _)) = delims {
                    push(out, TokenKind::Punct(open));
                }
                flatten(g.stream(), out);
                if let Some((_, close)) = delims {
                    push(out, TokenKind::Punct(close));
                }
            }
            TokenTree::Ident(id) => push(out, TokenKind::Word(id.to_string())),
            TokenTree::Literal(lit) => {
                let text = lit.to_string();
                let kind = if text.contains('"') {
                    TokenKind::Str(text)
                } else if text.contains('.') {
                    TokenKind::Decimal(text)
                } else {
                    TokenKind::Int(text)
                };
                push(out, kind);
            }
            TokenTree::Punct(p) => {
                let next = match trees.get(i + 1) {
                    Some(TokenTree::Punct(q)) => Some(q.as_char()),
                    _ => None,
                };
                let joint = p.spacing() == Spacing::Joint;
                if p.as_char() == ':' && joint && next == Some(':') {
                    push(out, TokenKind::Punct(Punct::PathSep));
                    i += 1;
                } else if p.as_char() == '-' && joint && next == Some('>') {
                    push(out, TokenKind::Punct(Punct::Arrow));
                    i += 1;
                } else {
                    push(out, TokenKind::Punct(single(p.as_char())));
                }
            }
        }
        i += 1;
    }
}

fn lex(src: &str) -> Vec<Token> {
    let mut out = Vec::new();
    flatten(TokenStream::from_str(src).unwrap(), &mut out);
    out
}

fn parse(src: &str) -> Result<Scheme, ParseError> {
    Scheme::parse(&lex(src))
}

fn span(i: usize) -> Span {
    Span { start: i, end: i + 1 }
}

#[test]
fn all_valid_input() {
    let scheme: Scheme = parse(
        r#"
            sch "scheme/name";

            use external_crate::some_path::scheme as extern_scheme;
            use super::scheme as super_scheme;
            use crate::some_path::types;

            @ver(1)
            struct Struct {
                signed_int8: i8,
                signed_int16: i16,
                signed_int32: i32,
                signed_int64: i64,

                unsigned_int8: u8,
                unsigned_int16: u16,
                unsigned_int32: u32,
                unsigned_int64: u64,

                float32: f32,
                float64: f64,

                boolean: bool,
                string: str,
                optional: ?str,

                array: [u8; 32],
                list: [u8],
                map: [u8: u8],
                tuple: (u8, u8),
                byte_list: bytes,

                extern_struct: types::Struct@ver(1),
                extern_object: &types::Object,
            }

            @ver(2)
            struct Struct {
                @ver(1) {
                    @rem(list),
                    @rem(byte_list),
                },

                array: [u16; 32],
                map: [u16: u16],
                tuple: (u16, u16),

                extern_struct: extern_scheme::Struct@ver(2),
            }

            @ver(1)
            struct NewTypeStruct (
                Struct@ver(1),
            )

            @ver(2)
            struct NewTypeStruct (
                Struct@ver(2),
            )

            @ver(1)
            struct TupleStruct (
                types::Struct@ver(2),
                super_scheme::Enum@ver(1),

                @add(1.1)
                types::Union@ver(1),
            )

            @ver(2)
            struct TupleStruct (
                types::Struct@ver(3),
                super_scheme::Enum@ver(2),
                types::Union@ver(2),
            )

            @ver(1)
            enum Enum {
                @rem(1.1)
                Zero,

                One = 10,
                Two = 20,
                Three = 30,
            }

            @ver(2)
            enum Enum {
                One = 100,
                Two = 200,
                Three = 300,

                @rem(2.1)
                Four = 400,
            }

            @ver(1)
            union Union {
                NewType(u8),
                Tuple(
                    u8,
                    bool,

                    @add(1.1)
                    u16,
                ),
                Struct {
                    new_type: NewTypeStruct@ver(1),
                    tuple: TupleStruct@ver(1),
                    extern_type: extern_scheme::Union@ver(1),
                },

                @rem(1.2)
                None,
            }

            @ver(2)
            union Union {
                @ver(1),
                None2,
            }

            @ver(1)
            obj(struct) Object {
                struct_: Struct@ver(1),
            }

            @ver(2)
            obj(struct) Object (
                Enum@ver(1),
            )

            @ver(3)
            obj(union) Object {
                Struct {
                    extern_object: &types::Object,
                },
            }

            @ver(4)
            obj(enum) Object {
                Zero,
            }

            @ver(1)
            fn Function (
                one: Struct@ver(1),
                two: &Object,
                three: bytes,
            ) -> Struct@ver(1)

            @ver(1)
            cmd Command (
                one: &Object,
                two: &types::Object,
            )
        "#,
    )
    .unwrap();

        
        assert_eq!(
            scheme,
            Scheme {
                name: "scheme/name".to_string(),
                uses: vec![
                    Use {
                        segments: vec![
                            "external_crate".to_string(),
                            "some_path".to_string(),
                            "scheme".to_string()
                        ],
                        alias: Some("extern_scheme".to_string()),
                    },
                    Use {
                        segments: vec!["super".to_string(), "scheme".to_string(),],
                        alias: Some("super_scheme".to_string()),
                    },
                    Use {
                        segments: vec![
                            "crate".to_string(),
                            "some_path".to_string(),
                            "types".to_string()
                        ],
                        alias: None,
                    },
                ],
                types: vec![
                    Type::Struct(Struct {
                        version: MajorVersion(1),
                        name: "Struct".to_string(),
                        body: StructBody::Items(vec![
                            StructItem::Field(StructField {
                                version: None,
                                name: "signed_int8".to_string(),
                                field_type: FieldType::Primitive(Primitive::Int8),
                            }),
                            StructItem::Field(StructField {
                                version: None,
                                name: "signed_int16".to_string(),
                                field_type: FieldType::Primitive(Primitive::Int16),
                            }),
                            StructItem::Field(StructField {
                                version: None,
                                name: "signed_int32".to_string(),
                                field_type: FieldType::Primitive(Primitive::Int32),
                            }),
                            StructItem::Field(StructField {
                                version: None,
                                name: "signed_int64".to_string(),
                                field_type: FieldType::Primitive(Primitive::Int64),
                            }),
                            StructItem::Field(StructField {
                                version: None,
                                name: "unsigned_int8".to_string(),
                                field_type: FieldType::Primitive(Primitive::UInt8),
                            }),
                            StructItem::Field(StructField {
                                version: None,
                                name: "unsigned_int16".to_string(),
                                field_type: FieldType::Primitive(Primitive::UInt16),
                            }),
                            StructItem::Field(StructField {
                                version: None,
                                name: "unsigned_int32".to_string(),
                                field_type: FieldType::Primitive(Primitive::UInt32),
                            }),
                            StructItem::Field(StructField {
                                version: None,
                                name: "unsigned_int64".to_string(),
                                field_type: FieldType::Primitive(Primitive::UInt64),
                            }),
                            StructItem::Field(StructField {
                                version: None,
                                name: "float32".to_string(),
                                field_type: FieldType::Primitive(Primitive::Float32),
                            }),
                            StructItem::Field(StructField {
                                version: None,
                                name: "float64".to_string(),
                                field_type: FieldType::Primitive(Primitive::Float64),
                            }),
                            StructItem::Field(StructField {
                                version: None,
                                name: "boolean".to_string(),
                                field_type: FieldType::Primitive(Primitive::Boolean),
                            }),
                            StructItem::Field(StructField {
                                version: None,
                                name: "string".to_string(),
                                field_type: FieldType::Primitive(Primitive::String),
                            }),
                            StructItem::Field(StructField {
                                version: None,
                                name: "optional".to_string(),
                                field_type: FieldType::Optional(Box::new(FieldType::Primitive(Primitive::String))
                                ),
                            }),
                            StructItem::Field(StructField {
                                version: None,
                                name: "array".to_string(),
                                field_type: FieldType::Array(Box::new(FieldType::Primitive(Primitive::UInt8)),
                                    32
                                ),
                            }),
                            StructItem::Field(StructField {
                                version: None,
                                name: "list".to_string(),
                                field_type: FieldType::List(Box::new(FieldType::Primitive(Primitive::UInt8)),
                                ),
                            }),
                            StructItem::Field(StructField {
                                version: None,
                                name: "map".to_string(),
                                field_type: FieldType::Mapping(Box::new(FieldType::Primitive(Primitive::UInt8)),
                                    Box::new(FieldType::Primitive(Primitive::UInt8)),
                                ),
                            }),
                            StructItem::Field(StructField {
                                version: None,
                                name: "tuple".to_string(),
                                field_type: FieldType::Tuple(Tuple(vec![
                                        TupleItem::Field(TupleField {
                                            version: None,
                                            field_type: FieldType::Primitive(Primitive::UInt8
                                            ),
                                        }),
                                        TupleItem::Field(TupleField {
                                            version: None,
                                            field_type: FieldType::Primitive(Primitive::UInt8
                                            ),
                                        },),
                                    ]),
                                ),
                            }),
                            StructItem::Field(StructField {
                                version: None,
                                name: "byte_list".to_string(),
                                field_type: FieldType::Primitive(Primitive::Bytes),
                            }),
                            StructItem::Field(StructField {
                                version: None,
                                name: "extern_struct".to_string(),
                                field_type: FieldType::Type("types".to_string(),
                                    Some("Struct".to_string()),
                                    Some(MajorVersion(1))
                                ),
                            }),
                            StructItem::Field(StructField {
                                version: None,
                                name: "extern_object".to_string(),
                                field_type: FieldType::Reference(Box::new(FieldType::Type("types".to_string(),
                                        Some("Object".to_string()),
                                        None,
                                    )),
                                ),
                            }),
                        ])
                    }),
                    Type::Struct(Struct {
                        version: MajorVersion(2),
                        name: "Struct".to_string(),
                        body: StructBody::Items(vec![
                            StructItem::Include(Include {
                                version: MajorVersion(1),
                                items: vec![
                                    IncludeItem::Rem("list".to_string()),
                                    IncludeItem::Rem("byte_list".to_string())
                                ],
                            }),
                            StructItem::Field(StructField {
                                version: None,
                                name: "array".to_string(),
                                field_type: FieldType::Array(Box::new(FieldType::Primitive(Primitive::UInt16)),
                                    32,
                                ),
                            }),
                            StructItem::Field(StructField {
                                version: None,
                                name: "map".to_string(),
                                field_type: FieldType::Mapping(Box::new(FieldType::Primitive(Primitive::UInt16)),
                                    Box::new(FieldType::Primitive(Primitive::UInt16)),
                                ),
                            }),
                            StructItem::Field(StructField {
                                version: None,
                                name: "tuple".to_string(),
                                field_type: FieldType::Tuple(Tuple(vec![
                                        TupleItem::Field(TupleField {
                                            version: None,
                                            field_type: FieldType::Primitive(Primitive::UInt16
                                            ),
                                        }),
                                        TupleItem::Field(TupleField {
                                            version: None,
                                            field_type: FieldType::Primitive(Primitive::UInt16
                                            ),
                                        }),
                                    ])
                                ),
                            }),
                            StructItem::Field(StructField {
                                version: None,
                                name: "extern_struct".to_string(),
                                field_type: FieldType::Type("extern_scheme".to_string(),
                                    Some("Struct".to_string()),
                                    Some(MajorVersion(2)),
                                ),
                            }),
                        ]),
                    }),
                    Type::Struct(Struct {
                        version: MajorVersion(1),
                        name: "NewTypeStruct".to_string(),
                        body: StructBody::Tuple(Tuple(vec![TupleItem::Field(TupleField {
                            version: None,
                            field_type: FieldType::Type("Struct".to_string(),
                                None,
                                Some(MajorVersion(1))
                            ),
                        }),])),
                    }),
                    Type::Struct(Struct {
                        version: MajorVersion(2),
                        name: "NewTypeStruct".to_string(),
                        body: StructBody::Tuple(Tuple(vec![TupleItem::Field(TupleField {
                            version: None,
                            field_type: FieldType::Type("Struct".to_string(),
                                None,
                                Some(MajorVersion(2))
                            ),
                        }),])),
                    }),
                    Type::Struct(Struct {
                        version: MajorVersion(1),
                        name: "TupleStruct".to_string(),
                        body: StructBody::Tuple(Tuple(vec![
                            TupleItem::Field(TupleField {
                                version: None,
                                field_type: FieldType::Type("types".to_string(),
                                    Some("Struct".to_string()),
                                    Some(MajorVersion(2))
                                ),
                            }),
                            TupleItem::Field(TupleField {
                                version: None,
                                field_type: FieldType::Type("super_scheme".to_string(),
                                    Some("Enum".to_string()),
                                    Some(MajorVersion(1))
                                ),
                            }),
                            TupleItem::Field(TupleField {
                                version: Some(MinorVersion(1, 1)),
                                field_type: FieldType::Type("types".to_string(),
                                    Some("Union".to_string()),
                                    Some(MajorVersion(1))
                                ),
                            }),
                        ])),
                    }),
                    Type::Struct(Struct {
                        version: MajorVersion(2),
                        name: "TupleStruct".to_string(),
                        body: StructBody::Tuple(Tuple(vec![
                            TupleItem::Field(TupleField {
                                version: None,
                                field_type: FieldType::Type("types".to_string(),
                                    Some("Struct".to_string()),
                                    Some(MajorVersion(3))
                                ),
                            }),
                            TupleItem::Field(TupleField {
                                version: None,
                                field_type: FieldType::Type("super_scheme".to_string(),
                                    Some("Enum".to_string()),
                                    Some(MajorVersion(2))
                                ),
                            }),
                            TupleItem::Field(TupleField {
                                version: None,
                                field_type: FieldType::Type("types".to_string(),
                                    Some("Union".to_string()),
                                    Some(MajorVersion(2))
                                ),
                            }),
                        ])),
                    }),
                    Type::Enum(Enum {
                        version: MajorVersion(1),
                        name: "Enum".to_string(),
                        items: vec![
                            EnumItem::Field(EnumField {
                                version: Some(MinorVersion(1, 1)),
                                name: "Zero".to_string(),
                                value: None,
                            }),
                            EnumItem::Field(EnumField {
                                version: None,
                                name: "One".to_string(),
                                value: Some(10),
                            }),
                            EnumItem::Field(EnumField {
                                version: None,
                                name: "Two".to_string(),
                                value: Some(20),
                            }),
                            EnumItem::Field(EnumField {
                                version: None,
                                name: "Three".to_string(),
                                value: Some(30),
                            }),
                        ],
                    }),
                    Type::Enum(Enum {
                        version: MajorVersion(2),
                        name: "Enum".to_string(),
                        items: vec![
                            EnumItem::Field(EnumField {
                                version: None,
                                name: "One".to_string(),
                                value: Some(100),
                            }),
                            EnumItem::Field(EnumField {
                                version: None,
                                name: "Two".to_string(),
                                value: Some(200),
                            }),
                            EnumItem::Field(EnumField {
                                version: None,
                                name: "Three".to_string(),
                                value: Some(300),
                            }),
                            EnumItem::Field(EnumField {
                                version: Some(MinorVersion(2, 1)),
                                name: "Four".to_string(),
                                value: Some(400),
                            }),
                        ],
                    }),
                    Type::Union(Union {
                        version: MajorVersion(1),
                        name: "Union".to_string(),
                        items: vec![
                            UnionItem::Field(UnionField {
                                version: None,
                                name: "NewType".to_string(),
                                body: StructBody::Tuple(Tuple(vec![TupleItem::Field(
                                    TupleField {
                                        version: None,
                                        field_type: FieldType::Primitive(Primitive::UInt8
                                        ),
                                    }
                                ),]))
                            }),
                            UnionItem::Field(UnionField {
                                version: None,
                                name: "Tuple".to_string(),
                                body: StructBody::Tuple(Tuple(vec![
                                    TupleItem::Field(TupleField {
                                        version: None,
                                        field_type: FieldType::Primitive(Primitive::UInt8
                                        ),
                                    }),
                                    TupleItem::Field(TupleField {
                                        version: None,
                                        field_type: FieldType::Primitive(Primitive::Boolean,
                                        ),
                                    }),
                                    TupleItem::Field(TupleField {
                                        version: Some(MinorVersion(1, 1)),
                                        field_type: FieldType::Primitive(Primitive::UInt16,
                                        ),
                                    }),
                                ]))
                            }),
                            UnionItem::Field(UnionField {
                                version: None,
                                name: "Struct".to_string(),
                                body: StructBody::Items(vec![
                                    StructItem::Field(StructField {
                                        version: None,
                                        name: "new_type".to_string(),
                                        field_type: FieldType::Type("NewTypeStruct".to_string(),
                                            None,
                                            Some(MajorVersion(1)),
                                        ),
                                    }),
                                    StructItem::Field(StructField {
                                        version: None,
                                        name: "tuple".to_string(),
                                        field_type: FieldType::Type("TupleStruct".to_string(),
                                            None,
                                            Some(MajorVersion(1)),
                                        ),
                                    }),
                                    StructItem::Field(StructField {
                                        version: None,
                                        name: "extern_type".to_string(),
                                        field_type: FieldType::Type("extern_scheme".to_string(),
                                            Some("Union".to_string()),
                                            Some(MajorVersion(1)),
                                        ),
                                    }),
                                ]),
                            }),
                            UnionItem::Field(UnionField {
                                version: Some(MinorVersion(1, 2)),
                                name: "None".to_string(),
                                body: StructBody::Unit,
                            }),
                        ],
                    }),
                    Type::Union(Union {
                        version: MajorVersion(2),
                        name: "Union".to_string(),
                        items: vec![
                            UnionItem::Include(Include {
                                version: MajorVersion(1),
                                items: Vec::new(),
                            }),
                            UnionItem::Field(UnionField {
                                version: None,
                                name: "None2".to_string(),
                                body: StructBody::Unit,
                            }),
                        ],
                    }),
                    Type::Object(Object::Struct(Struct {
                        version: MajorVersion(1),
                        name: "Object".to_string(),
                        body: StructBody::Items(vec![StructItem::Field(StructField {
                            version: None,
                            name: "struct_".to_string(),
                            field_type: FieldType::Type("Struct".to_string(),
                                None,
                                Some(MajorVersion(1))
                            ),
                        }),]),
                    })),
                    Type::Object(Object::Struct(Struct {
                        version: MajorVersion(2),
                        name: "Object".to_string(),
                        body: StructBody::Tuple(Tuple(vec![TupleItem::Field(TupleField {
                            version: None,
                            field_type: FieldType::Type("Enum".to_string(),
                                None,
                                Some(MajorVersion(1))
                            ),
                        }),])),
                    })),
                    Type::Object(Object::Union(Union {
                        version: MajorVersion(3),
                        name: "Object".to_string(),
                        items: vec![UnionItem::Field(UnionField {
                            version: None,
                            name: "Struct".to_string(),
                            body: StructBody::Items(vec![StructItem::Field(StructField {
                                version: None,
                                name: "extern_object".to_string(),
                                field_type: FieldType::Reference(Box::new(FieldType::Type("types".to_string(),
                                        Some("Object".to_string()),
                                        None
                                    ))
                                ),
                            }),]),
                        }),],
                    })),
                    Type::Object(Object::Enum(Enum {
                        version: MajorVersion(4),
                        name: "Object".to_string(),
                        items: vec![EnumItem::Field(EnumField {
                            version: None,
                            name: "Zero".to_string(),
                            value: None,
                        }),],
                    })),
                    Type::Function(Function {
                        version: MajorVersion(1),
                        name: "Function".to_string(),
                        items: vec![
                            StructItem::Field(StructField {
                                version: None,
                                name: "one".to_string(),
                                field_type: FieldType::Type("Struct".to_string(),
                                    None,
                                    Some(MajorVersion(1))
                                ),
                            }),
                            StructItem::Field(StructField {
                                version: None,
                                name: "two".to_string(),
                                field_type: FieldType::Reference(Box::new(FieldType::Type("Object".to_string(),
                                        None,
                                        None,
                                    ))
                                ),
                            }),
                            StructItem::Field(StructField {
                                version: None,
                                name: "three".to_string(),
                                field_type: FieldType::Primitive(Primitive::Bytes),
                            }),
                        ],
                        return_type: Some(FieldType::Type("Struct".to_string(),
                            None,
                            Some(MajorVersion(1))
                        )),
                    }),
                    Type::Command(Command {
                        version: MajorVersion(1),
                        name: "Command".to_string(),
                        items: vec![
                            StructItem::Field(StructField {
                                version: None,
                                name: "one".to_string(),
                                field_type: FieldType::Reference(Box::new(FieldType::Type("Object".to_string(),
                                        None,
                                        None,
                                    ))
                                )
                            }),
                            StructItem::Field(StructField {
                                version: None,
                                name: "two".to_string(),
                                field_type: FieldType::Reference(Box::new(FieldType::Type("types".to_string(),
                                        Some("Object".to_string()),
                                        None,
                                    ))
                                )
                            }),
                        ],
                    }),
                ],
            },
        );
}

fn named(name: &str, version: Option<MinorVersion>, t: FieldType) -> StructItem {
    StructItem::Field(StructField { version, name: name.to_string(), field_type: t })
}

#[test]
fn scenario_single_struct() {
    let scheme = parse(r#"sch "s"; @ver(1) struct P { x: u8, }"#).unwrap();
    assert_eq!(
        scheme,
        Scheme {
            name: "s".to_string(),
            uses: vec![],
            types: vec![Type::Struct(Struct {
                version: MajorVersion(1),
                name: "P".to_string(),
                body: StructBody::Items(vec![named("x", None, FieldType::Primitive(Primitive::UInt8))]),
            })],
        }
    );
}

#[test]
fn scenario_enum_members() {
    let scheme = parse(r#"sch "s"; @ver(1) enum E { @rem(1.1) Zero, One = 1, }"#).unwrap();
    assert_eq!(
        scheme.types,
        vec![Type::Enum(Enum {
            version: MajorVersion(1),
            name: "E".to_string(),
            items: vec![
                EnumItem::Field(EnumField {
                    version: Some(MinorVersion(1, 1)),
                    name: "Zero".to_string(),
                    value: None,
                }),
                EnumItem::Field(EnumField { version: None, name: "One".to_string(), value: Some(1) }),
            ],
        })]
    );
}

#[test]
fn scenario_include_with_removal() {
    let scheme = parse(r#"sch "s"; @ver(2) struct P { @ver(1) { @rem(x) }, y: u16, }"#).unwrap();
    assert_eq!(
        scheme.types,
        vec![Type::Struct(Struct {
            version: MajorVersion(2),
            name: "P".to_string(),
            body: StructBody::Items(vec![
                StructItem::Include(Include {
                    version: MajorVersion(1),
                    items: vec![IncludeItem::Rem("x".to_string())],
                }),
                named("y", None, FieldType::Primitive(Primitive::UInt16)),
            ]),
        })]
    );
}

#[test]
fn scenario_add_in_union_rejected() {
    let err = parse(r#"sch "s"; @ver(1) union U { @add(x) Variant, }"#).unwrap_err();
    assert_eq!(
        err,
        ParseError::Policy {
            directive: Directive::Add,
            container: Container::UnionVariants,
            span: span(12),
        }
    );
    // In a struct the directive itself is allowed: the same tag fails only
    // on its literal, which must be `major.minor`.
    assert_eq!(
        parse(r#"sch "s"; @ver(1) struct S { @add(x) y: u8, }"#).unwrap_err(),
        ParseError::Syntax { span: span(14), expected: Expected::DecimalLiteral }
    );
    let ok = parse(r#"sch "s"; @ver(1) struct S { @add(1.1) x: u8, }"#).unwrap();
    assert_eq!(
        ok.types,
        vec![Type::Struct(Struct {
            version: MajorVersion(1),
            name: "S".to_string(),
            body: StructBody::Items(vec![named(
                "x",
                Some(MinorVersion(1, 1)),
                FieldType::Primitive(Primitive::UInt8)
            )]),
        })]
    );
}

#[test]
fn rem_rejected_in_additive_lists() {
    let cases = [
        (r#"sch "s"; @ver(1) struct S { @rem(1.1) x: u8, }"#, Container::StructFields, 12),
        (r#"sch "s"; @ver(1) struct S ( @rem(1.1) u8, )"#, Container::TupleFields, 12),
        (r#"sch "s"; @ver(1) fn F ( @rem(1.1) x: u8, )"#, Container::FunctionParams, 12),
        (r#"sch "s"; @ver(1) cmd C ( @rem(1.1) x: u8, )"#, Container::CommandParams, 12),
    ];
    for (src, container, at) in cases {
        assert_eq!(
            parse(src).unwrap_err(),
            ParseError::Policy { directive: Directive::Rem, container, span: span(at) }
        );
    }
    assert!(parse(r#"sch "s"; @ver(1) struct S ( @add(1.1) u8, )"#).is_ok());
    assert!(parse(r#"sch "s"; @ver(1) fn F ( @add(1.1) x: u8, )"#).is_ok());
    assert!(parse(r#"sch "s"; @ver(1) cmd C ( @add(1.1) x: u8, )"#).is_ok());
}

#[test]
fn add_rejected_in_exhaustive_lists() {
    assert_eq!(
        parse(r#"sch "s"; @ver(1) enum E { @add(1.1) A, }"#).unwrap_err(),
        ParseError::Policy { directive: Directive::Add, container: Container::EnumMembers, span: span(12) }
    );
    let ok = parse(r#"sch "s"; @ver(1) union U { @rem(1.2) None, }"#).unwrap();
    assert_eq!(
        ok.types,
        vec![Type::Union(Union {
            version: MajorVersion(1),
            name: "U".to_string(),
            items: vec![UnionItem::Field(UnionField {
                version: Some(MinorVersion(1, 2)),
                name: "None".to_string(),
                body: StructBody::Unit,
            })],
        })]
    );
}

#[test]
fn include_accepts_both_adjustments_everywhere() {
    let ok = parse(r#"sch "s"; @ver(2) enum E { @ver(1) { @add(a), @rem(b), }, }"#).unwrap();
    assert_eq!(
        ok.types,
        vec![Type::Enum(Enum {
            version: MajorVersion(2),
            name: "E".to_string(),
            items: vec![EnumItem::Include(Include {
                version: MajorVersion(1),
                items: vec![IncludeItem::Add("a".to_string()), IncludeItem::Rem("b".to_string())],
            })],
        })]
    );
}

#[test]
fn major_version_width() {
    let ok = parse(r#"sch "s"; @ver(65535) struct S;"#).unwrap();
    assert_eq!(
        ok.types,
        vec![Type::Struct(Struct { version: MajorVersion(65535), name: "S".to_string(), body: StructBody::Unit })]
    );
    assert_eq!(parse(r#"sch "s"; @ver(65536) struct S;"#).unwrap_err(), ParseError::Range { span: span(6) });
    assert_eq!(parse_bounded_uint("0", U16_MAX), Some(0));
    assert_eq!(parse_bounded_uint("65535", U16_MAX), Some(65535));
    assert_eq!(parse_bounded_uint("65536", U16_MAX), None);
    assert_eq!(parse_bounded_uint("", U16_MAX), None);
    assert_eq!(parse_bounded_uint("1x", U16_MAX), None);
}

#[test]
fn thirty_two_bit_width() {
    let ok = parse(r#"sch "s"; @ver(1) struct S { a: [u8; 4294967295], }"#).unwrap();
    assert_eq!(
        ok.types,
        vec![Type::Struct(Struct {
            version: MajorVersion(1),
            name: "S".to_string(),
            body: StructBody::Items(vec![named(
                "a",
                None,
                FieldType::Array(Box::new(FieldType::Primitive(Primitive::UInt8)), 4294967295)
            )]),
        })]
    );
    assert_eq!(
        parse(r#"sch "s"; @ver(1) struct S { a: [u8; 4294967296], }"#).unwrap_err(),
        ParseError::Range { span: span(16) }
    );
    assert_eq!(
        parse(r#"sch "s"; @ver(1) enum E { A = 4294967296, }"#).unwrap_err(),
        ParseError::Range { span: span(13) }
    );
    assert_eq!(parse_bounded_uint("4294967295", U32_MAX), Some(4294967295));
    assert_eq!(parse_bounded_uint("4294967296", U32_MAX), None);
}

#[test]
fn minor_version_shape() {
    assert_eq!(parse_minor_literal("1.2"), Some((1, 2)));
    assert_eq!(parse_minor_literal("65535.0"), Some((65535, 0)));
    assert_eq!(parse_minor_literal("12"), None);
    assert_eq!(parse_minor_literal("1.2.3"), None);
    assert_eq!(parse_minor_literal("1."), None);
    assert_eq!(parse_minor_literal("65536.1"), None);
    let mut toks = lex(r#"sch "s"; @ver(1) struct S { @add(1.1) x: u8, }"#);
    toks[14].kind = TokenKind::Decimal("1.1.1".to_string());
    assert_eq!(Scheme::parse(&toks).unwrap_err(), ParseError::Range { span: span(14) });
    toks[14].kind = TokenKind::Decimal("11".to_string());
    assert_eq!(Scheme::parse(&toks).unwrap_err(), ParseError::Range { span: span(14) });
    toks[14].kind = TokenKind::Int("11".to_string());
    assert_eq!(
        Scheme::parse(&toks).unwrap_err(),
        ParseError::Syntax { span: span(14), expected: Expected::DecimalLiteral }
    );
}

fn field_of(src: &str) -> FieldType {
    let scheme = parse(&format!(r#"sch "s"; @ver(1) struct S {{ f: {}, }}"#, src)).unwrap();
    match scheme.types.into_iter().next() {
        Some(Type::Struct(Struct { body: StructBody::Items(mut items), .. })) => match items.remove(0) {
            StructItem::Field(f) => f.field_type,
            other => panic!("unexpected item {:?}", other),
        },
        other => panic!("unexpected declaration {:?}", other),
    }
}

#[test]
fn bracket_forms() {
    let u8_ = || Box::new(FieldType::Primitive(Primitive::UInt8));
    assert_eq!(field_of("[u8]"), FieldType::List(u8_()));
    assert_eq!(field_of("[u8; 4]"), FieldType::Array(u8_(), 4));
    assert_eq!(
        field_of("[u8: str]"),
        FieldType::Mapping(u8_(), Box::new(FieldType::Primitive(Primitive::String)))
    );
    assert_eq!(
        field_of("[?[u8]]"),
        FieldType::List(Box::new(FieldType::Optional(Box::new(FieldType::List(u8_())))))
    );
    assert_eq!(
        parse(r#"sch "s"; @ver(1) struct S { f: [u8 = u8], }"#).unwrap_err(),
        ParseError::Syntax { span: span(15), expected: Expected::BracketRest }
    );
}

#[test]
fn field_type_forms() {
    let names = [
        ("i8", Primitive::Int8),
        ("i16", Primitive::Int16),
        ("i32", Primitive::Int32),
        ("i64", Primitive::Int64),
        ("u8", Primitive::UInt8),
        ("u16", Primitive::UInt16),
        ("u32", Primitive::UInt32),
        ("u64", Primitive::UInt64),
        ("f32", Primitive::Float32),
        ("f64", Primitive::Float64),
        ("bool", Primitive::Boolean),
        ("str", Primitive::String),
        ("bytes", Primitive::Bytes),
        ("any", Primitive::Any),
    ];
    for (word, p) in names {
        assert_eq!(field_of(word), FieldType::Primitive(p));
    }
    assert_eq!(field_of("U8"), FieldType::Type("U8".to_string(), None, None));
    assert_eq!(
        field_of("&m::T@ver(3)"),
        FieldType::Reference(Box::new(FieldType::Type(
            "m".to_string(),
            Some("T".to_string()),
            Some(MajorVersion(3))
        )))
    );
    assert_eq!(
        field_of("(u8, @add(1.1) bool)"),
        FieldType::Tuple(Tuple(vec![
            TupleItem::Field(TupleField { version: None, field_type: FieldType::Primitive(Primitive::UInt8) }),
            TupleItem::Field(TupleField {
                version: Some(MinorVersion(1, 1)),
                field_type: FieldType::Primitive(Primitive::Boolean)
            }),
        ]))
    );
}

#[test]
fn object_kinds() {
    let scheme = parse(
        r#"sch "s";
        @ver(1) obj(struct) O { a: u8, }
        @ver(2) obj(union) O { A, }
        @ver(3) obj(enum) O { A = 3, }"#,
    )
    .unwrap();
    assert_eq!(
        scheme.types,
        vec![
            Type::Object(Object::Struct(Struct {
                version: MajorVersion(1),
                name: "O".to_string(),
                body: StructBody::Items(vec![named("a", None, FieldType::Primitive(Primitive::UInt8))]),
            })),
            Type::Object(Object::Union(Union {
                version: MajorVersion(2),
                name: "O".to_string(),
                items: vec![UnionItem::Field(UnionField {
                    version: None,
                    name: "A".to_string(),
                    body: StructBody::Unit,
                })],
            })),
            Type::Object(Object::Enum(Enum {
                version: MajorVersion(3),
                name: "O".to_string(),
                items: vec![EnumItem::Field(EnumField { version: None, name: "A".to_string(), value: Some(3) })],
            })),
        ]
    );
    assert_eq!(
        parse(r#"sch "s"; @ver(1) obj(enum) O { a: u8, }"#).unwrap_err(),
        ParseError::Syntax { span: span(15), expected: Expected::Token(Punct::Comma) }
    );
    assert_eq!(
        parse(r#"sch "s"; @ver(1) obj(fn) O { a: u8, }"#).unwrap_err(),
        ParseError::Syntax { span: span(10), expected: Expected::ObjectKind }
    );
}

#[test]
fn function_and_command() {
    let scheme = parse(r#"sch "s"; @ver(1) fn F(a: u8,) -> bool @ver(1) cmd C()"#).unwrap();
    assert_eq!(
        scheme.types,
        vec![
            Type::Function(Function {
                version: MajorVersion(1),
                name: "F".to_string(),
                items: vec![named("a", None, FieldType::Primitive(Primitive::UInt8))],
                return_type: Some(FieldType::Primitive(Primitive::Boolean)),
            }),
            Type::Command(Command { version: MajorVersion(1), name: "C".to_string(), items: vec![] }),
        ]
    );
}

#[test]
fn errors_and_edges() {
    assert_eq!(Scheme::parse(&vec![]).unwrap_err(), ParseError::EmptyInput);
    assert_eq!(parse(r#"sch "s";"#).unwrap(), Scheme { name: "s".to_string(), uses: vec![], types: vec![] });
    assert_eq!(parse(r#"sch "s"; use a"#).unwrap_err(), ParseError::EmptyInput);
    assert_eq!(parse(r#"sch "s"; use a::b as c"#).unwrap_err(), ParseError::EmptyInput);
    assert_eq!(parse(r#"scheme "s";"#).unwrap_err(), ParseError::Syntax { span: span(0), expected: Expected::SchemeKeyword });
    assert_eq!(parse(r#"sch "s"; struct S;"#).unwrap_err(), ParseError::Syntax { span: span(3), expected: Expected::Item });
    assert_eq!(parse(r#"sch "s"; @ver(1) trait S;"#).unwrap_err(), ParseError::Syntax { span: span(8), expected: Expected::Declaration });
    assert_eq!(parse(r#"sch "s"; @ver(1) struct S { a: u8 }"#).unwrap_err(), ParseError::Syntax { span: span(14), expected: Expected::Token(Punct::Comma) });
    let mut unclosed = lex(r#"sch "s"; @ver(1) struct S { a: u8, }"#);
    unclosed.pop();
    assert_eq!(Scheme::parse(&unclosed).unwrap_err(), ParseError::EmptyInput);
    assert_eq!(parse(r#"sch 5;"#).unwrap_err(), ParseError::Syntax { span: span(1), expected: Expected::StringLiteral });
}

#[test]
fn imports_precede_declarations() {
    assert_eq!(
        parse(r#"sch "s"; @ver(1) struct S; use a;"#).unwrap_err(),
        ParseError::Syntax { span: span(11), expected: Expected::Token(Punct::At) }
    );
}

#[test]
fn include_adjustments_trailing_comma_optional() {
    let with = parse(r#"sch "s"; @ver(2) enum E { @ver(1) { @add(a), @rem(b), }, }"#).unwrap();
    let without = parse(r#"sch "s"; @ver(2) enum E { @ver(1) { @add(a), @rem(b) }, }"#).unwrap();
    assert_eq!(with, without);
    assert_eq!(
        parse(r#"sch "s"; @ver(2) enum E { @ver(1) { @add(a) @rem(b) }, }"#).unwrap_err(),
        ParseError::Syntax { span: span(22), expected: Expected::Token(Punct::Comma) }
    );
}

#[test]
fn scheme_name_is_unescaped() {
    let scheme = parse(r#"sch "a\"b\n"; use x::y as z;"#).unwrap();
    assert_eq!(scheme.name, "a\"b\n".to_string());
    assert_eq!(
        scheme.uses,
        vec![Use { segments: vec!["x".to_string(), "y".to_string()], alias: Some("z".to_string()) }]
    );
}

#[test]
fn canonical_rendering_parses_back() {
    let written = parse(
        r#"sch "s";
        use x::y as z;
        @ver(1) struct A { t: (u8, @add(1.2) [m::T@ver(2): ?&str]), }
        @ver(1) union U { @ver(1) { @add(a), }, V(u8), @rem(1.1) W, }
        @ver(2) fn F(a: [u8; 3],) -> A@ver(1)
        @ver(3) cmd C()"#,
    )
    .unwrap();
    let canonical = parse(
        r#"sch "s";
        use x::y as z;
        @ver(1) struct A { t: (u8, @add(1.2) [m::T@ver(2): ?&str],), }
        @ver(1) union U { @ver(1) { @add(a), }, V(u8,), @rem(1.1) W, }
        @ver(2) fn F(a: [u8; 3],) -> A@ver(1)
        @ver(3) cmd C()"#,
    )
    .unwrap();
    assert_eq!(written, canonical);
}
