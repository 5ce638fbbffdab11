use vstd::prelude::*;

verus! {

broadcast use vstd::std_specs::vec::group_vec_axioms, vstd::seq::group_seq_axioms;

/// A major version: an incompatible revision of a named type.
#[derive(Clone, Copy, Debug, PartialEq, Eq, Structural)]
pub struct MajorVersion(pub u16);

/// A minor version `(major, minor)` at which an item was added or removed.
#[derive(Clone, Copy, Debug, PartialEq, Eq, Structural)]
pub struct MinorVersion(pub u16, pub u16);

#[derive(Clone, Copy, Debug, PartialEq, Eq, Structural)]
pub enum Primitive {
    Int8,
    Int16,
    Int32,
    Int64,
    UInt8,
    UInt16,
    UInt32,
    UInt64,
    Float32,
    Float64,
    Boolean,
    String,
    Bytes,
    Any,
}

#[derive(Debug, PartialEq)]
pub struct Scheme {
    pub name: String,
    pub uses: Vec<Use>,
    pub types: Vec<Type>,
}

#[derive(Debug, PartialEq)]
pub struct Use {
    pub segments: Vec<String>,
    pub alias: Option<String>,
}

#[derive(Debug, PartialEq)]
pub enum Type {
    Object(Object),
    Struct(Struct),
    Union(Union),
    Enum(Enum),
    Function(Function),
    Command(Command),
}

/// A declaration whose representation kind is chosen explicitly.
#[derive(Debug, PartialEq)]
pub enum Object {
    Struct(Struct),
    Union(Union),
    Enum(Enum),
}

#[derive(Debug, PartialEq)]
pub struct Struct {
    pub version: MajorVersion,
    pub name: String,
    pub body: StructBody,
}

#[derive(Debug, PartialEq)]
pub struct Union {
    pub version: MajorVersion,
    pub name: String,
    pub items: Vec<UnionItem>,
}

#[derive(Debug, PartialEq)]
pub enum UnionItem {
    Include(Include),
    Field(UnionField),
}

#[derive(Debug, PartialEq)]
pub struct UnionField {
    pub version: Option<MinorVersion>,
    pub name: String,
    pub body: StructBody,
}

#[derive(Debug, PartialEq)]
pub enum StructBody {
    Items(Vec<StructItem>),
    Tuple(Tuple),
    Unit,
}

#[derive(Debug, PartialEq)]
pub enum StructItem {
    Include(Include),
    Field(StructField),
}

#[derive(Debug, PartialEq)]
pub struct StructField {
    pub version: Option<MinorVersion>,
    pub name: String,
    pub field_type: FieldType,
}

#[derive(Debug, PartialEq)]
pub struct Tuple(pub Vec<TupleItem>);

#[derive(Debug, PartialEq)]
pub enum TupleItem {
    Include(Include),
    Field(TupleField),
}

#[derive(Debug, PartialEq)]
pub struct TupleField {
    pub version: Option<MinorVersion>,
    pub field_type: FieldType,
}

#[derive(Debug, PartialEq)]
pub struct Enum {
    pub version: MajorVersion,
    pub name: String,
    pub items: Vec<EnumItem>,
}

#[derive(Debug, PartialEq)]
pub enum EnumItem {
    Include(Include),
    Field(EnumField),
}

#[derive(Debug, PartialEq)]
pub struct EnumField {
    pub version: Option<MinorVersion>,
    pub name: String,
    pub value: Option<u32>,
}

#[derive(Debug, PartialEq)]
pub struct Function {
    pub version: MajorVersion,
    pub name: String,
    pub items: Vec<StructItem>,
    pub return_type: Option<FieldType>,
}

#[derive(Debug, PartialEq)]
pub struct Command {
    pub version: MajorVersion,
    pub name: String,
    pub items: Vec<StructItem>,
}

/// Reuse of the item set of an earlier major version of the same container,
/// with name-level adjustments applied downstream.
#[derive(Debug, PartialEq)]
pub struct Include {
    pub version: MajorVersion,
    pub items: Vec<IncludeItem>,
}

#[derive(Debug, PartialEq)]
pub enum IncludeItem {
    Add(String),
    Rem(String),
}

#[derive(Debug, PartialEq)]
pub enum FieldType {
    Primitive(Primitive),
    /// A named type: its name, or module and name, and an optional pinned version.
    Type(String, Option<String>, Option<MajorVersion>),
    Optional(Box<FieldType>),
    Reference(Box<FieldType>),
    Array(Box<FieldType>, u32),
    List(Box<FieldType>),
    Mapping(Box<FieldType>, Box<FieldType>),
    Tuple(Tuple),
}

// ---------------------------------------------------------------------------
// Mathematical model of the tree: strings become `Seq<char>`, vectors `Seq`.

pub struct SchemeView {
    pub name: Seq<char>,
    pub uses: Seq<UseView>,
    pub types: Seq<TypeView>,
}

pub struct UseView {
    pub segments: Seq<Seq<char>>,
    pub alias: Option<Seq<char>>,
}

pub enum TypeView {
    Object(ObjectView),
    Struct(StructView),
    Union(UnionView),
    Enum(EnumView),
    Function(FunctionView),
    Command(CommandView),
}

pub enum ObjectView {
    Struct(StructView),
    Union(UnionView),
    Enum(EnumView),
}

pub struct StructView {
    pub version: MajorVersion,
    pub name: Seq<char>,
    pub body: StructBodyView,
}

pub struct UnionView {
    pub version: MajorVersion,
    pub name: Seq<char>,
    pub items: Seq<ItemView<UnionFieldView>>,
}

pub struct EnumView {
    pub version: MajorVersion,
    pub name: Seq<char>,
    pub items: Seq<ItemView<EnumFieldView>>,
}

pub struct FunctionView {
    pub version: MajorVersion,
    pub name: Seq<char>,
    pub items: Seq<ItemView<StructFieldView>>,
    pub return_type: Option<FieldTypeView>,
}

pub struct CommandView {
    pub version: MajorVersion,
    pub name: Seq<char>,
    pub items: Seq<ItemView<StructFieldView>>,
}

/// An entry of any item list: an include, or a field of the list's kind.
pub enum ItemView<F> {
    Include(IncludeView),
    Field(F),
}

pub struct UnionFieldView {
    pub version: Option<MinorVersion>,
    pub name: Seq<char>,
    pub body: StructBodyView,
}

pub enum StructBodyView {
    Items(Seq<ItemView<StructFieldView>>),
    Tuple(Seq<ItemView<TupleFieldView>>),
    Unit,
}

pub struct StructFieldView {
    pub version: Option<MinorVersion>,
    pub name: Seq<char>,
    pub field_type: FieldTypeView,
}

pub struct TupleFieldView {
    pub version: Option<MinorVersion>,
    pub field_type: FieldTypeView,
}

pub struct EnumFieldView {
    pub version: Option<MinorVersion>,
    pub name: Seq<char>,
    pub value: Option<u32>,
}

pub struct IncludeView {
    pub version: MajorVersion,
    pub items: Seq<IncludeItemView>,
}

pub enum IncludeItemView {
    Add(Seq<char>),
    Rem(Seq<char>),
}

pub enum FieldTypeView {
    Primitive(Primitive),
    Type(Seq<char>, Option<Seq<char>>, Option<MajorVersion>),
    Optional(Box<FieldTypeView>),
    Reference(Box<FieldTypeView>),
    Array(Box<FieldTypeView>, u32),
    List(Box<FieldTypeView>),
    Mapping(Box<FieldTypeView>, Box<FieldTypeView>),
    Tuple(Seq<ItemView<TupleFieldView>>),
}

pub open spec fn view_seq<T: View>(s: Seq<T>) -> Seq<T::V> {
    s.map_values(|x: T| x@)
}

pub open spec fn opt_str(o: Option<String>) -> Option<Seq<char>> {
    match o {
        Some(s) => Some(s@),
        None => None,
    }
}

pub open spec fn view_field_type(t: FieldType) -> FieldTypeView
    decreases t,
{
    match t {
        FieldType::Primitive(p) => FieldTypeView::Primitive(p),
        FieldType::Type(a, b, v) => FieldTypeView::Type(a@, opt_str(b), v),
        FieldType::Optional(b) => FieldTypeView::Optional(Box::new(view_field_type(*b))),
        FieldType::Reference(b) => FieldTypeView::Reference(Box::new(view_field_type(*b))),
        FieldType::Array(b, n) => FieldTypeView::Array(Box::new(view_field_type(*b)), n),
        FieldType::List(b) => FieldTypeView::List(Box::new(view_field_type(*b))),
        FieldType::Mapping(k, v) => FieldTypeView::Mapping(
            Box::new(view_field_type(*k)),
            Box::new(view_field_type(*v)),
        ),
        FieldType::Tuple(t) => FieldTypeView::Tuple(view_tuple_items(t.0@)),
    }
}

/// The model of a tuple's items, built from the last item backwards so that
/// appending an item appends its model.
pub open spec fn view_tuple_items(s: Seq<TupleItem>) -> Seq<ItemView<TupleFieldView>>
    decreases s,
{
    if s.len() == 0 {
        Seq::empty()
    } else {
        let last = match s.last() {
            TupleItem::Include(i) => ItemView::Include(i@),
            TupleItem::Field(f) => ItemView::Field(
                TupleFieldView { version: f.version, field_type: view_field_type(f.field_type) },
            ),
        };
        view_tuple_items(s.drop_last()).push(last)
    }
}

impl View for FieldType {
    type V = FieldTypeView;

    open spec fn view(&self) -> FieldTypeView {
        view_field_type(*self)
    }
}

impl View for Tuple {
    type V = Seq<ItemView<TupleFieldView>>;

    open spec fn view(&self) -> Seq<ItemView<TupleFieldView>> {
        view_tuple_items(self.0@)
    }
}

impl View for TupleItem {
    type V = ItemView<TupleFieldView>;

    open spec fn view(&self) -> ItemView<TupleFieldView> {
        match self {
            TupleItem::Include(i) => ItemView::Include(i@),
            TupleItem::Field(f) => ItemView::Field(
                TupleFieldView { version: f.version, field_type: f.field_type@ },
            ),
        }
    }
}

impl View for IncludeItem {
    type V = IncludeItemView;

    open spec fn view(&self) -> IncludeItemView {
        match self {
            IncludeItem::Add(s) => IncludeItemView::Add(s@),
            IncludeItem::Rem(s) => IncludeItemView::Rem(s@),
        }
    }
}

impl View for Include {
    type V = IncludeView;

    open spec fn view(&self) -> IncludeView {
        IncludeView { version: self.version, items: view_seq(self.items@) }
    }
}

impl View for StructField {
    type V = StructFieldView;

    open spec fn view(&self) -> StructFieldView {
        StructFieldView { version: self.version, name: self.name@, field_type: self.field_type@ }
    }
}

impl View for StructItem {
    type V = ItemView<StructFieldView>;

    open spec fn view(&self) -> ItemView<StructFieldView> {
        match self {
            StructItem::Include(i) => ItemView::Include(i@),
            StructItem::Field(f) => ItemView::Field(f@),
        }
    }
}

impl View for StructBody {
    type V = StructBodyView;

    open spec fn view(&self) -> StructBodyView {
        match self {
            StructBody::Items(items) => StructBodyView::Items(view_seq(items@)),
            StructBody::Tuple(t) => StructBodyView::Tuple(t@),
            StructBody::Unit => StructBodyView::Unit,
        }
    }
}

impl View for UnionField {
    type V = UnionFieldView;

    open spec fn view(&self) -> UnionFieldView {
        UnionFieldView { version: self.version, name: self.name@, body: self.body@ }
    }
}

impl View for UnionItem {
    type V = ItemView<UnionFieldView>;

    open spec fn view(&self) -> ItemView<UnionFieldView> {
        match self {
            UnionItem::Include(i) => ItemView::Include(i@),
            UnionItem::Field(f) => ItemView::Field(f@),
        }
    }
}

impl View for EnumField {
    type V = EnumFieldView;

    open spec fn view(&self) -> EnumFieldView {
        EnumFieldView { version: self.version, name: self.name@, value: self.value }
    }
}

impl View for EnumItem {
    type V = ItemView<EnumFieldView>;

    open spec fn view(&self) -> ItemView<EnumFieldView> {
        match self {
            EnumItem::Include(i) => ItemView::Include(i@),
            EnumItem::Field(f) => ItemView::Field(f@),
        }
    }
}

impl View for Struct {
    type V = StructView;

    open spec fn view(&self) -> StructView {
        StructView { version: self.version, name: self.name@, body: self.body@ }
    }
}

impl View for Union {
    type V = UnionView;

    open spec fn view(&self) -> UnionView {
        UnionView { version: self.version, name: self.name@, items: view_seq(self.items@) }
    }
}

impl View for Enum {
    type V = EnumView;

    open spec fn view(&self) -> EnumView {
        EnumView { version: self.version, name: self.name@, items: view_seq(self.items@) }
    }
}

impl View for Function {
    type V = FunctionView;

    open spec fn view(&self) -> FunctionView {
        FunctionView {
            version: self.version,
            name: self.name@,
            items: view_seq(self.items@),
            return_type: match self.return_type {
                Some(t) => Some(t@),
                None => None,
            },
        }
    }
}

impl View for Command {
    type V = CommandView;

    open spec fn view(&self) -> CommandView {
        CommandView { version: self.version, name: self.name@, items: view_seq(self.items@) }
    }
}

impl View for Object {
    type V = ObjectView;

    open spec fn view(&self) -> ObjectView {
        match self {
            Object::Struct(s) => ObjectView::Struct(s@),
            Object::Union(u) => ObjectView::Union(u@),
            Object::Enum(e) => ObjectView::Enum(e@),
        }
    }
}

impl View for Type {
    type V = TypeView;

    open spec fn view(&self) -> TypeView {
        match self {
            Type::Object(o) => TypeView::Object(o@),
            Type::Struct(s) => TypeView::Struct(s@),
            Type::Union(u) => TypeView::Union(u@),
            Type::Enum(e) => TypeView::Enum(e@),
            Type::Function(f) => TypeView::Function(f@),
            Type::Command(c) => TypeView::Command(c@),
        }
    }
}

impl View for Use {
    type V = UseView;

    open spec fn view(&self) -> UseView {
        UseView { segments: view_seq(self.segments@), alias: opt_str(self.alias) }
    }
}

impl View for Scheme {
    type V = SchemeView;

    open spec fn view(&self) -> SchemeView {
        SchemeView { name: self.name@, uses: view_seq(self.uses@), types: view_seq(self.types@) }
    }
}

/// Appending an item to a tuple appends its model.
pub proof fn lemma_view_tuple_push(s: Seq<TupleItem>, x: TupleItem)
    ensures
        view_tuple_items(s.push(x)) == view_tuple_items(s).push(x@),
{
    assert(s.push(x).drop_last() =~= s);
}

/// Appending to a vector appends the element's model.
pub proof fn lemma_view_seq_push<T: View>(s: Seq<T>, x: T)
    ensures
        view_seq(s.push(x)) == view_seq(s).push(x@),
{
    assert(view_seq(s.push(x)) =~= view_seq(s).push(x@));
}

} // verus!
