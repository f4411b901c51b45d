//! The declaration that comes in and the method descriptions that go out.
//!
//! Every executable type has a mathematical model, reached by `deep_view`,
//! in which strings are sequences of characters and vectors are sequences.

use vstd::prelude::*;

verus! {

/// Whether an item can be reached from outside its module.
#[derive(Debug, Clone, Copy, PartialEq, Eq, Structural)]
pub enum Visibility {
    Public,
    Inherited,
}

/// The shape of a type declaration.
#[derive(Debug, Clone, Copy, PartialEq, Eq, Structural)]
pub enum DeclarationKind {
    /// A struct with named fields, possibly none.
    Record,
    Enumeration,
    /// A struct with positional fields.
    Tuple,
    /// A struct without a field list.
    Unit,
}

/// Which of the two generated forms a method has.
#[derive(Debug, Clone, Copy, PartialEq, Eq, Structural)]
pub enum Mutability {
    /// Takes the receiver by value and returns the updated value.
    Consuming,
    /// Assigns through an exclusive reference and returns that reference.
    Mutating,
}

/// Why a declaration could not be expanded.
#[derive(Debug, Clone, Copy, PartialEq, Eq, Structural)]
pub enum ExpandError {
    /// The declaration is not a struct with named fields.
    UnsupportedDeclarationKind,
    /// A `smelter` attribute is not a list, or a recognised key holds a
    /// value of the wrong shape.
    MalformedDirective,
}

/// The literal on the right of `key = literal`.
#[derive(Debug, Clone, PartialEq, Eq)]
pub enum DirectiveValue {
    Text(String),
    Switch(bool),
    /// Any literal that is neither a string nor a boolean.
    Other,
}

pub enum DirectiveValueModel {
    Text(Seq<char>),
    Switch(bool),
    Other,
}

impl DeepView for DirectiveValue {
    type V = DirectiveValueModel;

    open spec fn deep_view(&self) -> DirectiveValueModel {
        match self {
            DirectiveValue::Text(s) => DirectiveValueModel::Text(s@),
            DirectiveValue::Switch(b) => DirectiveValueModel::Switch(*b),
            DirectiveValue::Other => DirectiveValueModel::Other,
        }
    }
}

/// One item between the parentheses of a list-shaped attribute.
#[derive(Debug, Clone, PartialEq, Eq)]
pub enum DirectiveEntry {
    /// A bare word, such as `force_public`.
    Flag(String),
    /// `key = literal`.
    KeyValue(String, DirectiveValue),
    /// Anything else (a nested list, a bare literal); it has no effect.
    Inert,
}

pub enum DirectiveEntryModel {
    Flag(Seq<char>),
    KeyValue(Seq<char>, DirectiveValueModel),
    Inert,
}

impl DeepView for DirectiveEntry {
    type V = DirectiveEntryModel;

    open spec fn deep_view(&self) -> DirectiveEntryModel {
        match self {
            DirectiveEntry::Flag(name) => DirectiveEntryModel::Flag(name@),
            DirectiveEntry::KeyValue(key, value) => DirectiveEntryModel::KeyValue(
                key@,
                value.deep_view(),
            ),
            DirectiveEntry::Inert => DirectiveEntryModel::Inert,
        }
    }
}

/// One attribute as it stands above a type or a field.
#[derive(Debug, Clone, PartialEq, Eq)]
pub enum Attribute {
    /// `#[name]`
    Word(String),
    /// `#[name = literal]`
    NameValue(String),
    /// `#[name(item, ..)]`
    List(String, Vec<DirectiveEntry>),
}

pub enum AttributeModel {
    Word(Seq<char>),
    NameValue(Seq<char>),
    List(Seq<char>, Seq<DirectiveEntryModel>),
}

impl AttributeModel {
    /// The identifier at the head of the attribute.
    pub open spec fn name(self) -> Seq<char> {
        match self {
            AttributeModel::Word(n) => n,
            AttributeModel::NameValue(n) => n,
            AttributeModel::List(n, _) => n,
        }
    }
}

impl DeepView for Attribute {
    type V = AttributeModel;

    open spec fn deep_view(&self) -> AttributeModel {
        match self {
            Attribute::Word(name) => AttributeModel::Word(name@),
            Attribute::NameValue(name) => AttributeModel::NameValue(name@),
            Attribute::List(name, items) => AttributeModel::List(name@, items.deep_view()),
        }
    }
}

/// A lifetime or type parameter of a declaration, with its bounds.
#[derive(Debug, Clone, PartialEq, Eq)]
pub struct GenericParam {
    /// The parameter as written: `T`, or `'a` for a lifetime.
    pub name: String,
    /// The bounds after the colon, in order; empty where there are none.
    pub constraints: Vec<String>,
}

pub struct GenericParamModel {
    pub name: Seq<char>,
    pub constraints: Seq<Seq<char>>,
}

impl DeepView for GenericParam {
    type V = GenericParamModel;

    open spec fn deep_view(&self) -> GenericParamModel {
        GenericParamModel { name: self.name@, constraints: self.constraints.deep_view() }
    }
}

/// One field of a declaration.
#[derive(Debug, Clone, PartialEq, Eq)]
pub struct FieldDeclaration {
    pub name: String,
    /// The field's type as written; it is carried along and never read.
    pub ty: String,
    pub visibility: Visibility,
    pub attributes: Vec<Attribute>,
}

pub struct FieldDeclarationModel {
    pub name: Seq<char>,
    pub ty: Seq<char>,
    pub visibility: Visibility,
    pub attributes: Seq<AttributeModel>,
}

impl DeepView for FieldDeclaration {
    type V = FieldDeclarationModel;

    open spec fn deep_view(&self) -> FieldDeclarationModel {
        FieldDeclarationModel {
            name: self.name@,
            ty: self.ty@,
            visibility: self.visibility,
            attributes: self.attributes.deep_view(),
        }
    }
}

/// A type declaration as the parser hands it over.
#[derive(Debug, Clone, PartialEq, Eq)]
pub struct RecordDeclaration {
    pub name: String,
    pub kind: DeclarationKind,
    /// The fields in the order of the source; read only for `Record`.
    pub fields: Vec<FieldDeclaration>,
    pub generics: Vec<GenericParam>,
    pub attributes: Vec<Attribute>,
}

pub struct RecordDeclarationModel {
    pub name: Seq<char>,
    pub kind: DeclarationKind,
    pub fields: Seq<FieldDeclarationModel>,
    pub generics: Seq<GenericParamModel>,
    pub attributes: Seq<AttributeModel>,
}

impl DeepView for RecordDeclaration {
    type V = RecordDeclarationModel;

    open spec fn deep_view(&self) -> RecordDeclarationModel {
        RecordDeclarationModel {
            name: self.name@,
            kind: self.kind,
            fields: self.fields.deep_view(),
            generics: self.generics.deep_view(),
            attributes: self.attributes.deep_view(),
        }
    }
}

/// The type that a generated method belongs to and returns.
#[derive(Debug, Clone, PartialEq, Eq)]
pub struct OwnerRef {
    pub name: String,
    pub generics: Vec<GenericParam>,
}

pub struct OwnerRefModel {
    pub name: Seq<char>,
    pub generics: Seq<GenericParamModel>,
}

impl DeepView for OwnerRef {
    type V = OwnerRefModel;

    open spec fn deep_view(&self) -> OwnerRefModel {
        OwnerRefModel { name: self.name@, generics: self.generics.deep_view() }
    }
}

/// The description of one generated method.
#[derive(Debug, Clone, PartialEq, Eq)]
pub struct MethodSpec {
    pub name: String,
    pub mutability: Mutability,
    pub owner: OwnerRef,
    /// The field that the method sets.
    pub field: String,
    /// The type of the value that the method takes.
    pub field_type: String,
    pub visibility: Visibility,
}

pub struct MethodSpecModel {
    pub name: Seq<char>,
    pub mutability: Mutability,
    pub owner: OwnerRefModel,
    pub field: Seq<char>,
    pub field_type: Seq<char>,
    pub visibility: Visibility,
}

impl DeepView for MethodSpec {
    type V = MethodSpecModel;

    open spec fn deep_view(&self) -> MethodSpecModel {
        MethodSpecModel {
            name: self.name@,
            mutability: self.mutability,
            owner: self.owner.deep_view(),
            field: self.field@,
            field_type: self.field_type@,
            visibility: self.visibility,
        }
    }
}

/// Whether `name` spells `literal`.
pub fn is_named(name: &String, literal: &str) -> (res: bool)
    ensures
        res == (name@ == literal@),
{
    let wanted = String::from_str(literal);
    *name == wanted
}

/// A copy of a list of strings.
pub fn clone_strings(items: &Vec<String>) -> (res: Vec<String>)
    ensures
        res.deep_view() == items.deep_view(),
{
    let mut out: Vec<String> = Vec::new();
    let mut i: usize = 0;
    while i < items.len()
        invariant
            i <= items.len(),
            out.len() == i,
            forall|j: int| 0 <= j < i ==> out[j]@ == items[j]@,
        decreases items.len() - i,
    {
        out.push(items[i].clone());
        i += 1;
    }
    assert(out.deep_view() =~= items.deep_view());
    out
}

/// A copy of a generic parameter list, bounds included.
pub fn clone_generics(params: &Vec<GenericParam>) -> (res: Vec<GenericParam>)
    ensures
        res.deep_view() == params.deep_view(),
{
    let mut out: Vec<GenericParam> = Vec::new();
    let mut i: usize = 0;
    while i < params.len()
        invariant
            i <= params.len(),
            out.len() == i,
            forall|j: int| 0 <= j < i ==> out[j].deep_view() == params[j].deep_view(),
        decreases params.len() - i,
    {
        let p = &params[i];
        out.push(GenericParam { name: p.name.clone(), constraints: clone_strings(&p.constraints) });
        i += 1;
    }
    assert(out.deep_view() =~= params.deep_view());
    out
}

/// A copy of a method description.
pub fn clone_method(method: &MethodSpec) -> (res: MethodSpec)
    ensures
        res.deep_view() == method.deep_view(),
{
    MethodSpec {
        name: method.name.clone(),
        mutability: method.mutability,
        owner: OwnerRef {
            name: method.owner.name.clone(),
            generics: clone_generics(&method.owner.generics),
        },
        field: method.field.clone(),
        field_type: method.field_type.clone(),
        visibility: method.visibility,
    }
}

} // verus!
