//! Schema documents: the ordered sequence of type-system definitions that
//! declares every type, field and root operation of an API.

use vstd::prelude::*;
use crate::base::{Ident, Pos, StringValue};
use crate::operations::OperationType;
use crate::types::Type;

verus! {

/// A schema document; definitions keep their source order.
pub struct TypeSystemDocument {
    pub definitions: Vec<TypeSystemDefinition>,
}

pub enum TypeSystemDefinition {
    SchemaDefinition(SchemaDefinition),
    TypeDefinition(TypeDefinition),
    DirectiveDefinition(DirectiveDefinition),
}

/// The explicit root-operation mapping of a schema.
pub struct SchemaDefinition {
    pub position: Pos,
    pub description: Option<StringValue>,
    pub definitions: Vec<(OperationType, Ident)>,
}

/// A directive declaration; ignored by the type translation.
pub struct DirectiveDefinition {
    pub position: Pos,
    pub name: Ident,
}

pub enum TypeDefinition {
    Scalar(ScalarTypeDefinition),
    Object(ObjectTypeDefinition),
    Interface(InterfaceTypeDefinition),
    Union(UnionTypeDefinition),
    Enum(EnumTypeDefinition),
    InputObject(InputObjectTypeDefinition),
}

/// A field of an object, interface or input object type.
pub struct FieldDefinition {
    pub name: Ident,
    pub description: Option<StringValue>,
    pub deprecation: Option<String>,
    pub ty: Type,
}

pub struct ScalarTypeDefinition {
    pub position: Pos,
    pub scalar_keyword: Pos,
    pub name: Ident,
    pub description: Option<StringValue>,
}

pub struct ObjectTypeDefinition {
    pub position: Pos,
    pub type_keyword: Pos,
    pub name: Ident,
    pub implements: Vec<Ident>,
    pub description: Option<StringValue>,
    pub fields: Vec<FieldDefinition>,
}

pub struct InterfaceTypeDefinition {
    pub position: Pos,
    pub interface_keyword: Pos,
    pub name: Ident,
    pub description: Option<StringValue>,
    pub fields: Vec<FieldDefinition>,
}

pub struct UnionTypeDefinition {
    pub position: Pos,
    pub union_keyword: Pos,
    pub name: Ident,
    pub description: Option<StringValue>,
    pub members: Vec<Ident>,
}

pub struct EnumTypeDefinition {
    pub position: Pos,
    pub enum_keyword: Pos,
    pub name: Ident,
    pub description: Option<StringValue>,
    pub values: Vec<EnumValueDefinition>,
}

pub struct EnumValueDefinition {
    pub name: Ident,
    pub description: Option<StringValue>,
    pub deprecation: Option<String>,
}

pub struct InputObjectTypeDefinition {
    pub position: Pos,
    pub input_keyword: Pos,
    pub name: Ident,
    pub description: Option<StringValue>,
    pub fields: Vec<FieldDefinition>,
}

} // verus!
