//! Executable documents: operations and fragments.

use vstd::prelude::*;
use crate::base::{Ident, Pos, Variable};
use crate::directive::Directive;
use crate::selection_set::SelectionSet;
use crate::types::Type;
use crate::value::Value;

verus! {

#[derive(Copy, Clone, PartialEq, Eq, Structural, Debug)]
pub enum OperationType {
    Query,
    Mutation,
    Subscription,
}

pub struct VariablesDefinition {
    pub position: Pos,
    pub definitions: Vec<VariableDefinition>,
}

pub struct VariableDefinition {
    pub pos: Pos,
    pub name: Variable,
    pub ty: Type,
    pub default_value: Option<Value>,
    pub directives: Vec<Directive>,
}

pub enum ExecutableDefinition {
    OperationDefinition(OperationDefinition),
    FragmentDefinition(FragmentDefinition),
}

pub struct OperationDefinition {
    pub operation_type: OperationType,
    pub name: Option<Ident>,
    pub variables_definition: Option<VariablesDefinition>,
    pub directives: Vec<Directive>,
    pub selection_set: SelectionSet,
}

pub struct FragmentDefinition {
    pub position: Pos,
    pub name: Ident,
    pub type_condition: Ident,
    pub directives: Vec<Directive>,
    pub selection_set: SelectionSet,
}

/// An ordered sequence of operation and fragment definitions.
pub struct OperationDocument {
    pub definitions: Vec<ExecutableDefinition>,
}

} // verus!
