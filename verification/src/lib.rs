//! Generation of forwarding trait implementations.
//!
//! Given a structural description of a trait declaration and a list of
//! target types, the library builds, for each target type, an
//! implementation block whose methods forward to an underlying value
//! reachable from the target through a dereference or a value conversion.

use vstd::prelude::*;

pub mod ast;
pub mod model;
pub mod forward;
pub mod generate;
pub mod laws;
pub mod members;
pub mod resolve;
pub mod targets;

pub use crate::generate::auto_trait;

verus! {

/// How a method takes its receiver, read off its first parameter.
#[derive(Clone, Copy, Debug, PartialEq, Eq, Structural)]
pub enum Receiver {
    /// No receiver: a static associated function.
    Static,
    /// `&self`.
    ByRef,
    /// `&mut self`.
    ByMutRef,
    /// `self` by value.
    ByValue,
}

/// The errors that abort a generation request.  Every error is fatal:
/// the caller receives a diagnostic in place of generated output.
#[derive(Clone, Copy, Debug, PartialEq, Eq, Structural)]
pub enum GenError {
    /// The primary target type is absent or does not parse as a type.
    MissingArgument,
    /// The trait declaration contains a member that is not a method.
    UnsupportedMember,
    /// Two or more generic arguments of a target carry a bound naming
    /// the trait under generation.
    AmbiguousForwardTarget,
    /// The target type has a shape the generator cannot project through.
    UnsupportedTargetType,
}

} // verus!
