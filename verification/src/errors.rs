//! Typed errors of the bridge: script failures at the runtime boundary and
//! shape failures of a control descriptor table.

use vstd::prelude::*;

verus! {

/// A failure reported by the scripting runtime.
#[derive(Clone, Copy, Debug, PartialEq, Eq, Structural)]
pub enum ScriptError {
    /// The script text failed to parse or raised during top-level execution.
    Load,
    /// A protocol function the host needed is not defined by the script.
    FunctionMissing,
    /// A protocol function raised while it ran, or returned a value of a kind
    /// the host could not accept.
    Runtime,
}

/// The primitive type a descriptor field was expected to coerce to.
#[derive(Clone, Copy, Debug, PartialEq, Eq, Structural)]
pub enum FieldKind {
    /// A text string.
    Text,
    /// A number or an integer.
    Number,
    /// An integer.
    Whole,
}

/// A descriptor entry had a positional field that is missing or of the wrong
/// type. The error carries the entry's key and tag and the 1-based position
/// of the offending field, so the authoring bug can be reported precisely.
#[derive(Debug, PartialEq, Eq)]
pub struct ControlShapeError {
    /// The key of the offending entry.
    pub key: String,
    /// The entry's type tag.
    pub tag: String,
    /// The 1-based position of the field that failed to coerce.
    pub field: usize,
    /// The primitive type the field was expected to coerce to.
    pub expected: FieldKind,
}

/// The mathematical model of a [`ControlShapeError`].
pub struct ShapeErrorModel {
    pub key: Seq<char>,
    pub tag: Seq<char>,
    pub field: usize,
    pub expected: FieldKind,
}

impl View for ControlShapeError {
    type V = ShapeErrorModel;

    open spec fn view(&self) -> ShapeErrorModel {
        ShapeErrorModel {
            key: self.key@,
            tag: self.tag@,
            field: self.field,
            expected: self.expected,
        }
    }
}

impl Clone for ControlShapeError {
    fn clone(&self) -> (r: Self)
        ensures
            r@ == self@,
    {
        ControlShapeError {
            key: self.key.clone(),
            tag: self.tag.clone(),
            field: self.field,
            expected: self.expected,
        }
    }
}

/// A per-generator failure of one frame: either the scripting runtime failed,
/// or the descriptor table the script returned was malformed.
#[derive(Debug, PartialEq, Eq)]
pub enum GeneratorError {
    Script(ScriptError),
    Shape(ControlShapeError),
}

impl Clone for GeneratorError {
    fn clone(&self) -> (r: Self)
        ensures
            r matches GeneratorError::Script(e) ==> *self matches GeneratorError::Script(
                o,
            ) && e == o,
            r matches GeneratorError::Shape(e) ==> *self matches GeneratorError::Shape(o) && e@
                == o@,
    {
        match self {
            GeneratorError::Script(e) => GeneratorError::Script(*e),
            GeneratorError::Shape(e) => GeneratorError::Shape(e.clone()),
        }
    }
}

} // verus!
