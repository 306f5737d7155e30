//! A frontend binding layer for a packed-function runtime: statically typed
//! callers invoke dynamically typed native callables through a tagged-value
//! calling convention, and can expose their own callbacks to that convention.
//!
//! The native side's observable state (its global function registry, its
//! process-wide last-error channel, and its handle accounting) is modelled by
//! [`runtime::Runtime`], which the library threads explicitly through every
//! operation that the native side would otherwise serve through process-wide
//! state. The code bound to a callable handle is type-erased on the native
//! side; here it is handed in at each dispatch site as a closure argument.

use vstd::prelude::*;

pub mod context;
pub mod function;
pub mod module;
pub mod runtime;
pub mod ty;
pub mod value;

pub use crate::context::TVMContext;
pub use crate::context::TVMDeviceType;
pub use crate::function::Function;
pub use crate::module::Module;

use crate::ty::TypeTag;

verus! {

/// The result type of this layer's fallible operations.
pub type TVMResult<T> = Result<T, TVMError>;

/// The errors this layer surfaces to the caller. Native-side failures are
/// reported, never panicked on.
#[derive(Debug, Clone)]
pub enum TVMError {
    /// No callee was attached to the invocation, or a name did not resolve.
    FunctionNotFound,
    /// A tag-checked accessor was called against a value of another tag.
    TypeMismatch { expected: TypeTag, actual: TypeTag },
    /// No tagging rule exists for the requested value or wire code.
    UnsupportedType,
    /// The native call returned a non-zero status; carries the last-error text.
    NativeCallFailed { message: String },
    /// A registration collided with an existing name without `override`.
    DuplicateName { name: String },
    /// The native call succeeded but returned a null reference.
    NullHandle { name: String },
}

impl TVMError {
    /// The failure text of this error.
    pub open spec fn spec_message(&self) -> Seq<char> {
        match self {
            TVMError::FunctionNotFound => "function was not found"@,
            TVMError::TypeMismatch { .. } => "value does not carry the expected type tag"@,
            TVMError::UnsupportedType => "no tagging rule exists for this value"@,
            TVMError::NativeCallFailed { message } => message@,
            TVMError::DuplicateName { name } => "global function is already registered: "@ + name@,
            TVMError::NullHandle { name } => "null handle returned for: "@ + name@,
        }
    }

    /// Renders the failure text of this error.
    pub fn message(&self) -> (msg: String)
        ensures
            msg@ == self.spec_message(),
    {
        match self {
            TVMError::FunctionNotFound => String::from_str("function was not found"),
            TVMError::TypeMismatch { .. } => String::from_str(
                "value does not carry the expected type tag",
            ),
            TVMError::UnsupportedType => String::from_str("no tagging rule exists for this value"),
            TVMError::NativeCallFailed { message } => message.clone(),
            TVMError::DuplicateName { name } => String::from_str(
                "global function is already registered: ",
            ).concat(name.as_str()),
            TVMError::NullHandle { name } => String::from_str("null handle returned for: ").concat(
                name.as_str(),
            ),
        }
    }
}

/// The version of the calling convention this layer implements.
pub fn version() -> (v: &'static str)
    ensures
        v@ == "0.4.0"@,
{
    "0.4.0"
}

} // verus!
