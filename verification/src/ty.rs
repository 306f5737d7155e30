//! The type tags of the calling convention: the discriminant that travels
//! with every wire value and gates every interpretation of its payload.

use vstd::prelude::*;

use crate::TVMError;

verus! {

/// Identifies the payload kind carried by a wire value. The numeric wire
/// encoding of each tag is given by [`TypeTag::code`].
#[derive(Debug, Clone, Copy, PartialEq, Eq, Structural, Hash)]
pub enum TypeTag {
    /// Signed integer payload.
    Int,
    /// Unsigned integer payload.
    UInt,
    /// Floating point payload, carried as its raw bit pattern.
    Float,
    /// A generic opaque handle.
    Handle,
    /// No payload.
    Null,
    /// A native array handle.
    ArrayHandle,
    /// A native node handle.
    NodeHandle,
    /// A native module handle.
    ModuleHandle,
    /// A native function handle.
    FuncHandle,
    /// A string payload.
    Str,
    /// A byte-buffer payload.
    Bytes,
}

impl TypeTag {
    /// The numeric code under which this tag travels on the wire.
    pub open spec fn spec_code(self) -> u32 {
        match self {
            TypeTag::Int => 0,
            TypeTag::UInt => 1,
            TypeTag::Float => 2,
            TypeTag::Handle => 3,
            TypeTag::Null => 4,
            TypeTag::ArrayHandle => 7,
            TypeTag::NodeHandle => 8,
            TypeTag::ModuleHandle => 9,
            TypeTag::FuncHandle => 10,
            TypeTag::Str => 11,
            TypeTag::Bytes => 12,
        }
    }

    /// Returns the numeric wire code of this tag.
    pub fn code(&self) -> (c: u32)
        ensures
            c == self.spec_code(),
    {
        match self {
            TypeTag::Int => 0,
            TypeTag::UInt => 1,
            TypeTag::Float => 2,
            TypeTag::Handle => 3,
            TypeTag::Null => 4,
            TypeTag::ArrayHandle => 7,
            TypeTag::NodeHandle => 8,
            TypeTag::ModuleHandle => 9,
            TypeTag::FuncHandle => 10,
            TypeTag::Str => 11,
            TypeTag::Bytes => 12,
        }
    }

    /// The tag a numeric wire code stands for, if any.
    pub open spec fn spec_of_code(c: u32) -> Option<TypeTag> {
        if c == 0 {
            Some(TypeTag::Int)
        } else if c == 1 {
            Some(TypeTag::UInt)
        } else if c == 2 {
            Some(TypeTag::Float)
        } else if c == 3 {
            Some(TypeTag::Handle)
        } else if c == 4 {
            Some(TypeTag::Null)
        } else if c == 7 {
            Some(TypeTag::ArrayHandle)
        } else if c == 8 {
            Some(TypeTag::NodeHandle)
        } else if c == 9 {
            Some(TypeTag::ModuleHandle)
        } else if c == 10 {
            Some(TypeTag::FuncHandle)
        } else if c == 11 {
            Some(TypeTag::Str)
        } else if c == 12 {
            Some(TypeTag::Bytes)
        } else {
            None
        }
    }

    /// Decodes a numeric wire code; fails with `UnsupportedType` exactly on
    /// the codes no tag travels under.
    pub fn from_code(c: u32) -> (t: Result<TypeTag, TVMError>)
        ensures
            match t {
                Ok(tag) => TypeTag::spec_of_code(c) == Some(tag),
                Err(e) => TypeTag::spec_of_code(c) is None && e == TVMError::UnsupportedType,
            },
    {
        if c == 0 {
            Ok(TypeTag::Int)
        } else if c == 1 {
            Ok(TypeTag::UInt)
        } else if c == 2 {
            Ok(TypeTag::Float)
        } else if c == 3 {
            Ok(TypeTag::Handle)
        } else if c == 4 {
            Ok(TypeTag::Null)
        } else if c == 7 {
            Ok(TypeTag::ArrayHandle)
        } else if c == 8 {
            Ok(TypeTag::NodeHandle)
        } else if c == 9 {
            Ok(TypeTag::ModuleHandle)
        } else if c == 10 {
            Ok(TypeTag::FuncHandle)
        } else if c == 11 {
            Ok(TypeTag::Str)
        } else if c == 12 {
            Ok(TypeTag::Bytes)
        } else {
            Err(TVMError::UnsupportedType)
        }
    }

    /// Whether a callback argument of this tag must be converted from its
    /// argument-position encoding to its return-position encoding before it
    /// may be wrapped: true exactly for node, function and module handles.
    pub open spec fn spec_needs_arg_to_return(self) -> bool {
        self == TypeTag::NodeHandle || self == TypeTag::FuncHandle || self == TypeTag::ModuleHandle
    }

    /// Returns whether a callback argument of this tag needs the
    /// argument-to-return conversion.
    pub fn needs_arg_to_return(&self) -> (b: bool)
        ensures
            b == self.spec_needs_arg_to_return(),
    {
        match self {
            TypeTag::NodeHandle => true,
            TypeTag::FuncHandle => true,
            TypeTag::ModuleHandle => true,
            _ => false,
        }
    }
}

/// Encoding a tag and decoding the code gives the tag back: no two tags share
/// a wire code.
pub proof fn lemma_tag_code_round_trip(t: TypeTag)
    ensures
        TypeTag::spec_of_code(t.spec_code()) == Some(t),
{
}

} // verus!
