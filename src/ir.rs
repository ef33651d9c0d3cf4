use vstd::prelude::*;

verus! {

/// The closed set of types that may cross the C boundary.
#[derive(Debug, Clone, Copy, PartialEq, Eq, Structural)]
pub enum TypeRef {
    I32,
    U32,
    I64,
    F64,
    Bool,
    StringUtf8,
    Bytes,
    Handle,
}

impl TypeRef {
    /// Strings and byte buffers travel as a pointer and a length.
    pub open spec fn is_buffer(self) -> bool {
        self == TypeRef::StringUtf8 || self == TypeRef::Bytes
    }

    pub fn passes_as_buffer(&self) -> (r: bool)
        ensures
            r == self.is_buffer(),
    {
        match self {
            TypeRef::StringUtf8 | TypeRef::Bytes => true,
            _ => false,
        }
    }
}

#[derive(Debug, Clone, PartialEq, Eq)]
pub struct Param {
    pub name: String,
    pub ty: TypeRef,
}

#[derive(Debug, Clone, PartialEq, Eq)]
pub struct Function {
    pub name: String,
    pub params: Vec<Param>,
    /// Serialized under the key `return`.
    pub returns: Option<TypeRef>,
    pub doc: Option<String>,
    /// Serialized under the key `async`; always rejected by validation.
    pub is_async: bool,
}

#[derive(Debug, Clone, PartialEq, Eq)]
pub struct ErrorCode {
    /// Symbolic name, e.g. "InvalidInput".
    pub name: String,
    /// Numeric code, non-zero in a valid api.
    pub code: i32,
    /// Human-readable message.
    pub message: String,
}

#[derive(Debug, Clone, PartialEq, Eq)]
pub struct ErrorDomain {
    pub name: String,
    pub codes: Vec<ErrorCode>,
}

#[derive(Debug, Clone, PartialEq, Eq)]
pub struct Module {
    pub name: String,
    pub functions: Vec<Function>,
    /// Optional error domain of this module.
    pub errors: Option<ErrorDomain>,
}

#[derive(Debug, Clone, PartialEq, Eq)]
pub struct Api {
    pub version: String,
    pub modules: Vec<Module>,
}

} // verus!
