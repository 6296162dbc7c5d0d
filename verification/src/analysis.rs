//! What is known of one parameter of a function of the engine's C interface.

use vstd::prelude::*;

verus! {

/// A parameter of a C function, with what its declaration and the comments
/// on it tell about how a safe interface may pass it.
pub struct CParameter {
    /// The name of the parameter in the C code.
    name: String,
    /// The parameter's type, written as the Rust equivalent of the C type.
    c_type: String,
    /// The engine keeps the pointer for good.
    owned: bool,
    /// The pointer is not marked `const`: the engine may change what it
    /// points to.
    mutable: bool,
    /// The function accepts null for this parameter.
    nullable: bool,
}

/// The content of a [`CParameter`].
pub struct CParameterView {
    /// The name of the parameter in the C code.
    pub name: Seq<char>,
    /// The parameter's type.
    pub c_type: Seq<char>,
    /// The engine keeps the pointer for good.
    pub owned: bool,
    /// The engine may change what the pointer points to.
    pub mutable: bool,
    /// The function accepts null for this parameter.
    pub nullable: bool,
}

impl View for CParameter {
    type V = CParameterView;

    closed spec fn view(&self) -> CParameterView {
        CParameterView {
            name: self.name@,
            c_type: self.c_type@,
            owned: self.owned,
            mutable: self.mutable,
            nullable: self.nullable,
        }
    }
}

impl CParameter {
    /// A parameter with the given name, type and properties.
    pub fn new(name: String, c_type: String, owned: bool, mutable: bool, nullable: bool) -> (param:
        CParameter)
        ensures
            param@ == (CParameterView {
                name: name@,
                c_type: c_type@,
                owned,
                mutable,
                nullable,
            }),
    {
        CParameter { name, c_type, owned, mutable, nullable }
    }

    /// The name of the parameter in the C code.
    pub fn name(&self) -> (name: &str)
        ensures
            name@ == self@.name,
    {
        self.name.as_str()
    }

    /// The parameter's type.
    pub fn c_type(&self) -> (c_type: &str)
        ensures
            c_type@ == self@.c_type,
    {
        self.c_type.as_str()
    }

    /// Whether the engine keeps the pointer for good.
    pub fn owned(&self) -> (owned: bool)
        ensures
            owned == self@.owned,
    {
        self.owned
    }

    /// Whether the engine may change what the pointer points to.
    pub fn mutable(&self) -> (mutable: bool)
        ensures
            mutable == self@.mutable,
    {
        self.mutable
    }

    /// Whether the function accepts null for this parameter.
    pub fn nullable(&self) -> (nullable: bool)
        ensures
            nullable == self@.nullable,
    {
        self.nullable
    }
}

} // verus!
