//! Handles to engine data.
//!
//! The engine's C interface hands out pointers to opaque records. This library
//! never looks behind them: a handle is carried as the address it holds, and
//! the address 0 is the null handle that the interface uses for "nothing" (no
//! result, no exception thrown).
use vstd::prelude::*;

verus! {

/// A context group: the heap and settings that sibling contexts share.
#[derive(Clone, Copy, Debug, PartialEq, Eq, Structural)]
pub struct OpaqueJSContextGroup {
    pub addr: usize,
}

impl OpaqueJSContextGroup {
    /// The null handle.
    pub fn null() -> (r: Self)
        ensures
            r.addr == 0,
    {
        OpaqueJSContextGroup { addr: 0 }
    }

    pub fn is_null(&self) -> (r: bool)
        ensures
            r == (self.addr == 0),
    {
        self.addr == 0
    }
}

/// An execution context: a scope for evaluation and global bindings.
#[derive(Clone, Copy, Debug, PartialEq, Eq, Structural)]
pub struct OpaqueJSContext {
    pub addr: usize,
}

impl OpaqueJSContext {
    /// The null handle.
    pub fn null() -> (r: Self)
        ensures
            r.addr == 0,
    {
        OpaqueJSContext { addr: 0 }
    }

    pub fn is_null(&self) -> (r: bool)
        ensures
            r == (self.addr == 0),
    {
        self.addr == 0
    }
}

/// An engine string.
#[derive(Clone, Copy, Debug, PartialEq, Eq, Structural)]
pub struct OpaqueJSString {
    pub addr: usize,
}

impl OpaqueJSString {
    /// The null handle.
    pub fn null() -> (r: Self)
        ensures
            r.addr == 0,
    {
        OpaqueJSString { addr: 0 }
    }

    pub fn is_null(&self) -> (r: bool)
        ensures
            r == (self.addr == 0),
    {
        self.addr == 0
    }
}

/// A class definition registered with the engine.
#[derive(Clone, Copy, Debug, PartialEq, Eq, Structural)]
pub struct OpaqueJSClass {
    pub addr: usize,
}

impl OpaqueJSClass {
    /// The null handle.
    pub fn null() -> (r: Self)
        ensures
            r.addr == 0,
    {
        OpaqueJSClass { addr: 0 }
    }

    pub fn is_null(&self) -> (r: bool)
        ensures
            r == (self.addr == 0),
    {
        self.addr == 0
    }
}

/// The list of property names that the engine copies out of an object.
#[derive(Clone, Copy, Debug, PartialEq, Eq, Structural)]
pub struct OpaqueJSPropertyNameArray {
    pub addr: usize,
}

impl OpaqueJSPropertyNameArray {
    /// The null handle.
    pub fn null() -> (r: Self)
        ensures
            r.addr == 0,
    {
        OpaqueJSPropertyNameArray { addr: 0 }
    }

    pub fn is_null(&self) -> (r: bool)
        ensures
            r == (self.addr == 0),
    {
        self.addr == 0
    }
}

/// The accumulator the engine hands to a class's property-name hook.
#[derive(Clone, Copy, Debug, PartialEq, Eq, Structural)]
pub struct OpaqueJSPropertyNameAccumulator {
    pub addr: usize,
}

impl OpaqueJSPropertyNameAccumulator {
    /// The null handle.
    pub fn null() -> (r: Self)
        ensures
            r.addr == 0,
    {
        OpaqueJSPropertyNameAccumulator { addr: 0 }
    }

    pub fn is_null(&self) -> (r: bool)
        ensures
            r == (self.addr == 0),
    {
        self.addr == 0
    }
}

/// A value or an object of the engine; objects are values too.
#[derive(Clone, Copy, Debug, PartialEq, Eq, Structural)]
pub struct OpaqueJSValue {
    pub addr: usize,
}

impl OpaqueJSValue {
    /// The null handle.
    pub fn null() -> (r: Self)
        ensures
            r.addr == 0,
    {
        OpaqueJSValue { addr: 0 }
    }

    pub fn is_null(&self) -> (r: bool)
        ensures
            r == (self.addr == 0),
    {
        self.addr == 0
    }
}

} // verus!
