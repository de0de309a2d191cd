//! Values and objects of the engine, as handles the host holds for a while.
//!
//! A value is not owned by the host: it stays valid for as long as the
//! engine's own rooting keeps it, which is the current call. An object is a
//! value with a capability tag that says what else the host knows of it.
use vstd::prelude::*;
use crate::context::JSContext;
use crate::handle::{OpaqueJSClass, OpaqueJSContext, OpaqueJSValue};

verus! {

/// A value of the engine: a primitive or an object. Two values are equal when
/// they are the same handle.
#[derive(Clone, Copy, Debug, PartialEq, Eq, Structural)]
pub struct JSValue {
    inner: OpaqueJSValue,
}

impl View for JSValue {
    type V = OpaqueJSValue;

    closed spec fn view(&self) -> OpaqueJSValue {
        self.inner
    }
}

impl JSValue {
    /// Wraps a value handle.
    pub fn from(inner: OpaqueJSValue) -> (r: JSValue)
        ensures
            r@ == inner,
    {
        JSValue { inner }
    }

    pub fn get_ref(&self) -> (r: OpaqueJSValue)
        ensures
            r == self@,
    {
        self.inner
    }

    /// Roots this value against collection in `context`, until the returned
    /// object's protection is released. The engine is told by the `Protect`
    /// call.
    pub fn into_protected_object(self, context: &JSContext) -> (r: (JSObject<JSProtected>, RefOp))
        ensures
            r.0.handle() == self@,
            r.0.data_spec() == Some(JSProtected { inner: self@, context: context.inner }),
            r.1 == RefOp::Protect(context.inner, self@),
    {
        let protected = JSProtected { inner: self.inner, context: context.inner };
        (JSObject { inner: self.inner, data: Some(protected) }, RefOp::Protect(context.inner, self.inner))
    }
}

/// The handles of a sequence of values, in order.
pub open spec fn handles_of(values: Seq<JSValue>) -> Seq<OpaqueJSValue> {
    values.map_values(|v: JSValue| v@)
}

/// The handles of `values`, in order, as the engine takes an argument list.
pub fn value_refs(values: &[JSValue]) -> (r: Vec<OpaqueJSValue>)
    ensures
        r@ == handles_of(values@),
{
    let mut out: Vec<OpaqueJSValue> = Vec::new();
    let mut i: usize = 0;
    while i < values.len()
        invariant
            i <= values@.len(),
            out@ == handles_of(values@.subrange(0, i as int)),
        decreases values@.len() - i,
    {
        out.push(values[i].get_ref());
        i = i + 1;
        assert(values@.subrange(0, i as int) == values@.subrange(0, i - 1).push(values@[i - 1]));
    }
    assert(values@.subrange(0, i as int) == values@);
    out
}

/// One retain or release of an engine-owned handle.
#[derive(Clone, Copy, Debug, PartialEq, Eq, Structural)]
pub enum RefOp {
    RetainGroup(crate::handle::OpaqueJSContextGroup),
    ReleaseGroup(crate::handle::OpaqueJSContextGroup),
    RetainContext(OpaqueJSContext),
    ReleaseContext(OpaqueJSContext),
    ReleaseClass(OpaqueJSClass),
    Protect(OpaqueJSContext, OpaqueJSValue),
    Unprotect(OpaqueJSContext, OpaqueJSValue),
    ReleaseString(crate::handle::OpaqueJSString),
}

/// The tag of an object of which nothing more is known.
#[derive(Clone, Copy, Debug)]
pub struct JSObjectGeneric;

/// The tag of an object made from a class, which can hold private data.
#[derive(Clone, Copy, Debug)]
pub struct JSObjectGenericClass;

/// An object of the engine, with what its tag `T` records of it.
#[derive(Clone, Debug)]
pub struct JSObject<T = JSObjectGeneric> {
    inner: OpaqueJSValue,
    data: Option<T>,
}

impl<T> JSObject<T> {
    pub closed spec fn handle(&self) -> OpaqueJSValue {
        self.inner
    }

    pub closed spec fn data_spec(&self) -> Option<T> {
        self.data
    }

    /// Wraps an object handle, with nothing recorded beside it.
    pub fn from(inner: OpaqueJSValue) -> (r: JSObject<T>)
        ensures
            r.handle() == inner,
            r.data_spec() is None,
    {
        JSObject { inner, data: None }
    }

    /// Wraps an object handle together with what its tag records.
    pub fn with_data(inner: OpaqueJSValue, data: T) -> (r: JSObject<T>)
        ensures
            r.handle() == inner,
            r.data_spec() == Some(data),
    {
        JSObject { inner, data: Some(data) }
    }

    /// What the tag records.
    pub fn data_ref(&self) -> (r: Option<&T>)
        ensures
            match r {
                Some(d) => self.data_spec() == Some(*d),
                None => self.data_spec() is None,
            },
    {
        match &self.data {
            Some(d) => Some(d),
            None => None,
        }
    }

    /// What the tag records, taking the object apart.
    pub fn into_data(self) -> (r: Option<T>)
        ensures
            r == self.data_spec(),
    {
        self.data
    }

    pub fn get_ref(&self) -> (r: OpaqueJSValue)
        ensures
            r == self.handle(),
    {
        self.inner
    }

    /// This object as a plain value.
    pub fn as_value(&self) -> (r: JSValue)
        ensures
            r@ == self.handle(),
    {
        JSValue::from(self.inner)
    }
}

/// Objects whose private-data slot the host may use: those made from a class.
pub trait HasPrivateData {
}

impl HasPrivateData for JSObject<JSObjectGenericClass> {
}

impl HasPrivateData for JSObject<JSClass> {
}

/// A class of the engine, which the host holds one reference to until it
/// releases it or hands it over to the engine.
#[derive(Debug)]
pub struct JSClass {
    inner: OpaqueJSClass,
}

impl JSClass {
    pub closed spec fn handle(&self) -> OpaqueJSClass {
        self.inner
    }

    /// Holds a class the engine just created: the reference that creation
    /// gave is the host's.
    pub fn create(created: OpaqueJSClass) -> (r: JSClass)
        ensures
            r.handle() == created,
    {
        JSClass { inner: created }
    }

    pub fn get_ref(&self) -> (r: OpaqueJSClass)
        ensures
            r == self.handle(),
    {
        self.inner
    }

    /// Hands the class over to the engine (as the class of a global object):
    /// from then on the host holds nothing to release.
    pub fn transfer(&mut self) -> (r: OpaqueJSClass)
        ensures
            r == old(self).handle(),
            final(self).handle().addr == 0,
    {
        let inner = self.inner;
        self.inner = OpaqueJSClass::null();
        inner
    }

    /// The release the host owes for this class: one, unless the class was
    /// handed over.
    pub fn release(&self) -> (r: Option<RefOp>)
        ensures
            self.handle().addr == 0 ==> r is None,
            self.handle().addr != 0 ==> r == Some(RefOp::ReleaseClass(self.handle())),
    {
        if self.inner.is_null() {
            None
        } else {
            Some(RefOp::ReleaseClass(self.inner))
        }
    }

    /// An object of this class, as the engine made it.
    pub fn make_object(&self, made: OpaqueJSValue) -> (r: JSObject<JSObjectGenericClass>)
        ensures
            r.handle() == made,
            r.data_spec() is None,
    {
        JSObject::from(made)
    }
}

/// A value rooted against collection, with the context it was rooted in.
#[derive(Debug, PartialEq, Eq, Structural)]
pub struct JSProtected {
    pub inner: OpaqueJSValue,
    pub context: OpaqueJSContext,
}

impl JSObject<JSProtected> {
    /// The unprotect call that ends the rooting, once.
    pub fn release(self) -> (r: Option<RefOp>)
        ensures
            match self.data_spec() {
                Some(p) => r == Some(RefOp::Unprotect(p.context, p.inner)),
                None => r is None,
            },
    {
        match self.data {
            Some(p) => Some(RefOp::Unprotect(p.context, p.inner)),
            None => None,
        }
    }

    /// The context the value was rooted in.
    pub fn context(&self) -> (r: Option<OpaqueJSContext>)
        ensures
            match self.data_spec() {
                Some(p) => r == Some(p.context),
                None => r is None,
            },
    {
        match &self.data {
            Some(p) => Some(p.context),
            None => None,
        }
    }
}

} // verus!
