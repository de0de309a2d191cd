//! Virtual machines and execution contexts, and the references the host holds
//! on their engine handles.
//!
//! A virtual machine holds one reference to a context group and one to a
//! global context in it. Contexts of one machine share its group, and so its
//! heap and global object. The host gives back exactly what it took: each
//! machine releases its context before its group.
use vstd::prelude::*;
use crate::handle::{OpaqueJSContext, OpaqueJSContextGroup};
use crate::value::RefOp;

verus! {

/// A virtual machine: a context group and a global context in it, each held
/// by one reference of the host.
#[derive(Debug, PartialEq, Eq, Structural)]
pub struct JSVirtualMachine {
    pub context_group: OpaqueJSContextGroup,
    pub global_context: OpaqueJSContext,
}

/// The retains that adopt a global context and its group.
pub open spec fn adopt_ops(global_context: OpaqueJSContext, group: OpaqueJSContextGroup) -> Seq<RefOp> {
    seq![RefOp::RetainContext(global_context), RefOp::RetainGroup(group)]
}

/// The releases that give a machine's references back: its context first,
/// then its group.
pub open spec fn release_ops(vm: JSVirtualMachine) -> Seq<RefOp> {
    seq![RefOp::ReleaseContext(vm.global_context), RefOp::ReleaseGroup(vm.context_group)]
}

impl JSVirtualMachine {
    /// A machine over a group and a global context that the engine has just
    /// created for the host, each with one reference that the host now holds.
    pub fn new(context_group: OpaqueJSContextGroup, global_context: OpaqueJSContext) -> (r: Self)
        ensures
            r.context_group == context_group,
            r.global_context == global_context,
    {
        JSVirtualMachine { context_group, global_context }
    }

    /// A machine that shares the group and global context of an existing
    /// context, with the retains that make the host hold one reference to each.
    pub fn from(global_context: OpaqueJSContext, group: OpaqueJSContextGroup) -> (r: (Self, Vec<RefOp>))
        ensures
            r.0.context_group == group,
            r.0.global_context == global_context,
            r.1@ == adopt_ops(global_context, group),
    {
        let ops = vec![RefOp::RetainContext(global_context), RefOp::RetainGroup(group)];
        (JSVirtualMachine { context_group: group, global_context }, ops)
    }

    /// Another holder of the same machine: a copy takes references of its own.
    pub fn duplicate(&self) -> (r: (Self, Vec<RefOp>))
        ensures
            r.0 == *self,
            r.1@ == adopt_ops(self.global_context, self.context_group),
    {
        JSVirtualMachine::from(self.global_context, self.context_group)
    }

    /// The releases this machine owes, context before group.
    pub fn release(&self) -> (r: Vec<RefOp>)
        ensures
            r@ == release_ops(*self),
    {
        vec![RefOp::ReleaseContext(self.global_context), RefOp::ReleaseGroup(self.context_group)]
    }
}

/// An execution context, bound to the machine whose references it holds.
#[derive(Debug, PartialEq, Eq, Structural)]
pub struct JSContext {
    pub inner: OpaqueJSContext,
    pub vm: JSVirtualMachine,
}

impl JSContext {
    /// The root context of a machine made for it.
    pub fn new(vm: JSVirtualMachine) -> (r: Self)
        ensures
            r.inner == vm.global_context,
            r.vm == vm,
    {
        JSContext { inner: vm.global_context, vm }
    }

    /// The root context of a given machine.
    pub fn with_virtual_machine(vm: JSVirtualMachine) -> (r: Self)
        ensures
            r.inner == vm.global_context,
            r.vm == vm,
    {
        JSContext { inner: vm.global_context, vm }
    }

    /// Adopts a context the engine handed over (as to a native callback),
    /// sharing the machine it runs in: the global context and group are
    /// retained, never created anew.
    pub fn from(
        context: OpaqueJSContext,
        global_context: OpaqueJSContext,
        group: OpaqueJSContextGroup,
    ) -> (r: (Self, Vec<RefOp>))
        ensures
            r.0.inner == context,
            r.0.vm.global_context == global_context,
            r.0.vm.context_group == group,
            r.1@ == adopt_ops(global_context, group),
    {
        let (vm, ops) = JSVirtualMachine::from(global_context, group);
        (JSContext { inner: context, vm }, ops)
    }

    pub fn get_ref(&self) -> (r: OpaqueJSContext)
        ensures
            r == self.inner,
    {
        self.inner
    }

    /// The group in which `split` asks the engine to create a sibling.
    pub fn group(&self) -> (r: OpaqueJSContextGroup)
        ensures
            r == self.vm.context_group,
    {
        self.vm.context_group
    }

    /// A sibling context in the same machine, over a global context that the
    /// engine has just created in this context's group. The sibling holds that
    /// new context's reference, and retains the shared group for itself.
    pub fn split(&self, created: OpaqueJSContext) -> (r: (Self, Vec<RefOp>))
        ensures
            r.0.inner == created,
            r.0.vm.global_context == created,
            r.0.vm.context_group == self.vm.context_group,
            r.1@ == seq![RefOp::RetainGroup(self.vm.context_group)],
    {
        let group = self.vm.context_group;
        let vm = JSVirtualMachine { context_group: group, global_context: created };
        (JSContext { inner: created, vm }, vec![RefOp::RetainGroup(group)])
    }

    /// The releases this context owes when it goes away.
    pub fn release(&self) -> (r: Vec<RefOp>)
        ensures
            r@ == release_ops(self.vm),
    {
        self.vm.release()
    }
}

/// The references to `group` that `ops` take, less those they give back.
pub open spec fn group_balance(ops: Seq<RefOp>, group: OpaqueJSContextGroup) -> int
    decreases ops.len(),
{
    if ops.len() == 0 {
        0
    } else {
        group_balance(ops.drop_last(), group) + match ops.last() {
            RefOp::RetainGroup(g) => if g == group { 1int } else { 0int },
            RefOp::ReleaseGroup(g) => if g == group { -1int } else { 0int },
            _ => 0int,
        }
    }
}

/// The references to `context` that `ops` take, less those they give back.
pub open spec fn context_balance(ops: Seq<RefOp>, context: OpaqueJSContext) -> int
    decreases ops.len(),
{
    if ops.len() == 0 {
        0
    } else {
        context_balance(ops.drop_last(), context) + match ops.last() {
            RefOp::RetainContext(c) => if c == context { 1int } else { 0int },
            RefOp::ReleaseContext(c) => if c == context { -1int } else { 0int },
            _ => 0int,
        }
    }
}

/// A machine adopted from an existing context gives back, when released,
/// exactly the references that adopting it took: no handle is left retained
/// or released once too often.
pub proof fn lemma_adopted_machine_balanced(
    global_context: OpaqueJSContext,
    group: OpaqueJSContextGroup,
    c: OpaqueJSContext,
    g: OpaqueJSContextGroup,
)
    ensures
        ({
            let vm = JSVirtualMachine { context_group: group, global_context };
            &&& group_balance(adopt_ops(global_context, group) + release_ops(vm), g) == 0
            &&& context_balance(adopt_ops(global_context, group) + release_ops(vm), c) == 0
        }),
{
    let vm = JSVirtualMachine { context_group: group, global_context };
    let ops = adopt_ops(global_context, group) + release_ops(vm);
    assert(ops.drop_last().drop_last().drop_last().drop_last().len() == 0);
    reveal_with_fuel(group_balance, 5);
    reveal_with_fuel(context_balance, 5);
}

/// Over the life of a sibling made by `split`, the shared group is retained
/// and released once each, and the sibling's own context is released once:
/// the reference its creation gave. Every other handle is left untouched.
pub proof fn lemma_split_balanced(
    group: OpaqueJSContextGroup,
    created: OpaqueJSContext,
    c: OpaqueJSContext,
    g: OpaqueJSContextGroup,
)
    ensures
        ({
            let sibling = JSVirtualMachine { context_group: group, global_context: created };
            let ops = seq![RefOp::RetainGroup(group)] + release_ops(sibling);
            &&& group_balance(ops, g) == 0
            &&& context_balance(ops, c) == (if c == created { -1int } else { 0int })
        }),
{
    let sibling = JSVirtualMachine { context_group: group, global_context: created };
    let ops = seq![RefOp::RetainGroup(group)] + release_ops(sibling);
    assert(ops.drop_last().drop_last().drop_last().len() == 0);
    reveal_with_fuel(group_balance, 4);
    reveal_with_fuel(context_balance, 4);
}

} // verus!
