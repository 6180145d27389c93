use crate::lattices::{ConstLattice, ConstValue, VariableState};
use std::collections::HashMap;
use vstd::prelude::*;

verus! {

/// The access allowed to a field of the VM context: read, read/write,
/// read/execute, or a pointer (read only) to a value described in turn.
#[derive(Debug)]
pub enum FieldDesc {
    R,
    Rw,
    Rx,
    Ptr(Box<WasmtimeValue>),
}

/// What the Wasmtime heap analysis knows of a value. Valid heap accesses are
/// of the form `mem[HeapBase + Bounded4GB + Bounded4GB]`.
#[derive(Debug)]
pub enum WasmtimeValue {
    HeapBase,
    /// A value truncated to 32 bits, and its constant when known.
    Bounded4GB(Option<i64>),
    HeapAddr,
    VmCtx,
    VmCtxField(FieldDesc),
    VmAddr(Option<i64>),
}

impl View for WasmtimeValue {
    type V = WasmtimeValue;

    open spec fn view(&self) -> WasmtimeValue {
        *self
    }
}

impl FieldDesc {
    pub fn is_write(&self) -> (r: bool)
        ensures
            r == (*self is Rw),
    {
        matches!(*self, FieldDesc::Rw)
    }

    pub fn is_exec(&self) -> (r: bool)
        ensures
            r == (*self is Rx),
    {
        matches!(*self, FieldDesc::Rx)
    }

    pub fn is_ptr(&self) -> (r: bool)
        ensures
            r == (*self is Ptr),
    {
        matches!(*self, FieldDesc::Ptr(_))
    }

    /// The description of what a pointer field points to.
    pub fn deref(&self) -> (r: Result<WasmtimeValue, &'static str>)
        ensures
            r is Ok <==> *self is Ptr,
            r matches Ok(v) ==> *self == FieldDesc::Ptr(Box::new(v)),
            r matches Err(e) ==> e@ == "Tried to deref non-ptr field"@,
    {
        if let FieldDesc::Ptr(field) = self {
            Ok(copy_wasmtime_value(field))
        } else {
            Err("Tried to deref non-ptr field")
        }
    }

    pub fn same_field(&self, other: &Self) -> (r: bool)
        ensures
            r == (*self == *other),
        decreases self,
    {
        match (self, other) {
            (FieldDesc::R, FieldDesc::R) => true,
            (FieldDesc::Rw, FieldDesc::Rw) => true,
            (FieldDesc::Rx, FieldDesc::Rx) => true,
            (FieldDesc::Ptr(a), FieldDesc::Ptr(b)) => same_wasmtime_value(a, b),
            _ => false,
        }
    }

    pub fn copy_field(&self) -> (r: Self)
        ensures
            r == *self,
        decreases self,
    {
        match self {
            FieldDesc::R => FieldDesc::R,
            FieldDesc::Rw => FieldDesc::Rw,
            FieldDesc::Rx => FieldDesc::Rx,
            FieldDesc::Ptr(a) => FieldDesc::Ptr(Box::new(copy_wasmtime_value(a))),
        }
    }
}

/// Whether two abstract values are equal.
pub fn same_wasmtime_value(a: &WasmtimeValue, b: &WasmtimeValue) -> (r: bool)
    ensures
        r == (*a == *b),
    decreases a,
{
    match (a, b) {
        (WasmtimeValue::HeapBase, WasmtimeValue::HeapBase) => true,
        (WasmtimeValue::Bounded4GB(x), WasmtimeValue::Bounded4GB(y)) => match (x, y) {
            (Some(x), Some(y)) => *x == *y,
            (None, None) => true,
            _ => false,
        },
        (WasmtimeValue::HeapAddr, WasmtimeValue::HeapAddr) => true,
        (WasmtimeValue::VmCtx, WasmtimeValue::VmCtx) => true,
        (WasmtimeValue::VmCtxField(f), WasmtimeValue::VmCtxField(g)) => f.same_field(g),
        (WasmtimeValue::VmAddr(x), WasmtimeValue::VmAddr(y)) => match (x, y) {
            (Some(x), Some(y)) => *x == *y,
            (None, None) => true,
            _ => false,
        },
        _ => false,
    }
}

/// A copy of an abstract value.
pub fn copy_wasmtime_value(a: &WasmtimeValue) -> (r: WasmtimeValue)
    ensures
        r == *a,
    decreases a,
{
    match a {
        WasmtimeValue::HeapBase => WasmtimeValue::HeapBase,
        WasmtimeValue::Bounded4GB(x) => WasmtimeValue::Bounded4GB(*x),
        WasmtimeValue::HeapAddr => WasmtimeValue::HeapAddr,
        WasmtimeValue::VmCtx => WasmtimeValue::VmCtx,
        WasmtimeValue::VmCtxField(f) => WasmtimeValue::VmCtxField(f.copy_field()),
        WasmtimeValue::VmAddr(x) => WasmtimeValue::VmAddr(*x),
    }
}

impl WasmtimeValue {
    pub fn is_heapbase(&self) -> (r: bool)
        ensures
            r == (*self is HeapBase),
    {
        matches!(*self, WasmtimeValue::HeapBase)
    }

    pub fn is_bounded(&self) -> (r: bool)
        ensures
            r == (*self is Bounded4GB),
    {
        matches!(*self, WasmtimeValue::Bounded4GB(_))
    }

    pub fn is_heapaddr(&self) -> (r: bool)
        ensures
            r == (*self is HeapAddr),
    {
        matches!(*self, WasmtimeValue::HeapAddr)
    }

    pub fn is_vmctx(&self) -> (r: bool)
        ensures
            r == (*self is VmCtx),
    {
        matches!(*self, WasmtimeValue::VmCtx)
    }

    pub fn is_vmaddr(&self) -> (r: bool)
        ensures
            r == (*self is VmAddr),
    {
        matches!(*self, WasmtimeValue::VmAddr(_))
    }

    pub fn is_field(&self) -> (r: bool)
        ensures
            r == (*self is VmCtxField),
    {
        matches!(*self, WasmtimeValue::VmCtxField(_))
    }

    /// The field description of a VM-context field.
    pub fn as_field(&self) -> (r: Result<FieldDesc, &'static str>)
        ensures
            r is Ok <==> *self is VmCtxField,
            r matches Ok(f) ==> *self == WasmtimeValue::VmCtxField(f),
            r matches Err(e) ==> e@ == "Tried to access a non-field lattice as a field"@,
    {
        if let WasmtimeValue::VmCtxField(field) = self {
            Ok(field.copy_field())
        } else {
            Err("Tried to access a non-field lattice as a field")
        }
    }
}

impl Clone for FieldDesc {
    fn clone(&self) -> (r: Self)
        ensures
            r == *self,
    {
        self.copy_field()
    }
}

impl Clone for WasmtimeValue {
    fn clone(&self) -> (r: Self)
        ensures
            r == *self,
    {
        copy_wasmtime_value(self)
    }
}

impl ConstValue for WasmtimeValue {
    fn same_value(&self, other: &Self) -> (r: bool) {
        same_wasmtime_value(self, other)
    }

    fn copy_value(&self) -> (r: Self) {
        copy_wasmtime_value(self)
    }
}

pub type WasmtimeValueLattice = ConstLattice<WasmtimeValue>;

pub type WasmtimeLattice = VariableState<WasmtimeValueLattice>;

/// The description of the VM-context field at each offset.
pub type VmFieldOffsets = HashMap<i64, WasmtimeValue>;

} // verus!
