use vstd::prelude::*;

verus! {

/// A compact index into one of the tables of a compiled module.
#[derive(Clone, Copy, PartialEq, Eq, Structural, PartialOrd, Ord, Hash, Debug)]
pub struct Id(pub u32);

impl Id {
    pub fn as_index(self) -> (r: usize)
        ensures
            r == self.0,
    {
        self.0 as usize
    }

    /// The identifier of the next entry of a table that holds `slice`.
    pub fn from_slice_len<T>(slice: &[T]) -> (r: Self)
        requires
            slice@.len() <= u32::MAX,
        ensures
            r.0 == slice@.len(),
    {
        Id(slice.len() as u32)
    }

    pub fn from_collection_len(len: usize) -> (r: Self)
        requires
            len <= u32::MAX,
        ensures
            r.0 == len,
    {
        Id(len as u32)
    }

    /// Shifts `left` by the base `right` of the table it is appended to.
    pub fn remap(left: Self, right: Self) -> (r: Self)
        requires
            left.0 + right.0 <= u32::MAX,
        ensures
            r.0 == left.0 + right.0,
    {
        Self(left.0 + right.0)
    }

    pub fn add(left: Self, right: u32) -> (r: Self)
        requires
            left.0 + right <= u32::MAX,
        ensures
            r.0 == left.0 + right,
    {
        Self(left.0 + right)
    }

    pub fn diff(left: Self, right: Self) -> (r: u32)
        requires
            left.0 >= right.0,
        ensures
            r == left.0 - right.0,
    {
        left.0 - right.0
    }
}

/// Conversion between a typed identifier and the untyped index it wraps.
pub trait IdRemapper: Sized + Copy {
    spec fn index_of(self) -> Id;

    fn uncat(self) -> (r: Id)
        ensures
            r == self.index_of(),
    ;

    fn cat(id: Id) -> (r: Self)
        ensures
            r.index_of() == id,
    ;
}

#[derive(Clone, Copy, PartialEq, Eq, Structural, Debug)]
pub struct FunId(pub Id);

#[derive(Clone, Copy, PartialEq, Eq, Structural, Debug)]
pub struct LitId(pub Id);

#[derive(Clone, Copy, PartialEq, Eq, Structural, Debug)]
pub struct ConstrId(pub Id);

#[derive(Clone, Copy, PartialEq, Eq, Structural, Debug)]
pub struct NifId(pub Id);

#[derive(Clone, Copy, PartialEq, Eq, Structural, Debug)]
pub struct GlobalId(pub Id);

impl IdRemapper for FunId {
    open spec fn index_of(self) -> Id {
        self.0
    }

    fn uncat(self) -> (r: Id) {
        self.0
    }

    fn cat(id: Id) -> (r: Self) {
        FunId(id)
    }
}

impl IdRemapper for LitId {
    open spec fn index_of(self) -> Id {
        self.0
    }

    fn uncat(self) -> (r: Id) {
        self.0
    }

    fn cat(id: Id) -> (r: Self) {
        LitId(id)
    }
}

impl IdRemapper for ConstrId {
    open spec fn index_of(self) -> Id {
        self.0
    }

    fn uncat(self) -> (r: Id) {
        self.0
    }

    fn cat(id: Id) -> (r: Self) {
        ConstrId(id)
    }
}

impl IdRemapper for NifId {
    open spec fn index_of(self) -> Id {
        self.0
    }

    fn uncat(self) -> (r: Id) {
        self.0
    }

    fn cat(id: Id) -> (r: Self) {
        NifId(id)
    }
}

impl IdRemapper for GlobalId {
    open spec fn index_of(self) -> Id {
        self.0
    }

    fn uncat(self) -> (r: Id) {
        self.0
    }

    fn cat(id: Id) -> (r: Self) {
        GlobalId(id)
    }
}

/// A callable value: a host native function or a function of the module.
#[derive(Clone, Copy, PartialEq, Eq, Structural, Debug)]
pub enum ValueFun {
    Native(NifId),
    Fun(FunId),
}

} // verus!
