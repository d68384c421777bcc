use vstd::prelude::*;
use crate::shape::Shape;
use crate::types::{DataType, TensorIOMode};

verus! {

/// Static metadata of one I/O tensor of a compiled engine. Its shape may
/// hold dynamic (negative) dimensions.
#[derive(Clone, Debug)]
pub struct IoTensorInfo {
    pub name: String,
    pub mode: TensorIOMode,
    pub shape: Shape,
    pub dtype: DataType,
}

/// No two tensors share a name.
pub open spec fn names_unique(tensors: Seq<IoTensorInfo>) -> bool {
    forall|i: int, j: int|
        0 <= i < tensors.len() && 0 <= j < tensors.len() && tensors[i].name@ == tensors[j].name@
            ==> i == j
}

/// The index of the tensor named `name`, if the engine has one.
pub open spec fn index_of(tensors: Seq<IoTensorInfo>, name: Seq<char>) -> Option<int> {
    if exists|i: int| 0 <= i < tensors.len() && tensors[i].name@ == name {
        Some(choose|i: int| 0 <= i < tensors.len() && tensors[i].name@ == name)
    } else {
        None
    }
}

/// The metadata of a deserialized engine, fixed for its lifetime: its I/O
/// tensors in the engine's own order, with unique names.
#[derive(Debug)]
pub struct CudaEngine {
    tensors: Vec<IoTensorInfo>,
}

impl CudaEngine {
    pub closed spec fn io_tensors(&self) -> Seq<IoTensorInfo> {
        self.tensors@
    }

    #[verifier::type_invariant]
    closed spec fn inv(&self) -> bool {
        names_unique(self.tensors@)
    }

    /// An engine with the given I/O tensors; `None` where two share a name.
    pub fn new(tensors: Vec<IoTensorInfo>) -> (r: Option<CudaEngine>)
        ensures
            match r {
                Some(e) => e.io_tensors() == tensors@,
                None => !names_unique(tensors@),
            },
    {
        let n = tensors.len();
        let mut i: usize = 0;
        while i < n
            invariant
                n == tensors@.len(),
                i <= n,
                forall|a: int, b: int|
                    0 <= a < i && 0 <= b < n && tensors@[a].name@ == tensors@[b].name@ ==> a == b,
            decreases n - i,
        {
            let mut j: usize = i + 1;
            while j < n
                invariant
                    n == tensors@.len(),
                    i < n,
                    i < j <= n,
                    forall|a: int, b: int|
                        0 <= a < i && 0 <= b < n && tensors@[a].name@ == tensors@[b].name@ ==> a
                            == b,
                    forall|b: int| i < b < j ==> tensors@[i as int].name@ != tensors@[b].name@,
                decreases n - j,
            {
                if tensors[i].name == tensors[j].name {
                    return None;
                }
                j += 1;
            }
            i += 1;
        }
        Some(CudaEngine { tensors })
    }

    /// The number of I/O tensors; their names are unique.
    pub fn get_num_io_tensors(&self) -> (r: usize)
        ensures
            r == self.io_tensors().len(),
            names_unique(self.io_tensors()),
    {
        proof {
            use_type_invariant(self);
        }
        self.tensors.len()
    }

    /// The metadata of the tensor at `index`.
    pub fn get_io_tensor(&self, index: usize) -> (r: &IoTensorInfo)
        requires
            index < self.io_tensors().len(),
        ensures
            *r == self.io_tensors()[index as int],
    {
        &self.tensors[index]
    }

    /// The name of the tensor at `index`.
    pub fn get_io_tensor_name(&self, index: usize) -> (r: &String)
        requires
            index < self.io_tensors().len(),
        ensures
            r@ == self.io_tensors()[index as int].name@,
    {
        &self.tensors[index].name
    }

    /// The index of the tensor named `name`.
    pub fn find_tensor(&self, name: &String) -> (r: Option<usize>)
        ensures
            match r {
                Some(i) => i < self.io_tensors().len() && self.io_tensors()[i as int].name@ == name@
                    && index_of(self.io_tensors(), name@) == Some(i as int),
                None => index_of(self.io_tensors(), name@) is None,
            },
    {
        proof {
            use_type_invariant(self);
        }
        let mut i: usize = 0;
        while i < self.tensors.len()
            invariant
                i <= self.io_tensors().len(),
                names_unique(self.tensors@),
                forall|j: int| 0 <= j < i ==> self.io_tensors()[j].name@ != name@,
            decreases self.io_tensors().len() - i,
        {
            if self.tensors[i].name == *name {
                proof {
                    assert(self.io_tensors()[i as int].name@ == name@);
                    let k = choose|k: int|
                        0 <= k < self.io_tensors().len() && self.io_tensors()[k].name@ == name@;
                    assert(names_unique(self.tensors@));
                    assert(self.tensors@[k].name@ == self.tensors@[i as int].name@);
                }
                return Some(i);
            }
            i += 1;
        }
        None
    }

    /// The static shape of the tensor named `name`; it may hold dynamic
    /// dimensions.
    pub fn get_tensor_shape(&self, name: &String) -> (r: Option<&Shape>)
        ensures
            match index_of(self.io_tensors(), name@) {
                Some(i) => r matches Some(s) && s@ == self.io_tensors()[i].shape@,
                None => r is None,
            },
    {
        match self.find_tensor(name) {
            Some(i) => Some(&self.tensors[i].shape),
            None => None,
        }
    }

    /// Whether the tensor named `name` is an input or an output; `NONE` for a
    /// name the engine does not have.
    pub fn get_tensor_io_mode(&self, name: &String) -> (r: TensorIOMode)
        ensures
            r == match index_of(self.io_tensors(), name@) {
                Some(i) => self.io_tensors()[i].mode,
                None => TensorIOMode::NONE,
            },
    {
        match self.find_tensor(name) {
            Some(i) => self.tensors[i].mode,
            None => TensorIOMode::NONE,
        }
    }

    /// The element type of the tensor named `name`.
    pub fn get_tensor_dtype(&self, name: &String) -> (r: Option<DataType>)
        ensures
            r == match index_of(self.io_tensors(), name@) {
                Some(i) => Some(self.io_tensors()[i].dtype),
                None => None,
            },
    {
        match self.find_tensor(name) {
            Some(i) => Some(self.tensors[i].dtype),
            None => None,
        }
    }
}

/// The bindings an execution context holds, one slot per I/O tensor of its
/// engine: the input shape set for it and the device address bound to it.
#[derive(Debug)]
pub struct ExecutionContext {
    input_shapes: Vec<Option<Shape>>,
    addresses: Vec<Option<usize>>,
}

impl ExecutionContext {
    pub closed spec fn slots(&self) -> nat {
        self.input_shapes@.len()
    }

    /// The input shape bound to slot `i`.
    pub closed spec fn bound_shape(&self, i: int) -> Option<Seq<i32>> {
        match self.input_shapes@[i] {
            Some(s) => Some(s@),
            None => None,
        }
    }

    /// The device address bound to slot `i`.
    pub closed spec fn bound_address(&self, i: int) -> Option<usize> {
        self.addresses@[i]
    }

    /// One shape slot and one address slot per tensor.
    pub closed spec fn wf(&self) -> bool {
        self.input_shapes@.len() == self.addresses@.len()
    }

    /// A fresh context for an engine with `n` I/O tensors: nothing bound.
    pub fn new(n: usize) -> (r: ExecutionContext)
        ensures
            r.wf(),
            r.slots() == n,
            forall|i: int| 0 <= i < n ==> r.bound_shape(i) is None && r.bound_address(i) is None,
    {
        let mut input_shapes: Vec<Option<Shape>> = Vec::new();
        let mut addresses: Vec<Option<usize>> = Vec::new();
        let mut i: usize = 0;
        while i < n
            invariant
                i <= n,
                input_shapes@.len() == i,
                addresses@.len() == i,
                forall|j: int| 0 <= j < i ==> input_shapes@[j] is None && addresses@[j] is None,
            decreases n - i,
        {
            input_shapes.push(None);
            addresses.push(None);
            i += 1;
        }
        ExecutionContext { input_shapes, addresses }
    }

    /// Records the input shape bound to slot `i`.
    pub fn set_input_shape(&mut self, i: usize, shape: &Shape)
        requires
            old(self).wf(),
            i < old(self).slots(),
        ensures
            final(self).wf(),
            final(self).slots() == old(self).slots(),
            forall|j: int|
                0 <= j < old(self).slots() ==> final(self).bound_shape(j) == if j == i {
                    Some(shape@)
                } else {
                    old(self).bound_shape(j)
                },
            forall|j: int|
                0 <= j < old(self).slots() ==> final(self).bound_address(j) == old(
                    self,
                ).bound_address(j),
    {
        self.input_shapes.set(i, Some(shape.duplicate()));
    }

    /// Records the device address bound to slot `i`.
    pub fn set_tensor_address(&mut self, i: usize, address: usize)
        requires
            old(self).wf(),
            i < old(self).slots(),
        ensures
            final(self).wf(),
            final(self).slots() == old(self).slots(),
            forall|j: int|
                0 <= j < old(self).slots() ==> final(self).bound_address(j) == if j == i {
                    Some(address)
                } else {
                    old(self).bound_address(j)
                },
            forall|j: int|
                0 <= j < old(self).slots() ==> final(self).bound_shape(j) == old(
                    self,
                ).bound_shape(j),
    {
        self.addresses.set(i, Some(address));
    }

    /// The input shape bound to slot `i`.
    pub fn get_tensor_shape(&self, i: usize) -> (r: Option<&Shape>)
        requires
            i < self.slots(),
        ensures
            match self.bound_shape(i as int) {
                Some(d) => r matches Some(s) && s@ == d,
                None => r is None,
            },
    {
        match &self.input_shapes[i] {
            Some(s) => Some(s),
            None => None,
        }
    }

    /// The device address bound to slot `i`.
    pub fn get_tensor_address(&self, i: usize) -> (r: Option<usize>)
        requires
            self.wf(),
            i < self.slots(),
        ensures
            r == self.bound_address(i as int),
    {
        self.addresses[i]
    }
}

} // verus!
