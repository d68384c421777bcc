use vstd::prelude::*;
use crate::error::{TRTError, is_shape_error};
use crate::shape::{Shape, all_non_negative, dims_product, lemma_product_non_negative};
use crate::types::DataType;

verus! {

/// The byte size of a buffer holding `dims` elements of type `dtype` is
/// defined and fits in `usize`.
pub open spec fn bytes_defined(dims: Seq<i32>, dtype: DataType) -> bool {
    all_non_negative(dims) && dims_product(dims) * dtype.spec_elem_size() <= usize::MAX
}

/// Bytes needed for `dims` elements of type `dtype`.
pub open spec fn byte_size(dims: Seq<i32>, dtype: DataType) -> int {
    dims_product(dims) * dtype.spec_elem_size()
}

/// A device-to-device copy for the caller to issue on its stream.
#[derive(Clone, Copy, Debug, PartialEq, Eq, Structural)]
pub struct DeviceCopy {
    pub dst: usize,
    pub src: usize,
    pub bytes: usize,
}

/// One device buffer as the engine sees it: its address, the number of
/// elements it was allocated for, and the shape and element type it is
/// currently read as. The allocation itself belongs to the caller's device
/// memory handle and lives as long as that handle.
#[derive(Debug)]
pub struct Tensor {
    addr: usize,
    capacity: usize,
    shape: Shape,
    dtype: DataType,
}

impl Tensor {
    pub closed spec fn spec_addr(&self) -> usize {
        self.addr
    }

    /// Elements the allocation holds; fixed for the tensor's lifetime.
    pub closed spec fn spec_capacity(&self) -> nat {
        self.capacity as nat
    }

    /// The current shape.
    pub closed spec fn spec_dims(&self) -> Seq<i32> {
        self.shape@
    }

    pub closed spec fn spec_dtype(&self) -> DataType {
        self.dtype
    }

    /// The current shape is resolved and fits in the allocation, and the
    /// allocation's byte size fits in `usize`.
    #[verifier::type_invariant]
    pub closed spec fn wf(&self) -> bool {
        &&& all_non_negative(self.shape@)
        &&& dims_product(self.shape@) <= self.capacity
        &&& self.capacity * self.dtype.spec_elem_size() <= usize::MAX
    }

    /// Facts that every well-formed tensor has.
    pub proof fn lemma_wf(&self)
        requires
            self.wf(),
        ensures
            all_non_negative(self.spec_dims()),
            dims_product(self.spec_dims()) <= self.spec_capacity(),
            bytes_defined(self.spec_dims(), self.spec_dtype()),
    {
        lemma_product_non_negative(self.shape@);
        let p = dims_product(self.shape@);
        let c = self.capacity as int;
        let e = self.dtype.spec_elem_size() as int;
        assert(p * e <= c * e) by (nonlinear_arith)
            requires
                0 <= p <= c,
                e >= 1,
        ;
    }

    /// Bytes needed for a buffer of `shape` holding `dtype` elements; a shape
    /// error where a dimension is dynamic or the size does not fit.
    pub fn bytes_for(shape: &Shape, dtype: DataType) -> (r: Result<usize, TRTError>)
        ensures
            match r {
                Ok(n) => bytes_defined(shape@, dtype) && n == byte_size(shape@, dtype),
                Err(_) => !bytes_defined(shape@, dtype) && is_shape_error(r, shape@),
            },
    {
        let elem = dtype.get_elem_size();
        match shape.checked_size() {
            Some(n) => match n.checked_mul(elem) {
                Some(b) => Ok(b),
                None => Err(TRTError::ShapeError(shape.duplicate().0)),
            },
            None => {
                proof {
                    if all_non_negative(shape@) {
                        let p = dims_product(shape@);
                        let e = elem as int;
                        assert(p * e >= p) by (nonlinear_arith)
                            requires
                                p > usize::MAX,
                                e >= 1,
                        ;
                    }
                }
                Err(TRTError::ShapeError(shape.duplicate().0))
            },
        }
    }

    /// Adopts the device buffer at `ptr`, sized for `shape`, without
    /// allocating. A shape error where the shape has a dynamic dimension or
    /// its byte size does not fit.
    pub fn from_raw_ptr(ptr: usize, shape: &Shape, dtype: DataType) -> (r: Result<
        Tensor,
        TRTError,
    >)
        ensures
            match r {
                Ok(t) => {
                    &&& bytes_defined(shape@, dtype)
                    &&& t.spec_addr() == ptr
                    &&& t.spec_dims() == shape@
                    &&& t.spec_capacity() == dims_product(shape@)
                    &&& t.spec_dtype() == dtype
                },
                Err(_) => !bytes_defined(shape@, dtype) && is_shape_error(r, shape@),
            },
    {
        match Tensor::bytes_for(shape, dtype) {
            Ok(_) => {
                let n = shape.size();
                Ok(Tensor { addr: ptr, capacity: n, shape: shape.duplicate(), dtype })
            },
            Err(e) => Err(e),
        }
    }

    /// The device address of the buffer, for binding into an execution
    /// context.
    pub fn get_raw_ptr(&self) -> (r: usize)
        ensures
            r == self.spec_addr(),
    {
        self.addr
    }

    /// The current shape.
    pub fn shape(&self) -> (r: &Shape)
        ensures
            r@ == self.spec_dims(),
    {
        &self.shape
    }

    pub fn dtype(&self) -> (r: DataType)
        ensures
            r == self.spec_dtype(),
    {
        self.dtype
    }

    /// Elements the allocation holds.
    pub fn capacity(&self) -> (r: usize)
        ensures
            r == self.spec_capacity(),
    {
        self.capacity
    }

    /// Reads the buffer under a new shape, without copying or reallocating.
    /// The bound is the allocation, not the current shape: a tensor shrunk
    /// earlier may grow back up to what it was allocated for.
    pub fn reset_shape(&mut self, shape: &Shape) -> (r: Result<(), TRTError>)
        ensures
            reset_shape_step(*old(self), shape@, r.is_ok(), *final(self)),
            r.is_err() ==> *final(self) == *old(self),
            !all_non_negative(shape@) ==> is_shape_error(r, shape@),
            all_non_negative(shape@) && !reset_fits(shape@, old(self).spec_capacity())
                ==> r == Err::<(), TRTError>(TRTError::ResetShapesError),
    {
        proof {
            use_type_invariant(&*self);
        }
        if shape.has_negative_dim() {
            return Err(TRTError::ShapeError(shape.duplicate().0));
        }
        match shape.checked_size() {
            Some(n) => {
                if n > self.capacity {
                    Err(TRTError::ResetShapesError)
                } else {
                    self.shape = shape.duplicate();
                    Ok(())
                }
            },
            None => Err(TRTError::ResetShapesError),
        }
    }

    /// Checks that `src` can be copied into this tensor and gives the copy to
    /// issue: a shape mismatch where the current shapes differ (whatever
    /// their byte sizes), else a type mismatch where the element types
    /// differ.
    pub fn copy_from(&self, src: &Tensor) -> (r: Result<DeviceCopy, TRTError>)
        ensures
            self.spec_dims() != src.spec_dims() ==> r == Err::<DeviceCopy, TRTError>(
                TRTError::ShapeMismatch,
            ),
            self.spec_dims() == src.spec_dims() && self.spec_dtype() != src.spec_dtype() ==> r
                == Err::<DeviceCopy, TRTError>(TRTError::DTypeMismatch),
            self.spec_dims() == src.spec_dims() && self.spec_dtype() == src.spec_dtype() ==> r
                == Ok::<DeviceCopy, TRTError>(
                (DeviceCopy {
                    dst: self.spec_addr(),
                    src: src.spec_addr(),
                    bytes: byte_size(self.spec_dims(), self.spec_dtype()) as usize,
                }),
            ),
    {
        if !self.shape.same_dims(&src.shape) {
            return Err(TRTError::ShapeMismatch);
        }
        if self.dtype != src.dtype {
            return Err(TRTError::DTypeMismatch);
        }
        proof {
            use_type_invariant(self);
            self.lemma_wf();
        }
        let n = self.shape.size();
        let bytes = n * self.dtype.get_elem_size();
        Ok(DeviceCopy { dst: self.addr, src: src.addr, bytes })
    }
}

/// What `reset_shape` does: `after` is `before` read under `dims` where
/// that fits the allocation (`ok`), and `before` unchanged otherwise.
pub open spec fn reset_shape_step(before: Tensor, dims: Seq<i32>, ok: bool, after: Tensor) -> bool {
    &&& after.spec_addr() == before.spec_addr()
    &&& after.spec_capacity() == before.spec_capacity()
    &&& after.spec_dtype() == before.spec_dtype()
    &&& ok == reset_fits(dims, before.spec_capacity())
    &&& after.spec_dims() == if ok {
        dims
    } else {
        before.spec_dims()
    }
}

/// Resetting a tensor to the same shape twice: the second call succeeds
/// whenever the first did and leaves the tensor as the first call left it;
/// and a shape with more elements than the allocation is always refused,
/// whatever shape the tensor currently has.
pub proof fn lemma_reset_shape_idempotent(
    t0: Tensor,
    t1: Tensor,
    t2: Tensor,
    dims: Seq<i32>,
    ok1: bool,
    ok2: bool,
)
    requires
        reset_shape_step(t0, dims, ok1, t1),
        reset_shape_step(t1, dims, ok2, t2),
    ensures
        ok2 == ok1,
        t2.spec_addr() == t1.spec_addr(),
        t2.spec_capacity() == t1.spec_capacity(),
        t2.spec_dtype() == t1.spec_dtype(),
        t2.spec_dims() == t1.spec_dims(),
        dims_product(dims) > t0.spec_capacity() ==> !ok1 && !ok2,
{
}

/// A tensor allocated for `capacity` elements can be read under `dims`.
pub open spec fn reset_fits(dims: Seq<i32>, capacity: nat) -> bool {
    all_non_negative(dims) && dims_product(dims) <= capacity
}

} // verus!
