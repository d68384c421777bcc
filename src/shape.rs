use vstd::prelude::*;

verus! {

/// Product of the dimensions of a shape; the empty shape has product 1.
pub open spec fn dims_product(dims: Seq<i32>) -> int
    decreases dims.len(),
{
    if dims.len() == 0 {
        1
    } else {
        dims_product(dims.drop_last()) * dims.last()
    }
}

/// No dimension is negative (dynamic).
pub open spec fn all_non_negative(dims: Seq<i32>) -> bool {
    forall|i: int| 0 <= i < dims.len() ==> dims[i] >= 0
}

/// A shape whose element count can be taken: no negative dimension and a
/// product that fits in `usize`.
pub open spec fn size_defined(dims: Seq<i32>) -> bool {
    all_non_negative(dims) && dims_product(dims) <= usize::MAX
}

pub proof fn lemma_product_non_negative(dims: Seq<i32>)
    requires
        all_non_negative(dims),
    ensures
        dims_product(dims) >= 0,
    decreases dims.len(),
{
    if dims.len() > 0 {
        lemma_product_non_negative(dims.drop_last());
        vstd::arithmetic::mul::lemma_mul_nonnegative(dims_product(dims.drop_last()), dims.last() as int);
    }
}

/// With every dimension at least one, a prefix never has a larger product.
proof fn lemma_prefix_product_bounded(dims: Seq<i32>, n: int)
    requires
        0 <= n <= dims.len(),
        forall|i: int| 0 <= i < dims.len() ==> dims[i] >= 1,
    ensures
        1 <= dims_product(dims.take(n)) <= dims_product(dims),
    decreases dims.len(),
{
    if dims.len() > 0 {
        let init = dims.drop_last();
        if n == dims.len() {
            assert(dims.take(n) =~= dims);
            lemma_prefix_product_bounded(init, init.len() as int);
            assert(init.take(init.len() as int) =~= init);
        } else {
            assert(dims.take(n) =~= init.take(n));
            lemma_prefix_product_bounded(init, n);
        }
        let p = dims_product(init);
        assert(p <= p * dims.last()) by (nonlinear_arith)
            requires
                p >= 1,
                dims.last() >= 1,
        ;
    } else {
        assert(dims.take(n) =~= dims);
    }
}

proof fn lemma_product_zero(dims: Seq<i32>, k: int)
    requires
        0 <= k < dims.len(),
        dims[k] == 0,
    ensures
        dims_product(dims) == 0,
    decreases dims.len(),
{
    if k < dims.len() - 1 {
        lemma_product_zero(dims.drop_last(), k);
    }
}

/// The dimensions of a tensor. A negative entry stands for a dimension that
/// was left dynamic when the engine was built.
#[derive(Clone, Debug)]
pub struct Shape(pub Vec<i32>);

impl View for Shape {
    type V = Seq<i32>;

    open spec fn view(&self) -> Seq<i32> {
        self.0@
    }
}

impl PartialEq for Shape {
    fn eq(&self, other: &Shape) -> (r: bool) {
        self.same_dims(other)
    }
}

impl vstd::std_specs::cmp::PartialEqSpecImpl for Shape {
    open spec fn obeys_eq_spec() -> bool {
        true
    }

    open spec fn eq_spec(&self, other: &Shape) -> bool {
        self@ == other@
    }
}

impl Eq for Shape {
}

impl Shape {
    /// A shape holding the given dimensions.
    pub fn new(dims: Vec<i32>) -> (r: Shape)
        ensures
            r@ == dims@,
    {
        Shape(dims)
    }

    /// A shape with the same dimensions.
    pub fn duplicate(&self) -> (r: Shape)
        ensures
            r@ == self@,
    {
        let mut dims: Vec<i32> = Vec::with_capacity(self.0.len());
        let mut i: usize = 0;
        while i < self.0.len()
            invariant
                i <= self@.len(),
                dims@ == self@.take(i as int),
            decreases self@.len() - i,
        {
            dims.push(self.0[i]);
            i += 1;
            assert(dims@ =~= self@.take(i as int));
        }
        assert(self@.take(i as int) =~= self@);
        Shape(dims)
    }

    /// Whether both shapes have the same dimensions, in the same order.
    pub fn same_dims(&self, other: &Shape) -> (r: bool)
        ensures
            r == (self@ == other@),
    {
        if self.0.len() != other.0.len() {
            return false;
        }
        let mut i: usize = 0;
        while i < self.0.len()
            invariant
                i <= self@.len(),
                self@.len() == other@.len(),
                forall|j: int| 0 <= j < i ==> self@[j] == other@[j],
            decreases self@.len() - i,
        {
            if self.0[i] != other.0[i] {
                return false;
            }
            i += 1;
        }
        assert(self@ =~= other@);
        true
    }

    /// The first negative (dynamic) dimension, if there is one.
    pub fn find_negative(&self) -> (r: Option<usize>)
        ensures
            match r {
                Some(k) => k < self@.len() && self@[k as int] < 0
                    && forall|j: int| 0 <= j < k ==> self@[j] >= 0,
                None => all_non_negative(self@),
            },
    {
        let mut i: usize = 0;
        while i < self.0.len()
            invariant
                i <= self@.len(),
                forall|j: int| 0 <= j < i ==> self@[j] >= 0,
            decreases self@.len() - i,
        {
            if self.0[i] < 0 {
                return Some(i);
            }
            i += 1;
        }
        None
    }

    /// Whether some dimension is negative (dynamic).
    pub fn has_negative_dim(&self) -> (r: bool)
        ensures
            r == !all_non_negative(self@),
    {
        self.find_negative().is_some()
    }

    /// The element count, or `None` where it is not defined: a dynamic
    /// dimension, or a count beyond `usize`.
    pub fn checked_size(&self) -> (r: Option<usize>)
        ensures
            match r {
                Some(n) => size_defined(self@) && n == dims_product(self@),
                None => !size_defined(self@),
            },
    {
        if self.has_negative_dim() {
            return None;
        }
        let len = self.0.len();
        let mut k: usize = 0;
        while k < len
            invariant
                len == self@.len(),
                k <= len,
                forall|j: int| 0 <= j < k ==> self@[j] >= 1,
                all_non_negative(self@),
            decreases len - k,
        {
            if self.0[k] == 0 {
                proof {
                    lemma_product_zero(self@, k as int);
                }
                return Some(0);
            }
            k += 1;
        }
        let mut acc: usize = 1;
        let mut i: usize = 0;
        while i < len
            invariant
                len == self@.len(),
                i <= len,
                forall|j: int| 0 <= j < len ==> self@[j] >= 1,
                acc == dims_product(self@.take(i as int)),
            decreases len - i,
        {
            let d = self.0[i] as usize;
            proof {
                assert(self@.take(i as int + 1).drop_last() =~= self@.take(i as int));
            }
            match acc.checked_mul(d) {
                Some(next) => {
                    acc = next;
                },
                None => {
                    proof {
                        lemma_prefix_product_bounded(self@, i as int + 1);
                    }
                    return None;
                },
            }
            i += 1;
        }
        assert(self@.take(len as int) =~= self@);
        Some(acc)
    }

    /// The number of elements: the product of the dimensions.
    pub fn size(&self) -> (r: usize)
        requires
            size_defined(self@),
        ensures
            r == dims_product(self@),
    {
        match self.checked_size() {
            Some(n) => n,
            None => 0,
        }
    }
}

} // verus!
