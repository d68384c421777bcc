use vstd::prelude::*;
use crate::error::{TRTError, TRTResult, is_shape_error};
use crate::runtime::{CudaEngine, ExecutionContext, IoTensorInfo, index_of};
use crate::shape::Shape;
use crate::tensor::{DeviceCopy, Tensor, byte_size, bytes_defined, reset_fits, reset_shape_step};
use crate::types::{DataType, TensorIOMode};

verus! {

/// A native call for the caller to make on the engine's behalf. The caller
/// reports what came of it through [`TRTEngine::advance`].
#[derive(Debug)]
pub enum Action {
    /// Set the execution context's input shape for the named tensor.
    SetInputShape(String, Shape),
    /// Allocate this many bytes of device memory on the stream, for the named
    /// tensor.
    Allocate(String, usize),
    /// Bind the device address to the named tensor in the execution context.
    SetTensorAddress(String, usize),
    /// Issue this device-to-device copy into the named tensor's buffer, on
    /// the stream.
    Copy(String, DeviceCopy),
    /// Enqueue the execution context on the stream.
    Enqueue,
    /// The step is over, with this result; nothing more to do.
    Done(TRTResult<()>),
}

/// What a native call gave back.
#[derive(Clone, Copy, Debug, PartialEq, Eq, Structural)]
pub enum Outcome {
    /// The call returned true, or was issued.
    Accepted,
    /// The call returned false.
    Rejected,
    /// Device memory was allocated at this address.
    Allocated(usize),
    /// The device call failed with this driver result code.
    Failed(u32),
}

/// The native call whose outcome the engine waits for.
#[derive(Clone, Copy, Debug, PartialEq, Eq, Structural)]
pub enum Stage {
    InputShape,
    Memory,
    Address,
    Copy,
    Enqueue,
}

/// The protocol step in progress.
#[derive(Debug)]
pub enum Job {
    Idle,
    /// Allocating engine tensor `index`, with the allocation shapes resolved
    /// when the step began.
    Allocating { shapes: Vec<Shape>, index: usize, stage: Stage },
    /// Feeding entry `index` of `feed`, whose tensor sits in `slot`.
    Inferring { feed: Vec<(String, Tensor)>, index: usize, slot: usize, stage: Stage },
}

/// Which outcomes answer the call made in `stage`.
pub open spec fn stage_expects(stage: Stage, o: Outcome) -> bool {
    match stage {
        Stage::Memory => o is Allocated || o is Failed,
        Stage::Copy => o is Accepted || o is Failed,
        _ => o is Accepted || o is Rejected,
    }
}

pub open spec fn job_expects(job: Job, o: Outcome) -> bool {
    match job {
        Job::Idle => false,
        Job::Allocating { stage, .. } => stage_expects(stage, o),
        Job::Inferring { stage, .. } => stage_expects(stage, o),
    }
}

/// The first maximum shape given for `name`, if any.
pub open spec fn override_for(dict: Seq<(String, Shape)>, name: Seq<char>) -> Option<Seq<i32>>
    decreases dict.len(),
{
    if dict.len() == 0 {
        None
    } else if dict[0].0@ == name {
        Some(dict[0].1@)
    } else {
        override_for(dict.drop_first(), name)
    }
}

/// The allocation shape of a tensor: the caller's maximum shape where one is
/// given, else the engine's static shape.
pub open spec fn resolved_shape(info: IoTensorInfo, dict: Seq<(String, Shape)>) -> Seq<i32> {
    match override_for(dict, info.name@) {
        Some(d) => d,
        None => info.shape@,
    }
}

/// Tensor `k` is the first whose allocation shape is not usable: it has a
/// dynamic dimension, or its byte size does not fit.
pub open spec fn first_unresolved(infos: Seq<IoTensorInfo>, dict: Seq<(String, Shape)>, k: int) -> bool {
    &&& !bytes_defined(resolved_shape(infos[k], dict), infos[k].dtype)
    &&& forall|j: int| 0 <= j < k ==> bytes_defined(#[trigger] resolved_shape(infos[j], dict), infos[j].dtype)
}

/// Every tensor's allocation shape is usable.
pub open spec fn all_resolved(infos: Seq<IoTensorInfo>, dict: Seq<(String, Shape)>) -> bool {
    forall|i: int| 0 <= i < infos.len() ==> bytes_defined(#[trigger] resolved_shape(infos[i], dict), infos[i].dtype)
}

/// The views of a sequence of shapes.
pub open spec fn shape_views(shapes: Seq<Shape>) -> Seq<Seq<i32>> {
    shapes.map_values(|s: Shape| s@)
}

pub open spec fn is_set_input_shape(a: Action, name: Seq<char>, dims: Seq<i32>) -> bool {
    match a {
        Action::SetInputShape(n, s) => n@ == name && s@ == dims,
        _ => false,
    }
}

pub open spec fn is_allocate(a: Action, name: Seq<char>, bytes: int) -> bool {
    match a {
        Action::Allocate(n, b) => n@ == name && b == bytes,
        _ => false,
    }
}

pub open spec fn is_set_tensor_address(a: Action, name: Seq<char>, address: usize) -> bool {
    match a {
        Action::SetTensorAddress(n, p) => n@ == name && p == address,
        _ => false,
    }
}

pub open spec fn is_copy(a: Action, name: Seq<char>, c: DeviceCopy) -> bool {
    match a {
        Action::Copy(n, d) => n@ == name && d == c,
        _ => false,
    }
}

pub open spec fn is_done_with(a: Action, e: TRTError) -> bool {
    a == Action::Done(Err(e))
}

pub open spec fn is_done_ok(a: Action) -> bool {
    a == Action::Done(Ok(()))
}

pub open spec fn is_done_shape_error(a: Action, dims: Seq<i32>) -> bool {
    match a {
        Action::Done(r) => is_shape_error(r, dims),
        _ => false,
    }
}

pub open spec fn is_allocating(job: Job, shapes: Seq<Seq<i32>>, index: int, stage: Stage) -> bool {
    match job {
        Job::Allocating { shapes: s, index: i, stage: st } => shape_views(s@) == shapes && i
            == index && st == stage,
        _ => false,
    }
}

pub open spec fn is_inferring(
    job: Job,
    feed: Seq<(String, Tensor)>,
    index: int,
    slot: int,
    stage: Stage,
) -> bool {
    match job {
        Job::Inferring { feed: f, index: i, slot: s, stage: st } => f@ == feed && i == index && s
            == slot && st == stage,
        _ => false,
    }
}

/// The engine tensor fed by `name`, where one is allocated.
pub open spec fn fed_slot(e: TRTEngine, name: Seq<char>) -> Option<int> {
    match index_of(e.io_tensors(), name) {
        Some(s) => if e.slots()[s] is Some {
            Some(s)
        } else {
            None
        },
        None => None,
    }
}

/// The names, in order, of the tensors among `infos` that have an allocated
/// tensor in `e`.
pub open spec fn allocated_names(e: TRTEngine, infos: Seq<IoTensorInfo>) -> Seq<Seq<char>>
    decreases infos.len(),
{
    if infos.len() == 0 {
        Seq::empty()
    } else {
        let rest = allocated_names(e, infos.drop_last());
        if fed_slot(e, infos.last().name@) is Some {
            rest.push(infos.last().name@)
        } else {
            rest
        }
    }
}

/// A context for `n` tensors with nothing bound.
pub open spec fn fresh_context(c: ExecutionContext, n: nat) -> bool {
    &&& c.slots() == n
    &&& forall|i: int| 0 <= i < n ==> c.bound_shape(i) is None && c.bound_address(i) is None
}

/// `after` differs from `before` in its job alone.
pub open spec fn same_bindings(before: TRTEngine, after: TRTEngine) -> bool {
    &&& after.io_tensors() == before.io_tensors()
    &&& after.context() == before.context()
    &&& after.slots() == before.slots()
}

/// How an allocation step goes on at engine tensor `i`: ask for its input
/// shape where it is an input, else for its memory; done once every tensor
/// is allocated.
pub open spec fn alloc_entry_post(e: TRTEngine, shapes: Seq<Seq<i32>>, i: int, a: Action) -> bool {
    let infos = e.io_tensors();
    &&& allocated_through(e, shapes, i)
    &&& if i == infos.len() {
        e.job() is Idle && is_done_ok(a)
    } else if infos[i].mode == TensorIOMode::INPUT {
        is_allocating(e.job(), shapes, i, Stage::InputShape) && is_set_input_shape(
            a,
            infos[i].name@,
            shapes[i],
        )
    } else {
        is_allocating(e.job(), shapes, i, Stage::Memory) && is_allocate(
            a,
            infos[i].name@,
            byte_size(shapes[i], infos[i].dtype),
        )
    }
}

/// Engine tensors before `i` hold a tensor of the shape resolved for them,
/// and its address is bound in the context.
pub open spec fn allocated_through(e: TRTEngine, shapes: Seq<Seq<i32>>, i: int) -> bool {
    &&& e.context() is Some
    &&& forall|j: int|
        0 <= j < i ==> (#[trigger] e.slots()[j] matches Some(t) && t.spec_dims() == shapes[j]
            && e.context()->Some_0.bound_address(j) == Some(t.spec_addr()))
}

/// `after` binds `dims` as the input shape of slot `i`, and otherwise holds
/// what `before` held.
pub open spec fn binds_shape(
    before: Option<ExecutionContext>,
    after: Option<ExecutionContext>,
    i: int,
    dims: Seq<i32>,
) -> bool {
    &&& before is Some
    &&& after is Some
    &&& after->Some_0.wf()
    &&& after->Some_0.slots() == before->Some_0.slots()
    &&& forall|j: int|
        0 <= j < before->Some_0.slots() ==> #[trigger] after->Some_0.bound_shape(j) == if j == i {
            Some(dims)
        } else {
            before->Some_0.bound_shape(j)
        }
    &&& forall|j: int|
        0 <= j < before->Some_0.slots() ==> #[trigger] after->Some_0.bound_address(j)
            == before->Some_0.bound_address(j)
}

/// `after` binds `address` to slot `i`, and otherwise holds what `before`
/// held.
pub open spec fn binds_address(
    before: Option<ExecutionContext>,
    after: Option<ExecutionContext>,
    i: int,
    address: usize,
) -> bool {
    &&& before is Some
    &&& after is Some
    &&& after->Some_0.wf()
    &&& after->Some_0.slots() == before->Some_0.slots()
    &&& forall|j: int|
        0 <= j < before->Some_0.slots() ==> #[trigger] after->Some_0.bound_address(j) == if j
            == i {
            Some(address)
        } else {
            before->Some_0.bound_address(j)
        }
    &&& forall|j: int|
        0 <= j < before->Some_0.slots() ==> #[trigger] after->Some_0.bound_shape(j)
            == before->Some_0.bound_shape(j)
}

/// The step ended with `a` and changed nothing but the job.
pub open spec fn ends_with(before: TRTEngine, after: TRTEngine, a: Action, r: TRTResult<()>) -> bool {
    &&& same_bindings(before, after)
    &&& after.job() is Idle
    &&& a == Action::Done(r)
}

/// What [`TRTEngine::advance`] does with the outcome `o` of the call the
/// engine waited for.
pub open spec fn advance_post(before: TRTEngine, after: TRTEngine, o: Outcome, a: Action) -> bool {
    let infos = before.io_tensors();
    &&& after.io_tensors() == infos
    &&& match before.job() {
        Job::Allocating { shapes, index, stage } => {
            let i = index as int;
            let dims = shapes@[i]@;
            let sv = shape_views(shapes@);
            match stage {
                Stage::InputShape => if o == Outcome::Accepted {
                    &&& after.slots() == before.slots()
                    &&& binds_shape(before.context(), after.context(), i, dims)
                    &&& is_allocating(after.job(), sv, i, Stage::Memory)
                    &&& is_allocate(a, infos[i].name@, byte_size(dims, infos[i].dtype))
                } else {
                    &&& same_bindings(before, after)
                    &&& after.job() is Idle
                    &&& is_done_shape_error(a, dims)
                },
                Stage::Memory => match o {
                    Outcome::Allocated(p) => {
                        &&& after.context() == before.context()
                        &&& after.slots().len() == before.slots().len()
                        &&& after.slots()[i] matches Some(t) && t.spec_addr() == p && t.spec_dims()
                            == dims && t.spec_capacity() == crate::shape::dims_product(dims)
                            && t.spec_dtype() == infos[i].dtype
                        &&& forall|j: int|
                            0 <= j < after.slots().len() && j != i ==> after.slots()[j]
                                == before.slots()[j]
                        &&& is_allocating(after.job(), sv, i, Stage::Address)
                        &&& is_set_tensor_address(a, infos[i].name@, p)
                    },
                    Outcome::Failed(c) => ends_with(before, after, a, Err(TRTError::CudaError(c))),
                    _ => false,
                },
                Stage::Address => if o == Outcome::Accepted {
                    &&& after.slots() == before.slots()
                    &&& binds_address(
                        before.context(),
                        after.context(),
                        i,
                        before.slots()[i]->Some_0.spec_addr(),
                    )
                    &&& alloc_entry_post(after, sv, i + 1, a)
                } else {
                    ends_with(before, after, a, Err(TRTError::InvalidAddress))
                },
                _ => false,
            }
        },
        Job::Inferring { feed, index, slot, stage } => {
            let j = index as int;
            match stage {
                Stage::InputShape => if o == Outcome::Accepted {
                    &&& after.slots() == before.slots()
                    &&& binds_shape(
                        before.context(),
                        after.context(),
                        slot as int,
                        feed@[j].1.spec_dims(),
                    )
                    &&& copy_entry_post(after, feed@, j, slot as int, a)
                } else {
                    &&& same_bindings(before, after)
                    &&& after.job() is Idle
                    &&& is_done_shape_error(a, feed@[j].1.spec_dims())
                },
                Stage::Copy => match o {
                    Outcome::Accepted => feed_entry_post(before, after, feed@, j + 1, a),
                    Outcome::Failed(c) => ends_with(before, after, a, Err(TRTError::CudaError(c))),
                    _ => false,
                },
                Stage::Enqueue => if o == Outcome::Accepted {
                    ends_with(before, after, a, Ok(()))
                } else {
                    ends_with(before, after, a, Err(TRTError::EnqueueError))
                },
                _ => false,
            }
        },
        Job::Idle => false,
    }
}

/// How an inference step copies feed entry `j` into the tensor in slot `s`,
/// whose shape already matches: a type mismatch ends the step.
pub open spec fn copy_entry_post(
    after: TRTEngine,
    feed: Seq<(String, Tensor)>,
    j: int,
    s: int,
    a: Action,
) -> bool {
    let t = after.slots()[s]->Some_0;
    let src = feed[j].1;
    if t.spec_dtype() != src.spec_dtype() {
        after.job() is Idle && is_done_with(a, TRTError::DTypeMismatch)
    } else {
        &&& is_inferring(after.job(), feed, j, s, Stage::Copy)
        &&& is_copy(
            a,
            feed[j].0@,
            DeviceCopy {
                dst: t.spec_addr(),
                src: src.spec_addr(),
                bytes: byte_size(t.spec_dims(), t.spec_dtype()) as usize,
            },
        )
    }
}

/// How an inference step goes on from feed entry `k`: entries whose name has
/// no allocated tensor are skipped; the next one is reshaped (and its new
/// input shape set) where its shape differs, then copied; once the feed is
/// exhausted the context is enqueued.
pub open spec fn feed_entry_post(
    before: TRTEngine,
    after: TRTEngine,
    feed: Seq<(String, Tensor)>,
    k: int,
    a: Action,
) -> bool {
    exists|j: int|
        #![trigger feed[j]]
        k <= j <= feed.len() && (forall|m: int| k <= m < j ==> fed_slot(before, feed[m].0@) is None)
            && feed_at_post(before, after, feed, j, a)
}

pub open spec fn feed_at_post(
    before: TRTEngine,
    after: TRTEngine,
    feed: Seq<(String, Tensor)>,
    j: int,
    a: Action,
) -> bool {
    if j == feed.len() {
        &&& same_bindings(before, after)
        &&& is_inferring(after.job(), feed, j, 0, Stage::Enqueue)
        &&& a == Action::Enqueue
    } else {
        fed_slot(before, feed[j].0@) is Some && {
            let s = fed_slot(before, feed[j].0@)->Some_0;
            let t = before.slots()[s]->Some_0;
            let dims = feed[j].1.spec_dims();
            &&& after.io_tensors() == before.io_tensors()
            &&& after.context() == before.context()
            &&& if t.spec_dims() == dims {
                &&& after.slots() == before.slots()
                &&& copy_entry_post(after, feed, j, s, a)
            } else if reset_fits(dims, t.spec_capacity()) {
                &&& after.slots().len() == before.slots().len()
                &&& after.slots()[s] is Some
                &&& reset_shape_step(t, dims, true, after.slots()[s]->Some_0)
                &&& forall|m: int|
                    0 <= m < before.slots().len() && m != s ==> after.slots()[m]
                        == before.slots()[m]
                &&& is_inferring(after.job(), feed, j, s, Stage::InputShape)
                &&& is_set_input_shape(a, feed[j].0@, dims)
            } else {
                &&& after.slots() == before.slots()
                &&& after.job() is Idle
                &&& is_done_with(a, TRTError::ResetShapesError)
            }
        }
    }
}

/// When an allocation step completes, every I/O tensor of the engine has
/// exactly one tensor in the map, under its own name: the map's names are the
/// engine's names, in order, and each tensor has the shape resolved for it in
/// this step and is bound in the context at its address.
pub proof fn lemma_allocation_complete(e: TRTEngine, shapes: Seq<Seq<i32>>, a: Action)
    requires
        e.wf(),
        alloc_entry_post(e, shapes, e.io_tensors().len() as int, a),
    ensures
        is_done_ok(a),
        e.job() is Idle,
        e.context() is Some,
        forall|i: int|
            0 <= i < e.io_tensors().len() ==> fed_slot(e, #[trigger] e.io_tensors()[i].name@)
                == Some(i) && e.slots()[i]->Some_0.spec_dims() == shapes[i]
                && e.context()->Some_0.bound_address(i) == Some(e.slots()[i]->Some_0.spec_addr()),
        allocated_names(e, e.io_tensors()) == e.io_tensors().map_values(
            |t: IoTensorInfo| t.name@,
        ),
{
    let infos = e.io_tensors();
    assert forall|i: int| 0 <= i < infos.len() implies fed_slot(e, #[trigger] infos[i].name@)
        == Some(i) by {
        e.lemma_names_unique();
        assert(e.slots()[i] is Some);
        let k = choose|k: int| 0 <= k < infos.len() && infos[k].name@ == infos[i].name@;
        assert(infos[k].name@ == infos[i].name@);
    }
    lemma_all_allocated_names(e, infos);
}

/// Memory allocated for an engine tensor during an allocation step takes the
/// place of whatever tensor that name held before (from an earlier
/// allocation): the map keeps one slot per engine tensor, the slot holds the
/// new tensor at the new address, and no other slot changes.
pub proof fn lemma_allocation_replaces_slot(
    before: TRTEngine,
    after: TRTEngine,
    shapes: Seq<Seq<i32>>,
    i: int,
    p: usize,
    a: Action,
)
    requires
        before.wf(),
        is_allocating(before.job(), shapes, i, Stage::Memory),
        advance_post(before, after, Outcome::Allocated(p), a),
    ensures
        after.slots().len() == before.slots().len() == before.io_tensors().len(),
        after.slots()[i] matches Some(t) && t.spec_addr() == p && t.spec_dims() == shapes[i],
        forall|j: int| 0 <= j < after.slots().len() && j != i ==> after.slots()[j] == before.slots()[j],
        is_set_tensor_address(a, before.io_tensors()[i].name@, p),
{
    if let Job::Allocating { shapes: s, .. } = before.job() {
        assert(shape_views(s@)[i] == s@[i]@);
    }
}

proof fn lemma_all_allocated_names(e: TRTEngine, infos: Seq<IoTensorInfo>)
    requires
        forall|i: int| 0 <= i < infos.len() ==> fed_slot(e, #[trigger] infos[i].name@) is Some,
    ensures
        allocated_names(e, infos) == infos.map_values(|t: IoTensorInfo| t.name@),
    decreases infos.len(),
{
    if infos.len() > 0 {
        let init = infos.drop_last();
        assert forall|i: int| 0 <= i < init.len() implies fed_slot(e, #[trigger] init[i].name@) is Some by {
            assert(init[i] == infos[i]);
        }
        lemma_all_allocated_names(e, init);
        assert(fed_slot(e, infos[infos.len() - 1].name@) is Some);
        assert(infos.map_values(|t: IoTensorInfo| t.name@) =~= init.map_values(
            |t: IoTensorInfo| t.name@,
        ).push(infos.last().name@));
    } else {
        assert(infos.map_values(|t: IoTensorInfo| t.name@) =~= Seq::<Seq<char>>::empty());
    }
}

/// Drives one engine through its protocol: activation, allocation of the
/// I/O tensors, and inference. The native runtime stays with the caller:
/// each step hands out the next native call as an [`Action`], and the
/// caller hands back its [`Outcome`].
#[derive(Debug)]
pub struct TRTEngine {
    engine: CudaEngine,
    context: Option<ExecutionContext>,
    tensors: Vec<Option<Tensor>>,
    job: Job,
}

impl TRTEngine {
    /// The engine's I/O tensors, in its own order.
    pub closed spec fn io_tensors(&self) -> Seq<IoTensorInfo> {
        self.engine.io_tensors()
    }

    /// The execution context, once activated.
    pub closed spec fn context(&self) -> Option<ExecutionContext> {
        self.context
    }

    /// The tensor map: slot `i` holds the tensor allocated for engine tensor
    /// `i`, if any.
    pub closed spec fn slots(&self) -> Seq<Option<Tensor>> {
        self.tensors@
    }

    pub closed spec fn job(&self) -> Job {
        self.job
    }

    closed spec fn wf_base(&self) -> bool {
        &&& crate::runtime::names_unique(self.engine.io_tensors())
        &&& self.tensors@.len() == self.engine.io_tensors().len()
        &&& match self.context {
            Some(c) => c.wf() && c.slots() == self.engine.io_tensors().len(),
            None => true,
        }
    }

    closed spec fn job_wf(&self) -> bool {
        let infos = self.engine.io_tensors();
        match self.job {
            Job::Idle => true,
            Job::Allocating { shapes, index, stage } => {
                &&& self.context is Some
                &&& shapes@.len() == infos.len()
                &&& index < infos.len()
                &&& forall|i: int|
                    0 <= i < infos.len() ==> bytes_defined(#[trigger] shapes@[i]@, infos[i].dtype)
                &&& allocated_through(*self, shape_views(shapes@), index as int)
                &&& stage == Stage::Address ==> (self.tensors@[index as int] matches Some(t)
                    && t.spec_dims() == shapes@[index as int]@)
                &&& match stage {
                    Stage::InputShape => infos[index as int].mode == TensorIOMode::INPUT,
                    Stage::Memory => true,
                    Stage::Address => self.tensors@[index as int] is Some,
                    _ => false,
                }
            },
            Job::Inferring { feed, index, slot, stage } => {
                &&& self.context is Some
                &&& match stage {
                    Stage::Enqueue => index == feed@.len(),
                    Stage::InputShape | Stage::Copy => {
                        &&& index < feed@.len()
                        &&& slot < infos.len()
                        &&& self.tensors@[slot as int] matches Some(t) && t.spec_dims()
                            == feed@[index as int].1.spec_dims()
                        &&& index_of(infos, feed@[index as int].0@) == Some(slot as int)
                    },
                    _ => false,
                }
            },
        }
    }

    /// No two I/O tensors of the engine share a name.
    pub proof fn lemma_names_unique(&self)
        requires
            self.wf(),
        ensures
            crate::runtime::names_unique(self.io_tensors()),
    {
    }

    /// The engine's parts agree in size, and the step in progress is one the
    /// engine can go on with.
    pub closed spec fn wf(&self) -> bool {
        self.wf_base() && self.job_wf()
    }

    /// A freshly deserialized engine: not activated, nothing allocated.
    pub fn new(engine: CudaEngine) -> (r: TRTEngine)
        ensures
            r.wf(),
            r.io_tensors() == engine.io_tensors(),
            r.context() is None,
            r.job() is Idle,
            forall|i: int| 0 <= i < r.slots().len() ==> r.slots()[i] is None,
    {
        let n = engine.get_num_io_tensors();
        let mut tensors: Vec<Option<Tensor>> = Vec::new();
        let mut i: usize = 0;
        while i < n
            invariant
                i <= n,
                tensors@.len() == i,
                forall|j: int| 0 <= j < i ==> tensors@[j] is None,
            decreases n - i,
        {
            tensors.push(None);
            i += 1;
        }
        TRTEngine { engine, context: None, tensors, job: Job::Idle }
    }

    /// The engine's metadata.
    pub fn engine(&self) -> (r: &CudaEngine)
        ensures
            r.io_tensors() == self.io_tensors(),
    {
        &self.engine
    }

    /// Whether an execution context exists.
    pub fn is_activated(&self) -> (r: bool)
        ensures
            r == self.context() is Some,
    {
        self.context.is_some()
    }

    /// Whether `o` answers the native call the engine waits for.
    pub fn expects(&self, o: Outcome) -> (r: bool)
        ensures
            r == job_expects(self.job(), o),
    {
        let stage = match &self.job {
            Job::Idle => {
                return false;
            },
            Job::Allocating { stage, .. } => *stage,
            Job::Inferring { stage, .. } => *stage,
        };
        match stage {
            Stage::Memory => matches!(o, Outcome::Allocated(_) | Outcome::Failed(_)),
            Stage::Copy => matches!(o, Outcome::Accepted | Outcome::Failed(_)),
            _ => matches!(o, Outcome::Accepted | Outcome::Rejected),
        }
    }

    /// Takes in the native runtime's answer to creating an execution
    /// context: `created` where it returned one. A new context has nothing
    /// bound; any step in progress is dropped.
    pub fn activate(&mut self, created: bool) -> (r: TRTResult<()>)
        requires
            old(self).wf(),
        ensures
            final(self).wf(),
            final(self).io_tensors() == old(self).io_tensors(),
            final(self).slots() == old(self).slots(),
            final(self).job() is Idle,
            created ==> r is Ok && final(self).context() is Some,
            created ==> fresh_context(final(self).context()->Some_0, old(self).io_tensors().len()),
            !created ==> r == Err::<(), TRTError>(TRTError::ExecutionContextCreationError)
                && final(self).context() == old(self).context(),
    {
        self.job = Job::Idle;
        if !created {
            return Err(TRTError::ExecutionContextCreationError);
        }
        let n = self.engine.get_num_io_tensors();
        self.context = Some(ExecutionContext::new(n));
        Ok(())
    }

    /// The tensor allocated for the named engine tensor, if any.
    pub fn get_tensor(&self, name: &String) -> (r: Option<&Tensor>)
        requires
            self.wf(),
        ensures
            match fed_slot(*self, name@) {
                Some(s) => r == Some(&self.slots()[s]->Some_0),
                None => r is None,
            },
    {
        match self.engine.find_tensor(name) {
            Some(i) => match &self.tensors[i] {
                Some(t) => Some(t),
                None => None,
            },
            None => None,
        }
    }

    /// The names of the engine tensors that have an allocated tensor, in the
    /// engine's order.
    pub fn tensor_names(&self) -> (r: Vec<String>)
        requires
            self.wf(),
        ensures
            r@.map_values(|s: String| s@) == allocated_names(*self, self.io_tensors()),
    {
        let n = self.engine.get_num_io_tensors();
        let mut names: Vec<String> = Vec::new();
        let mut i: usize = 0;
        while i < n
            invariant
                self.wf(),
                n == self.io_tensors().len(),
                i <= n,
                names@.map_values(|s: String| s@) == allocated_names(
                    *self,
                    self.io_tensors().take(i as int),
                ),
            decreases n - i,
        {
            let name = self.engine.get_io_tensor_name(i);
            let found = self.get_tensor(name).is_some();
            let ghost prev = names@;
            if found {
                names.push(name.clone());
            }
            proof {
                let next = self.io_tensors().take(i as int + 1);
                assert(next.drop_last() =~= self.io_tensors().take(i as int));
                assert(next.last() == self.io_tensors()[i as int]);
                if found {
                    assert(names@ == prev.push(names@.last()));
                }
                assert(names@.map_values(|s: String| s@) =~= allocated_names(*self, next));
            }
            i += 1;
        }
        proof {
            assert(self.io_tensors().take(n as int) =~= self.io_tensors());
        }
        names
    }

    /// The first maximum shape given for `name`, if any.
    fn lookup_override<'a>(dict: &'a Vec<(String, Shape)>, name: &String) -> (r: Option<&'a Shape>)
        ensures
            match override_for(dict@, name@) {
                Some(d) => r matches Some(s) && s@ == d,
                None => r is None,
            },
    {
        let mut k: usize = 0;
        proof {
            assert(dict@.skip(0) =~= dict@);
        }
        while k < dict.len()
            invariant
                k <= dict@.len(),
                override_for(dict@, name@) == override_for(dict@.skip(k as int), name@),
            decreases dict@.len() - k,
        {
            proof {
                assert(dict@.skip(k as int).drop_first() =~= dict@.skip(k as int + 1));
            }
            if dict[k].0 == *name {
                return Some(&dict[k].1);
            }
            k += 1;
        }
        None
    }

    /// The allocation shape of every engine tensor, in the engine's order;
    /// a shape error for the first one that has a dynamic dimension or whose
    /// byte size does not fit.
    fn resolve_shapes(&self, dict: &Vec<(String, Shape)>) -> (r: Result<Vec<Shape>, TRTError>)
        ensures
            match r {
                Ok(v) => {
                    &&& v@.len() == self.io_tensors().len()
                    &&& forall|i: int|
                        0 <= i < v@.len() ==> #[trigger] v@[i]@ == resolved_shape(
                            self.io_tensors()[i],
                            dict@,
                        ) && bytes_defined(v@[i]@, self.io_tensors()[i].dtype)
                },
                Err(_) => exists|k: int|
                    0 <= k < self.io_tensors().len() && first_unresolved(
                        self.io_tensors(),
                        dict@,
                        k,
                    ) && is_shape_error(r, resolved_shape(self.io_tensors()[k], dict@)),
            },
    {
        let n = self.engine.get_num_io_tensors();
        let mut shapes: Vec<Shape> = Vec::new();
        let mut i: usize = 0;
        while i < n
            invariant
                n == self.io_tensors().len(),
                i <= n,
                shapes@.len() == i,
                forall|j: int|
                    0 <= j < i ==> #[trigger] shapes@[j]@ == resolved_shape(
                        self.io_tensors()[j],
                        dict@,
                    ) && bytes_defined(shapes@[j]@, self.io_tensors()[j].dtype),
            decreases n - i,
        {
            let info = self.engine.get_io_tensor(i);
            let shape = match TRTEngine::lookup_override(dict, &info.name) {
                Some(s) => s.duplicate(),
                None => info.shape.duplicate(),
            };
            match Tensor::bytes_for(&shape, info.dtype) {
                Ok(_) => {},
                Err(e) => {
                    proof {
                        let infos = self.io_tensors();
                        assert forall|j: int| 0 <= j < i implies bytes_defined(
                            #[trigger] resolved_shape(infos[j], dict@),
                            infos[j].dtype,
                        ) by {
                            assert(shapes@[j]@ == resolved_shape(infos[j], dict@));
                        }
                        assert(first_unresolved(infos, dict@, i as int));
                    }
                    return Err(e);
                },
            }
            shapes.push(shape);
            i += 1;
        }
        Ok(shapes)
    }

    /// Moves the allocation step on to engine tensor `i`.
    fn alloc_entry(&mut self, shapes: Vec<Shape>, i: usize) -> (a: Action)
        requires
            old(self).wf_base(),
            old(self).context() is Some,
            shapes@.len() == old(self).io_tensors().len(),
            i <= shapes@.len(),
            forall|j: int|
                0 <= j < shapes@.len() ==> bytes_defined(
                    #[trigger] shapes@[j]@,
                    old(self).io_tensors()[j].dtype,
                ),
            allocated_through(*old(self), shape_views(shapes@), i as int),
        ensures
            final(self).wf(),
            same_bindings(*old(self), *final(self)),
            alloc_entry_post(*final(self), shape_views(shapes@), i as int, a),
    {
        let n = self.engine.get_num_io_tensors();
        if i == n {
            self.job = Job::Idle;
            return Action::Done(Ok(()));
        }
        let info = self.engine.get_io_tensor(i);
        let name = info.name.clone();
        proof {
            assert(shape_views(shapes@)[i as int] == shapes@[i as int]@);
        }
        if info.mode.is_input() {
            let dims = shapes[i].duplicate();
            self.job = Job::Allocating { shapes, index: i, stage: Stage::InputShape };
            Action::SetInputShape(name, dims)
        } else {
            let bytes = match Tensor::bytes_for(&shapes[i], info.dtype) {
                Ok(b) => b,
                Err(_) => 0,
            };
            self.job = Job::Allocating { shapes, index: i, stage: Stage::Memory };
            Action::Allocate(name, bytes)
        }
    }

    /// Starts allocating every I/O tensor of the engine, in the engine's
    /// order. Each tensor is sized for its maximum shape in `max_shape_dict`
    /// where one is given, else for the engine's static shape. Fails before
    /// any native call where the engine is not activated, or where an
    /// allocation shape has a dynamic dimension or does not fit. Tensors
    /// allocated earlier stay in the map until their slot is allocated anew.
    pub fn allocate_io_tensors(&mut self, max_shape_dict: &Vec<(String, Shape)>) -> (a: Action)
        requires
            old(self).wf(),
        ensures
            final(self).wf(),
            final(self).io_tensors() == old(self).io_tensors(),
            final(self).context() == old(self).context(),
            final(self).slots() == old(self).slots(),
            old(self).context() is None ==> final(self).job() is Idle && is_done_with(
                a,
                TRTError::ExecutionContextNotInitialized,
            ),
            old(self).context() is Some ==> {
                let infos = old(self).io_tensors();
                let shapes = Seq::new(
                    infos.len(),
                    |i: int| resolved_shape(infos[i], max_shape_dict@),
                );
                if all_resolved(infos, max_shape_dict@) {
                    alloc_entry_post(*final(self), shapes, 0, a)
                } else {
                    &&& final(self).job() is Idle
                    &&& exists|k: int|
                        0 <= k < infos.len() && first_unresolved(infos, max_shape_dict@, k)
                            && is_done_shape_error(a, shapes[k])
                }
            },
    {
        self.job = Job::Idle;
        if self.context.is_none() {
            return Action::Done(Err(TRTError::ExecutionContextNotInitialized));
        }
        let ghost infos = self.io_tensors();
        let ghost shapes = Seq::new(
            infos.len(),
            |i: int| resolved_shape(infos[i], max_shape_dict@),
        );
        match self.resolve_shapes(max_shape_dict) {
            Ok(v) => {
                proof {
                    assert(shape_views(v@) =~= shapes);
                    assert forall|i: int| 0 <= i < infos.len() implies bytes_defined(
                        #[trigger] resolved_shape(infos[i], max_shape_dict@),
                        infos[i].dtype,
                    ) by {
                        assert(v@[i]@ == shapes[i]);
                    }
                    assert(all_resolved(infos, max_shape_dict@));
                    assert forall|j: int| 0 <= j < v@.len() implies bytes_defined(
                        #[trigger] v@[j]@,
                        infos[j].dtype,
                    ) by {
                        assert(v@[j]@ == resolved_shape(infos[j], max_shape_dict@));
                    }
                }
                self.alloc_entry(v, 0)
            },
            Err(e) => {
                proof {
                    let k = choose|k: int|
                        0 <= k < infos.len() && first_unresolved(infos, max_shape_dict@, k)
                            && is_shape_error(Err::<Vec<Shape>, TRTError>(e), shapes[k]);
                    assert(!bytes_defined(resolved_shape(infos[k], max_shape_dict@), infos[k].dtype));
                    assert(!all_resolved(infos, max_shape_dict@));
                    assert(is_done_shape_error(Action::Done(Err(e)), shapes[k]));
                }
                Action::Done(Err(e))
            },
        }
    }

    /// Checks feed entry `j` against the tensor in slot `s` (same shape by
    /// now) and hands out the copy.
    fn copy_entry(&mut self, feed: Vec<(String, Tensor)>, j: usize, s: usize) -> (a: Action)
        requires
            old(self).wf_base(),
            old(self).context() is Some,
            j < feed@.len(),
            s < old(self).io_tensors().len(),
            old(self).slots()[s as int] matches Some(t) && t.spec_dims() == feed@[j as int].1.spec_dims(),
            index_of(old(self).io_tensors(), feed@[j as int].0@) == Some(s as int),
        ensures
            final(self).wf(),
            same_bindings(*old(self), *final(self)),
            copy_entry_post(*final(self), feed@, j as int, s as int, a),
    {
        let c = match &self.tensors[s] {
            Some(t) => t.copy_from(&feed[j].1),
            None => Err(TRTError::ShapeMismatch),
        };
        match c {
            Ok(c) => {
                let name = feed[j].0.clone();
                self.job = Job::Inferring { feed, index: j, slot: s, stage: Stage::Copy };
                Action::Copy(name, c)
            },
            Err(e) => {
                self.job = Job::Idle;
                Action::Done(Err(e))
            },
        }
    }

    /// Moves the inference step on from feed entry `k`.
    fn feed_entry(&mut self, feed: Vec<(String, Tensor)>, k: usize) -> (a: Action)
        requires
            old(self).wf_base(),
            old(self).context() is Some,
            k <= feed@.len(),
        ensures
            final(self).wf(),
            feed_entry_post(*old(self), *final(self), feed@, k as int, a),
    {
        let ghost before = *self;
        let mut j: usize = k;
        let mut found: Option<usize> = None;
        while found.is_none() && j < feed.len()
            invariant
                *self == before,
                self.wf_base(),
                k <= j <= feed@.len(),
                forall|m: int| k <= m < j ==> fed_slot(before, #[trigger] feed@[m].0@) is None,
                found matches Some(s) ==> j < feed@.len() && fed_slot(before, feed@[j as int].0@)
                    == Some(s as int),
            decreases feed@.len() - j + if found is None { 1int } else { 0int },
        {
            match self.engine.find_tensor(&feed[j].0) {
                Some(s) => {
                    if self.tensors[s].is_some() {
                        found = Some(s);
                    } else {
                        j += 1;
                    }
                },
                None => {
                    j += 1;
                },
            }
        }
        match found {
            None => {
                self.job = Job::Inferring { feed, index: j, slot: 0, stage: Stage::Enqueue };
                proof {
                    assert(feed_at_post(before, *self, feed@, j as int, Action::Enqueue));
                }
                Action::Enqueue
            },
            Some(s) => {
                let same = match &self.tensors[s] {
                    Some(t) => t.shape().same_dims(feed[j].1.shape()),
                    None => true,
                };
                if same {
                    let a = self.copy_entry(feed, j, s);
                    proof {
                        assert(feed_at_post(before, *self, feed@, j as int, a));
                    }
                    a
                } else {
                    let src = &feed[j].1;
                    proof {
                        use_type_invariant(src);
                        src.lemma_wf();
                    }
                    let dims = src.shape().duplicate();
                    let name = feed[j].0.clone();
                    let mut slot = self.tensors.remove(s);
                    let r = match &mut slot {
                        Some(t) => t.reset_shape(&dims),
                        None => Ok(()),
                    };
                    self.tensors.insert(s, slot);
                    proof {
                        assert(self.tensors@ =~= before.slots().update(s as int, slot));
                    }
                    match r {
                        Ok(()) => {
                            self.job = Job::Inferring {
                                feed,
                                index: j,
                                slot: s,
                                stage: Stage::InputShape,
                            };
                            let a = Action::SetInputShape(name, dims);
                            proof {
                                assert(feed_at_post(before, *self, feed@, j as int, a));
                            }
                            a
                        },
                        Err(e) => {
                            self.job = Job::Idle;
                            let a = Action::Done(Err(e));
                            proof {
                                assert(self.tensors@ =~= before.slots());
                                assert(feed_at_post(before, *self, feed@, j as int, a));
                            }
                            a
                        },
                    }
                }
            },
        }
    }

    /// Starts an inference step: each fed tensor whose name has an allocated
    /// tensor is copied into it, after reshaping that tensor (and setting its
    /// input shape anew) where the shapes differ; names without one are
    /// skipped; then the context is enqueued. Fails before any native call
    /// where the engine is not activated.
    pub fn inference(&mut self, feed_dict: Vec<(String, Tensor)>) -> (a: Action)
        requires
            old(self).wf(),
        ensures
            final(self).wf(),
            final(self).io_tensors() == old(self).io_tensors(),
            final(self).context() == old(self).context(),
            old(self).context() is None ==> ends_with(
                *old(self),
                *final(self),
                a,
                Err(TRTError::ExecutionContextNotInitialized),
            ),
            old(self).context() is Some ==> feed_entry_post(
                *old(self),
                *final(self),
                feed_dict@,
                0,
                a,
            ),
    {
        self.job = Job::Idle;
        if self.context.is_none() {
            return Action::Done(Err(TRTError::ExecutionContextNotInitialized));
        }
        self.feed_entry(feed_dict, 0)
    }

    /// Takes in the outcome of the native call the engine waited for, and
    /// hands out the next one, or the end of the step.
    pub fn advance(&mut self, outcome: Outcome) -> (a: Action)
        requires
            old(self).wf(),
            job_expects(old(self).job(), outcome),
        ensures
            final(self).wf(),
            advance_post(*old(self), *final(self), outcome, a),
    {
        let ghost before = *self;
        let mut job = Job::Idle;
        std::mem::swap(&mut self.job, &mut job);
        proof {
            assert(job == before.job);
            assert(before.job_wf());
            assert(self.wf_base());
        }
        match job {
            // Not reached: `job_expects` rules out an idle engine.
            Job::Idle => Action::Done(Ok(())),
            Job::Allocating { shapes, index, stage } => {
                let i = index;
                proof {
                    assert(before.job() == Job::Allocating { shapes, index, stage });
                    assert(i < shapes.len());
                    assert(shape_views(shapes@)[i as int] == shapes@[i as int]@);
                }
                match stage {
                    Stage::InputShape => {
                        if matches!(outcome, Outcome::Accepted) {
                            let dims = shapes[i].duplicate();
                            match &mut self.context {
                                Some(c) => c.set_input_shape(i, &dims),
                                None => {},
                            }
                            let info = self.engine.get_io_tensor(i);
                            let name = info.name.clone();
                            let bytes = match Tensor::bytes_for(&shapes[i], info.dtype) {
                                Ok(b) => b,
                                Err(_) => 0,
                            };
                            self.job = Job::Allocating { shapes, index: i, stage: Stage::Memory };
                            Action::Allocate(name, bytes)
                        } else {
                            Action::Done(Err(TRTError::ShapeError(shapes[i].duplicate().0)))
                        }
                    },
                    Stage::Memory => match outcome {
                        Outcome::Allocated(p) => {
                            let dtype = self.engine.get_io_tensor(i).dtype;
                            match Tensor::from_raw_ptr(p, &shapes[i], dtype) {
                                Ok(t) => {
                                    self.tensors.set(i, Some(t));
                                },
                                Err(_) => {},
                            }
                            let name = self.engine.get_io_tensor(i).name.clone();
                            self.job = Job::Allocating { shapes, index: i, stage: Stage::Address };
                            Action::SetTensorAddress(name, p)
                        },
                        Outcome::Failed(c) => Action::Done(Err(TRTError::CudaError(c))),
                        // Not reached: ruled out by `job_expects`.
                        _ => Action::Done(Ok(())),
                    },
                    Stage::Address => {
                        if matches!(outcome, Outcome::Accepted) {
                            let p = match &self.tensors[i] {
                                Some(t) => t.get_raw_ptr(),
                                None => 0,
                            };
                            match &mut self.context {
                                Some(c) => c.set_tensor_address(i, p),
                                None => {},
                            }
                            self.alloc_entry(shapes, i + 1)
                        } else {
                            Action::Done(Err(TRTError::InvalidAddress))
                        }
                    },
                    // Not reached: an allocation step waits for no other call.
                    _ => Action::Done(Ok(())),
                }
            },
            Job::Inferring { feed, index, slot, stage } => {
                proof {
                    assert(before.job() == Job::Inferring { feed, index, slot, stage });
                    assert(index <= feed.len());
                }
                match stage {
                    Stage::InputShape => {
                        if matches!(outcome, Outcome::Accepted) {
                            let dims = feed[index].1.shape().duplicate();
                            match &mut self.context {
                                Some(c) => c.set_input_shape(slot, &dims),
                                None => {},
                            }
                            self.copy_entry(feed, index, slot)
                        } else {
                            let dims = feed[index].1.shape().duplicate();
                            Action::Done(Err(TRTError::ShapeError(dims.0)))
                        }
                    },
                    Stage::Copy => match outcome {
                        Outcome::Accepted => self.feed_entry(feed, index + 1),
                        Outcome::Failed(c) => Action::Done(Err(TRTError::CudaError(c))),
                        // Not reached: ruled out by `job_expects`.
                        _ => Action::Done(Ok(())),
                    },
                    Stage::Enqueue => {
                        if matches!(outcome, Outcome::Accepted) {
                            Action::Done(Ok(()))
                        } else {
                            Action::Done(Err(TRTError::EnqueueError))
                        }
                    },
                    // Not reached: an inference step waits for no other call.
                    _ => Action::Done(Ok(())),
                }
            },
        }
    }

    /// The input shape the execution context has bound to the named tensor.
    pub fn get_bound_input_shape(&self, name: &String) -> (r: Option<&Shape>)
        requires
            self.wf(),
        ensures
            match (self.context(), index_of(self.io_tensors(), name@)) {
                (Some(c), Some(i)) => match c.bound_shape(i) {
                    Some(d) => r matches Some(s) && s@ == d,
                    None => r is None,
                },
                _ => r is None,
            },
    {
        match (&self.context, self.engine.find_tensor(name)) {
            (Some(c), Some(i)) => c.get_tensor_shape(i),
            _ => None,
        }
    }

    /// The device address the execution context has bound to the named
    /// tensor.
    pub fn get_bound_address(&self, name: &String) -> (r: Option<usize>)
        requires
            self.wf(),
        ensures
            r == match (self.context(), index_of(self.io_tensors(), name@)) {
                (Some(c), Some(i)) => c.bound_address(i),
                _ => None,
            },
    {
        match (&self.context, self.engine.find_tensor(name)) {
            (Some(c), Some(i)) => c.get_tensor_address(i),
            _ => None,
        }
    }
}

} // verus!
