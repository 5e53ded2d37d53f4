//! Temporary device buffers around a search or an operation.
//!
//! MIOpen finds the algorithms for a convolution by running them, and for
//! that it wants device buffers for every tensor and a workspace.  cuDNN's
//! callers supply none of these when they ask for algorithms.  So the bridge
//! sizes and allocates them itself, runs the operation, and frees them again.
//!
//! [`Negotiation`] decides each step of that.  Whoever drives it performs
//! the request it hands out and answers with what happened.  It never
//! finishes while a buffer is still allocated, whichever step failed.

use crate::status::{call, recorded, to_cudnn_spec, CudnnStatus, LastError, MiopenStatus};
use vstd::prelude::*;

verus! {

/// What the negotiation asks for next.
#[derive(Clone, Copy, Debug, PartialEq, Eq, Structural)]
pub enum Request {
    /// Ask MIOpen how many bytes the tensor with this number takes.
    TensorBytes(usize),
    /// Ask MIOpen how much workspace the operation needs.
    WorkspaceBytes,
    /// Allocate this many bytes on the device.
    Allocate(usize),
    /// Run the operation on the buffers that were allocated.
    Run,
    /// Free the buffer at this address.
    Free(usize),
    /// Nothing is left to do: report this status.
    Return(CudnnStatus),
}

/// What happened to a request.
#[derive(Clone, Copy, Debug, PartialEq, Eq, Structural)]
pub enum Response {
    /// MIOpen answered a question about a size.
    Bytes { result: MiopenStatus, bytes: usize },
    /// The device gave a buffer at this address.
    Allocated(usize),
    /// The device gave no buffer.
    AllocationFailed,
    /// The operation ran, with this result.
    Ran(MiopenStatus),
    /// The buffer was freed.
    Freed,
}

/// Where a negotiation stands.
#[derive(Clone, Copy, Debug, PartialEq, Eq, Structural)]
pub enum Stage {
    Sizing,
    Allocating,
    Running,
    Releasing,
    Finished,
}

/// A negotiation in progress.
pub struct Negotiation {
    tensors: usize,
    memory_limit: Option<usize>,
    stage: Stage,
    size: usize,
    buffers: Vec<usize>,
    status: CudnnStatus,
}

/// The mathematical content of a [`Negotiation`].
pub struct State {
    /// How many tensors get a buffer before the workspace does.
    pub tensors: nat,
    /// The most that the workspace may take, if the caller set a limit.
    pub memory_limit: Option<usize>,
    pub stage: Stage,
    /// The size of the buffer asked for last.
    pub size: usize,
    /// The buffers that are allocated and not yet freed, oldest first.
    pub buffers: Seq<usize>,
    /// The status to report in the end, once it is known.
    pub status: CudnnStatus,
}

impl View for Negotiation {
    type V = State;

    closed spec fn view(&self) -> State {
        State {
            tensors: self.tensors as nat,
            memory_limit: self.memory_limit,
            stage: self.stage,
            size: self.size,
            buffers: self.buffers@,
            status: self.status,
        }
    }
}

impl State {
    /// The states that a negotiation can be in.
    pub open spec fn wf(self) -> bool {
        &&& self.tensors < usize::MAX
        &&& match self.stage {
            Stage::Sizing | Stage::Allocating => self.buffers.len() <= self.tensors,
            Stage::Running => self.buffers.len() == self.tensors + 1,
            Stage::Releasing => 0 < self.buffers.len() <= self.tensors + 1,
            Stage::Finished => self.buffers.len() == 0,
        }
    }

    /// The request that is waiting for its response in this state.
    pub open spec fn pending(self) -> Request {
        match self.stage {
            Stage::Sizing => if self.buffers.len() < self.tensors {
                Request::TensorBytes(self.buffers.len() as usize)
            } else {
                Request::WorkspaceBytes
            },
            Stage::Allocating => Request::Allocate(self.size),
            Stage::Running => Request::Run,
            Stage::Releasing => Request::Free(self.buffers[0]),
            Stage::Finished => Request::Return(self.status),
        }
    }

    /// The responses that answer the pending request.
    pub open spec fn accepts(self, response: Response) -> bool {
        match self.stage {
            Stage::Sizing => response matches Response::Bytes { result, .. } && result
                != MiopenStatus::Unrecognized,
            Stage::Allocating => response is Allocated || response is AllocationFailed,
            Stage::Running => response matches Response::Ran(result) && result
                != MiopenStatus::Unrecognized,
            Stage::Releasing => response is Freed,
            Stage::Finished => false,
        }
    }

    /// The state in which everything that is still allocated gets freed and
    /// `status` is reported afterwards.
    pub open spec fn release(self, status: CudnnStatus) -> State {
        State {
            stage: if self.buffers.len() == 0 {
                Stage::Finished
            } else {
                Stage::Releasing
            },
            status,
            ..self
        }
    }

    /// How many bytes are allocated for a buffer of which MIOpen said that
    /// it takes `bytes`: as many, except that the workspace keeps within the
    /// caller's limit.
    pub open spec fn granted(self, bytes: usize) -> usize {
        if self.buffers.len() == self.tensors && self.memory_limit is Some
            && self.memory_limit->0 < bytes {
            self.memory_limit->0
        } else {
            bytes
        }
    }

    /// The state after a response.
    ///
    /// Sizes are asked for and buffers allocated in turn, tensors first,
    /// the workspace last; then the operation runs.  The first failure ends
    /// that: a size that MIOpen could not tell is reported with MIOpen's
    /// result, a buffer that the device did not give as a failed device
    /// allocation.  Whether it came to running or not, every buffer is then
    /// freed, oldest first, before the status is reported.
    pub open spec fn step(self, response: Response) -> State {
        match response {
            Response::Bytes { result, bytes } => if result == MiopenStatus::Success {
                State { stage: Stage::Allocating, size: self.granted(bytes), ..self }
            } else {
                self.release(to_cudnn_spec(result))
            },
            Response::Allocated(address) => {
                let buffers = self.buffers.push(address);
                State {
                    stage: if buffers.len() == self.tensors + 1 {
                        Stage::Running
                    } else {
                        Stage::Sizing
                    },
                    buffers,
                    ..self
                }
            },
            Response::AllocationFailed => self.release(
                CudnnStatus::InternalErrorDeviceAllocationFailed,
            ),
            Response::Ran(result) => self.release(to_cudnn_spec(result)),
            Response::Freed => State { buffers: self.buffers.drop_first(), ..self }.release(
                self.status,
            ),
        }
    }

    /// A bound on the number of responses that the negotiation can still
    /// take before it reports its status.
    pub open spec fn steps_left(self) -> int {
        match self.stage {
            Stage::Sizing => 3 * (self.tensors + 1) - 2 * self.buffers.len() + 2,
            Stage::Allocating => 3 * (self.tensors + 1) - 2 * self.buffers.len() + 1,
            Stage::Running => self.tensors as int + 2,
            Stage::Releasing => self.buffers.len() as int,
            Stage::Finished => 0,
        }
    }

    /// The state in which a negotiation begins.
    pub open spec fn start(tensors: nat, memory_limit: Option<usize>) -> State {
        State {
            tensors,
            memory_limit,
            stage: Stage::Sizing,
            size: 0,
            buffers: Seq::empty(),
            status: CudnnStatus::Success,
        }
    }
}

/// The result of MIOpen that a response carries, if it carries one.
pub open spec fn reported(response: Response) -> MiopenStatus {
    match response {
        Response::Bytes { result, .. } => result,
        Response::Ran(result) => result,
        _ => MiopenStatus::Success,
    }
}

impl Negotiation {
    /// The request that is waiting for its response.
    pub fn pending(&self) -> (request: Request)
        requires
            self@.wf(),
        ensures
            request == self@.pending(),
    {
        match self.stage {
            Stage::Sizing => {
                if self.buffers.len() < self.tensors {
                    Request::TensorBytes(self.buffers.len())
                } else {
                    Request::WorkspaceBytes
                }
            },
            Stage::Allocating => Request::Allocate(self.size),
            Stage::Running => Request::Run,
            Stage::Releasing => Request::Free(self.buffers[0]),
            Stage::Finished => Request::Return(self.status),
        }
    }

    /// Begins a negotiation for an operation on `tensors` tensors and a
    /// workspace.
    pub fn new(tensors: usize, memory_limit: Option<usize>) -> (negotiation: Negotiation)
        requires
            tensors < usize::MAX,
        ensures
            negotiation@ == State::start(tensors as nat, memory_limit),
            negotiation@.wf(),
    {
        Negotiation {
            tensors,
            memory_limit,
            stage: Stage::Sizing,
            size: 0,
            buffers: Vec::new(),
            status: CudnnStatus::Success,
        }
    }

    /// Whether a response answers the pending request.
    pub fn accepts(&self, response: Response) -> (ok: bool)
        ensures
            ok == self@.accepts(response),
    {
        match self.stage {
            Stage::Sizing => match response {
                Response::Bytes { result, .. } => !matches!(result, MiopenStatus::Unrecognized),
                _ => false,
            },
            Stage::Allocating => matches!(
                response,
                Response::Allocated(_) | Response::AllocationFailed
            ),
            Stage::Running => match response {
                Response::Ran(result) => !matches!(result, MiopenStatus::Unrecognized),
                _ => false,
            },
            Stage::Releasing => matches!(response, Response::Freed),
            Stage::Finished => false,
        }
    }

    /// The buffers that are allocated, oldest first.  While the operation
    /// runs these are the buffers of the tensors, in their order, and then
    /// the workspace.
    pub fn buffers(&self) -> (buffers: &Vec<usize>)
        ensures
            buffers@ == self@.buffers,
    {
        &self.buffers
    }

    /// The size of the buffer asked for last.  While the operation runs
    /// this is the size of the workspace.
    pub fn workspace_size(&self) -> (size: usize)
        ensures
            size == self@.size,
    {
        self.size
    }

    fn release(&mut self, status: CudnnStatus)
        ensures
            final(self)@ == old(self)@.release(status),
    {
        self.status = status;
        if self.buffers.len() == 0 {
            self.stage = Stage::Finished;
        } else {
            self.stage = Stage::Releasing;
        }
    }

    /// Takes the response to the pending request and says what to do next.
    /// Results of MIOpen are remembered like those of any other call.
    pub fn advance(&mut self, last_error: &mut LastError, response: Response) -> (request: Request)
        requires
            old(self)@.wf(),
            old(self)@.accepts(response),
        ensures
            final(self)@ == old(self)@.step(response),
            final(self)@.wf(),
            request == final(self)@.pending(),
            *final(last_error) == recorded(*old(last_error), reported(response)),
    {
        match response {
            Response::Bytes { result, bytes } => {
                let status = call(last_error, result);
                if status == CudnnStatus::Success {
                    let mut size = bytes;
                    if self.buffers.len() == self.tensors {
                        if let Some(limit) = self.memory_limit {
                            if limit < bytes {
                                size = limit;
                            }
                        }
                    }
                    self.size = size;
                    self.stage = Stage::Allocating;
                } else {
                    self.release(status);
                }
            },
            Response::Allocated(address) => {
                self.buffers.push(address);
                if self.buffers.len() == self.tensors + 1 {
                    self.stage = Stage::Running;
                } else {
                    self.stage = Stage::Sizing;
                }
            },
            Response::AllocationFailed => {
                self.release(CudnnStatus::InternalErrorDeviceAllocationFailed);
            },
            Response::Ran(result) => {
                let status = call(last_error, result);
                self.release(status);
            },
            Response::Freed => {
                self.buffers.remove(0);
                let status = self.status;
                self.release(status);
            },
        }
        self.pending()
    }
}

/// The state after a number of buffers have been freed in a row.
pub open spec fn after_freed(state: State, count: nat) -> State
    decreases count,
{
    if count == 0 {
        state
    } else {
        after_freed(state.step(Response::Freed), (count - 1) as nat)
    }
}

/// Every step keeps account of the buffers.  A buffer that the device gave
/// joins those that are allocated; a buffer leaves them only when it has
/// been freed on request; nothing else changes them.  The negotiation
/// reports a status only when none is left, and a buffer that the device
/// did not give is reported as a failed device allocation.
pub proof fn lemma_step_keeps_account(state: State, response: Response)
    requires
        state.wf(),
        state.accepts(response),
    ensures
        state.step(response).wf(),
        state.step(response).buffers == match response {
            Response::Allocated(address) => state.buffers.push(address),
            Response::Freed => state.buffers.drop_first(),
            _ => state.buffers,
        },
        response is Freed ==> state.pending() == Request::Free(state.buffers[0]),
        state.step(response).pending() is Return <==> state.step(response).stage
            == Stage::Finished,
        state.step(response).stage == Stage::Finished ==> state.step(response).buffers.len() == 0,
        response is AllocationFailed ==> state.step(response).status
            == CudnnStatus::InternalErrorDeviceAllocationFailed,
        response is Freed ==> state.step(response).status == state.status,
        response is Ran ==> state.step(response).status == to_cudnn_spec(reported(response)),
{
}

/// Every negotiation comes to an end: each response brings it closer to
/// reporting its status, and one that begins on `tensors` tensors takes at
/// most three responses for each buffer and two more.
pub proof fn lemma_every_step_brings_the_end_closer(state: State, response: Response)
    requires
        state.wf(),
        state.accepts(response),
    ensures
        0 <= state.step(response).steps_left() < state.steps_left(),
        state.steps_left() <= State::start(state.tensors, state.memory_limit).steps_left(),
        State::start(state.tensors, state.memory_limit).steps_left() == 3 * (state.tensors + 1)
            + 2,
        state.step(response).steps_left() == 0 <==> state.step(response).pending() is Return,
{
}

/// Once buffers are being freed, freeing goes on until none is left: the
/// requests name the buffers oldest first, and the status that was settled
/// before is reported after the last of them.
pub proof fn lemma_release_runs_to_completion(state: State, freed: nat)
    requires
        state.wf(),
        state.stage == Stage::Releasing,
        freed <= state.buffers.len(),
    ensures
        after_freed(state, freed).wf(),
        after_freed(state, freed).buffers == state.buffers.skip(freed as int),
        after_freed(state, freed).status == state.status,
        after_freed(state, freed).pending() == if freed < state.buffers.len() {
            Request::Free(state.buffers[freed as int])
        } else {
            Request::Return(state.status)
        },
    decreases freed,
{
    if freed == 0 {
        assert(state.buffers.skip(0) =~= state.buffers);
    } else {
        let next = state.step(Response::Freed);
        assert(next.buffers =~= state.buffers.skip(1));
        if next.stage == Stage::Releasing {
            lemma_release_runs_to_completion(next, (freed - 1) as nat);
            assert(next.buffers.skip(freed - 1) =~= state.buffers.skip(freed as int));
        } else {
            assert(next.buffers.skip(0) =~= next.buffers);
            assert(after_freed(next, 0) == next);
        }
    }
}

/// Whatever the operation came to, the buffers it ran on are freed before
/// its result is reported: all of them, oldest first.
pub proof fn lemma_run_is_followed_by_release(state: State, result: MiopenStatus, freed: nat)
    requires
        state.wf(),
        state.stage == Stage::Running,
        result != MiopenStatus::Unrecognized,
        freed <= state.buffers.len(),
    ensures
        ({
            let ran = state.step(Response::Ran(result));
            &&& ran.buffers == state.buffers
            &&& state.buffers.len() == state.tensors + 1
            &&& after_freed(ran, freed).pending() == if freed < state.buffers.len() {
                Request::Free(state.buffers[freed as int])
            } else {
                Request::Return(to_cudnn_spec(result))
            }
        }),
{
    lemma_release_runs_to_completion(state.step(Response::Ran(result)), freed);
}

/// No buffer is lost when an allocation fails.  If the device gives the
/// first of four buffers and refuses the second, the first is freed, and
/// only then is the failed device allocation reported.
pub proof fn lemma_failed_allocation_frees_what_was_allocated(
    memory_limit: Option<usize>,
    first_bytes: usize,
    first: usize,
    second_bytes: usize,
)
    ensures
        ({
            let begun = State::start(3, memory_limit);
            let sized = begun.step(
                Response::Bytes { result: MiopenStatus::Success, bytes: first_bytes },
            );
            let allocated = sized.step(Response::Allocated(first));
            let sized_again = allocated.step(
                Response::Bytes { result: MiopenStatus::Success, bytes: second_bytes },
            );
            let failed = sized_again.step(Response::AllocationFailed);
            let freed = failed.step(Response::Freed);
            &&& begun.pending() == Request::TensorBytes(0)
            &&& sized.pending() == Request::Allocate(first_bytes)
            &&& allocated.pending() == Request::TensorBytes(1)
            &&& sized_again.pending() == Request::Allocate(second_bytes)
            &&& failed.pending() == Request::Free(first)
            &&& freed.pending() == Request::Return(CudnnStatus::InternalErrorDeviceAllocationFailed)
            &&& freed.buffers.len() == 0
        }),
{
    let begun = State::start(3, memory_limit);
    let sized = begun.step(Response::Bytes { result: MiopenStatus::Success, bytes: first_bytes });
    let allocated = sized.step(Response::Allocated(first));
    assert(allocated.buffers =~= seq![first]);
    let sized_again = allocated.step(
        Response::Bytes { result: MiopenStatus::Success, bytes: second_bytes },
    );
    let failed = sized_again.step(Response::AllocationFailed);
    let freed = failed.step(Response::Freed);
    assert(freed.buffers =~= Seq::<usize>::empty());
}

} // verus!
