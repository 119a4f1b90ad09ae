//! The dispatch plan of a two-buffer elementwise kernel: what is staged for
//! the device, where each buffer is bound, and how many threads run.

use crate::catalog::Kernel;
use vstd::prelude::*;

verus! {

/// The size in bytes of one tensor element on the device.
pub const ELEMENT_BYTES: u64 = 4;

/// A buffer staged for the device, and the argument slot it is bound to.
#[derive(Clone, Copy, Debug, PartialEq, Eq, Structural)]
pub struct Binding {
    /// The argument index of the kernel that receives the buffer.
    pub index: u64,
    /// The length of the buffer in bytes.
    pub length: u64,
    /// The offset into the buffer at which the kernel starts to read.
    pub offset: u64,
}

/// A three-dimensional thread count.
#[derive(Clone, Copy, Debug, PartialEq, Eq, Structural)]
pub struct Extent {
    pub width: u64,
    pub height: u64,
    pub depth: u64,
}

/// Everything a device needs to run one elementwise kernel over `size`
/// elements.
#[derive(Clone, Copy, Debug, PartialEq, Eq, Structural)]
pub struct TwoBufferPlan {
    /// The kernel whose pipeline is selected.
    pub kernel: Kernel,
    /// The element count, staged as one machine word.
    pub count: Binding,
    /// The input elements.
    pub input: Binding,
    /// The output elements; the device writes them, the host copies them back.
    pub output: Binding,
    /// The threads of the whole grid.
    pub grid: Extent,
    /// The threads of one threadgroup.
    pub threadgroup: Extent,
    /// The threadgroups that make up the grid.
    pub groups: Extent,
    /// How many elements are copied back from the output buffer.
    pub copy_back: usize,
}

/// Why no plan could be made.
#[derive(Clone, Copy, Debug, PartialEq, Eq, Structural)]
pub enum PlanError {
    /// The kernel does not follow the two-buffer protocol.
    NotTwoBuffer,
    /// The buffers would be longer than the device can address.
    TooLarge,
}

/// One action of the two-buffer protocol.
#[derive(Clone, Copy, Debug, PartialEq, Eq, Structural)]
pub enum Step {
    /// Make the pipeline of the plan's kernel.
    SelectPipeline,
    /// Stage the element count.
    StageCount,
    /// Stage the input elements.
    StageInput,
    /// Stage the output elements.
    StageOutput,
    /// Bind the three buffers to their argument indices.
    Bind,
    /// Submit the grid.
    Dispatch,
    /// Block until the device has finished.
    Wait,
    /// Copy the output buffer back to the caller.
    CopyBack,
}

impl Step {
    /// The place of this step in the protocol, counted from zero.
    pub open spec fn position(self) -> nat {
        match self {
            Step::SelectPipeline => 0,
            Step::StageCount => 1,
            Step::StageInput => 2,
            Step::StageOutput => 3,
            Step::Bind => 4,
            Step::Dispatch => 5,
            Step::Wait => 6,
            Step::CopyBack => 7,
        }
    }

    /// The step that follows this one, if any does.
    pub open spec fn next_spec(self) -> Option<Step> {
        match self {
            Step::SelectPipeline => Some(Step::StageCount),
            Step::StageCount => Some(Step::StageInput),
            Step::StageInput => Some(Step::StageOutput),
            Step::StageOutput => Some(Step::Bind),
            Step::Bind => Some(Step::Dispatch),
            Step::Dispatch => Some(Step::Wait),
            Step::Wait => Some(Step::CopyBack),
            Step::CopyBack => None,
        }
    }

    /// The step with which every dispatch begins.
    pub fn first() -> (r: Step)
        ensures
            r == Step::SelectPipeline,
            r.position() == 0,
    {
        Step::SelectPipeline
    }

    /// The step to take after this one; none after the copy back.
    pub fn next(self) -> (r: Option<Step>)
        ensures
            r == self.next_spec(),
            r matches Some(step) ==> step.position() == self.position() + 1,
            r is None <==> self == Step::CopyBack,
    {
        match self {
            Step::SelectPipeline => Some(Step::StageCount),
            Step::StageCount => Some(Step::StageInput),
            Step::StageInput => Some(Step::StageOutput),
            Step::StageOutput => Some(Step::Bind),
            Step::Bind => Some(Step::Dispatch),
            Step::Dispatch => Some(Step::Wait),
            Step::Wait => Some(Step::CopyBack),
            Step::CopyBack => None,
        }
    }
}

/// The protocol takes every step once: a step's place tells the step.
pub proof fn steps_in_one_order(a: Step, b: Step)
    ensures
        a.position() == b.position() ==> a == b,
        a.position() < 8,
        a.next_spec() == Some(b) <==> b.position() == a.position() + 1,
{
}

/// A line of `width` threads.
pub open spec fn line(width: u64) -> Extent {
    Extent { width, height: 1, depth: 1 }
}

/// The plan for `size` elements, where their bytes can be counted in 64 bits.
pub open spec fn two_buffer_plan(kernel: Kernel, size: usize) -> TwoBufferPlan {
    TwoBufferPlan {
        kernel,
        count: Binding { index: 0, length: (usize::BITS / 8) as u64, offset: 0 },
        input: Binding { index: 1, length: (size * ELEMENT_BYTES) as u64, offset: 0 },
        output: Binding { index: 2, length: (size * ELEMENT_BYTES) as u64, offset: 0 },
        grid: line(size as u64),
        threadgroup: line(size as u64),
        groups: line(if size == 0 {
            0u64
        } else {
            1u64
        }),
        copy_back: size,
    }
}

/// Plans the dispatch of `kernel` over `size` elements.
///
/// The arguments are bound in the order count, input, output; the two
/// element buffers have the same length; one thread runs per element, all
/// in one threadgroup; and all `size` elements are copied back.
/// There is no plan for a kernel of another protocol, nor for buffers whose
/// length in bytes does not fit in 64 bits.
pub fn plan_two_buffer(kernel: Kernel, size: usize) -> (r: Result<TwoBufferPlan, PlanError>)
    ensures
        r == (if !kernel.is_two_buffer_spec() {
            Err::<TwoBufferPlan, PlanError>(PlanError::NotTwoBuffer)
        } else if size * ELEMENT_BYTES > u64::MAX {
            Err(PlanError::TooLarge)
        } else {
            Ok(two_buffer_plan(kernel, size))
        }),
{
    if !kernel.is_two_buffer() {
        return Err(PlanError::NotTwoBuffer);
    }
    let width: u64 = size as u64;
    match width.checked_mul(ELEMENT_BYTES) {
        None => Err(PlanError::TooLarge),
        Some(length) => Ok(
            TwoBufferPlan {
                kernel,
                count: Binding { index: 0, length: (usize::BITS / 8) as u64, offset: 0 },
                input: Binding { index: 1, length, offset: 0 },
                output: Binding { index: 2, length, offset: 0 },
                grid: Extent { width, height: 1, depth: 1 },
                threadgroup: Extent { width, height: 1, depth: 1 },
                groups: Extent { width: if size == 0 {
                    0
                } else {
                    1
                }, height: 1, depth: 1 },
                copy_back: size,
            },
        ),
    }
}

/// The threadgroups of a plan cover its grid exactly, and its two element
/// buffers hold what is copied back.
pub proof fn plan_is_consistent(kernel: Kernel, size: usize)
    requires
        size * ELEMENT_BYTES <= u64::MAX,
    ensures
        ({
            let plan = two_buffer_plan(kernel, size);
            &&& plan.groups.width * plan.threadgroup.width == plan.grid.width
            &&& plan.grid.width == plan.copy_back
            &&& plan.input.length == plan.copy_back * ELEMENT_BYTES
            &&& plan.output.length == plan.input.length
        }),
{
    let plan = two_buffer_plan(kernel, size);
    let groups = plan.groups.width;
    let threads = plan.threadgroup.width;
    assert(groups == (if size == 0 {
        0u64
    } else {
        1u64
    }));
    assert(groups * threads == size) by (nonlinear_arith)
        requires
            threads == size,
            size == 0 ==> groups == 0,
            size != 0 ==> groups == 1,
    ;
}

} // verus!
