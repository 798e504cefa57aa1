//! The one-shot dispatch: upload, bind, record, submit, wait, read back,
//! and the check of what came back.

use std::sync::Arc;
use vstd::arithmetic::power2::lemma2_to64;
use vstd::arithmetic::power2::lemma2_to64_rest;
use vstd::prelude::*;
use vulkano::command_buffer::AutoCommandBuffer;
use vulkano::descriptor::descriptor_set::UnsafeDescriptorSetLayout;
use vulkano::device::Device;
use vulkano::device::Queue;
use crate::binary64::denotes;
use crate::binary64::holds_index_doubles;
use crate::binary64::index_doubles;
use crate::binary64::lemma_double_bits_denotes;
use crate::binary64::lemma_double_bits_fields;
use crate::driver::bind_buffers;
use crate::driver::buffers_of_bound;
use crate::driver::bytes_of;
use crate::driver::filled_patterns;
use crate::driver::filled_words;
use crate::driver::groups_of;
use crate::driver::handle_of_patterns;
use crate::driver::handle_of_words;
use crate::driver::home_of_bound;
use crate::driver::home_of_commands;
use crate::driver::home_of_device;
use crate::driver::home_of_layout;
use crate::driver::home_of_patterns;
use crate::driver::home_of_pipeline;
use crate::driver::home_of_queue;
use crate::driver::home_of_words;
use crate::driver::layout_is_on;
use crate::driver::pipeline_is_on;
use crate::driver::queue_is_on;
use crate::driver::reaches_compute;
use crate::driver::read_patterns;
use crate::driver::read_words;
use crate::driver::record_dispatch;
use crate::driver::recorded_grids;
use crate::driver::set_layout;
use crate::driver::slot_at;
use crate::driver::slots_of_bound;
use crate::driver::slots_of_layout;
use crate::driver::storage_range;
use crate::driver::storage_range_for_patterns;
use crate::driver::storage_range_for_words;
use crate::driver::storage_range_of;
use crate::driver::submit;
use crate::driver::takes_storage;
use crate::driver::upload_patterns;
use crate::driver::upload_words;
use crate::driver::wait_for;
use crate::driver::BoundBuffers;
use crate::driver::KernelPipeline;
use crate::driver::PatternBuffer;
use crate::driver::Submitted;
use crate::driver::WordBuffer;
use crate::grid::grid_for;
use crate::grid::grid_of;
use crate::stage::DispatchError;
use crate::stage::Stage;

verus! {

/// The binding group that holds both buffers.
pub const BINDING_GROUP: usize = 0;

/// The slot of the input buffer in its binding group.
pub const INPUT_SLOT: u32 = 0;

/// The slot of the output buffer in its binding group.
pub const OUTPUT_SLOT: u32 = 1;

/// What one slot of a binding group takes, where it takes a buffer.
#[derive(Clone, Copy, Debug, PartialEq, Eq)]
pub struct BufferSlot {
    /// A storage buffer, as against a uniform buffer.
    pub storage: bool,
    /// Whether the buffer is bound at an offset that is given with each
    /// use; `None` where the description leaves it open.
    pub dynamic: Option<bool>,
    /// The kernel only reads it.
    pub read_only: bool,
    /// The number of buffers that the slot takes.
    pub array_count: u32,
    /// The slot is reached from the compute stage.
    pub compute: bool,
}

/// What each slot of the kernel takes: one storage buffer at a fixed
/// offset, which the kernel writes, reached from the compute stage.
pub open spec fn kernel_slot() -> BufferSlot {
    BufferSlot {
        storage: true,
        dynamic: Some(false),
        read_only: false,
        array_count: 1,
        compute: true,
    }
}

/// The slots of the kernel's one binding group: the input buffer in slot
/// 0 and the output buffer in slot 1, each as `kernel_slot` describes it.
pub open spec fn binding_contract() -> Seq<BufferSlot> {
    seq![kernel_slot(), kernel_slot()]
}

/// A layout serves the kernel: its slot for the input and its slot for the
/// output each take a storage buffer and are reached from the compute
/// stage.
pub open spec fn serves_kernel(slots: Seq<Option<BufferSlot>>) -> bool {
    &&& takes_storage(slots, INPUT_SLOT as int)
    &&& takes_storage(slots, OUTPUT_SLOT as int)
    &&& reaches_compute(slots, INPUT_SLOT as int)
    &&& reaches_compute(slots, OUTPUT_SLOT as int)
}

/// Law: a layout that describes the kernel's binding contract serves the
/// kernel.
pub proof fn lemma_contract_serves_kernel()
    ensures
        serves_kernel(binding_contract().map_values(|slot: BufferSlot| Some(slot))),
{
}

/// The kernel's binding contract, group by group and slot by slot: what a
/// pipeline layout has to describe for the dispatch to bind its buffers.
/// There is one group, and it holds the slots of the contract.
pub fn kernel_bindings() -> (groups: Vec<Vec<BufferSlot>>)
    ensures
        groups.len() == BINDING_GROUP + 1,
        groups[BINDING_GROUP as int]@ == binding_contract(),
        groups[BINDING_GROUP as int].len() == OUTPUT_SLOT + 1,
        INPUT_SLOT < OUTPUT_SLOT,
{
    let slot = BufferSlot {
        storage: true,
        dynamic: Some(false),
        read_only: false,
        array_count: 1,
        compute: true,
    };
    let mut slots: Vec<BufferSlot> = Vec::new();
    slots.push(slot);
    slots.push(slot);
    assert(slots@ =~= binding_contract());
    let mut groups: Vec<Vec<BufferSlot>> = Vec::new();
    groups.push(slots);
    groups
}

/// `out` is what a dispatch over `data_in` returns: as many doubles as the
/// input has elements, the double at each position being that position. The
/// elements of the input have no part in it.
pub open spec fn is_result_of(data_in: Seq<u32>, out: Seq<u64>) -> bool {
    out == index_doubles(data_in.len())
}

/// Law: a result has the length of its input, and its element at each
/// position is the pattern of the double whose value is exactly that
/// position. It holds of the empty input too, whose result is empty.
pub proof fn lemma_result_is_index_sequence(data_in: Seq<u32>, out: Seq<u64>)
    requires
        is_result_of(data_in, out),
        data_in.len() <= u32::MAX,
    ensures
        out.len() == data_in.len(),
        forall|i: int| 0 <= i < out.len() ==> denotes(#[trigger] out[i] as nat, i as nat),
{
    assert forall|i: int| 0 <= i < out.len() implies denotes(
        #[trigger] out[i] as nat,
        i as nat,
    ) by {
        lemma2_to64();
        lemma2_to64_rest();
        lemma_double_bits_denotes(i as nat);
        if i > 0 {
            lemma_double_bits_fields(i as nat);
        }
    }
}

/// Law: the result is decided by the length of the input alone. Two
/// dispatches over inputs of one length return the same sequence, whatever
/// the inputs hold and whatever ran before.
pub proof fn lemma_result_depends_on_length_only(
    first_in: Seq<u32>,
    second_in: Seq<u32>,
    first_out: Seq<u64>,
    second_out: Seq<u64>,
)
    requires
        is_result_of(first_in, first_out),
        is_result_of(second_in, second_out),
        first_in.len() == second_in.len(),
    ensures
        first_out == second_out,
{
}

/// `n` doubles, each positive zero.
pub open spec fn zero_patterns(n: nat) -> Seq<u64> {
    Seq::new(n, |i: int| 0u64)
}

/// The output buffer's initial content: `n` doubles, each positive zero.
pub fn zeroed_patterns(n: u32) -> (zeros: Vec<u64>)
    ensures
        zeros@ == zero_patterns(n as nat),
        zeros.len() == n,
        forall|i: int| 0 <= i < n ==> zeros[i] == 0,
{
    let mut zeros: Vec<u64> = Vec::new();
    let mut i: u32 = 0;
    while i < n
        invariant
            i <= n,
            zeros.len() == i,
            forall|k: int| 0 <= k < i ==> zeros[k] == 0,
        decreases n - i,
    {
        zeros.push(0);
        i = i + 1;
    }
    assert(zeros@ =~= zero_patterns(n as nat));
    zeros
}

/// Holds what was read from the output buffer against the kernel's
/// contract: element `i` is the double `i`, for each of the `n` elements and
/// no others. What agrees is handed on unchanged; what does not is a failure
/// of the result check.
pub fn check_readback(n: u32, output: Vec<u64>) -> (checked: Result<Vec<u64>, DispatchError>)
    ensures
        output@ == index_doubles(n as nat) <==> checked is Ok,
        match checked {
            Ok(out) => out@ == output@,
            Err(e) => e.stage == Stage::ResultCheck && e.detail@.len() == 0,
        },
{
    if holds_index_doubles(&output, n) {
        Ok(output)
    } else {
        Err(DispatchError::new(Stage::ResultCheck, String::new()))
    }
}

/// The account that the input check gives of an input with more elements
/// than a 32-bit index reaches.
pub open spec fn too_long_text() -> Seq<char> {
    "more elements than a 32-bit index reaches"@
}

/// What an operation of the dispatch returns for what the driver answered:
/// what the driver made, where it made it, and otherwise a failure of that
/// operation with the driver's account.
pub fn outcome_at<T>(stage: Stage, made: Result<T, String>) -> (outcome: Result<T, DispatchError>)
    ensures
        match made {
            Ok(value) => outcome matches Ok(same) && same == value,
            Err(account) => outcome matches Err(e) && e.stage == stage && e.detail@ == account@,
        },
{
    match made {
        Ok(value) => Ok(value),
        Err(account) => Err(DispatchError::new(stage, account)),
    }
}

/// The input check on the length: `len` elements are within reach of a
/// 32-bit index exactly where there are at most `u32::MAX` of them.
pub fn check_length(len: usize) -> (checked: Result<u32, DispatchError>)
    ensures
        match checked {
            Ok(n) => n == len,
            Err(e) => len > u32::MAX && e.stage == Stage::InputCheck && e.detail@
                == too_long_text(),
        },
{
    if len > u32::MAX as usize {
        Err(
            DispatchError::new(
                Stage::InputCheck,
                "more elements than a 32-bit index reaches".to_owned(),
            ),
        )
    } else {
        Ok(len as u32)
    }
}

/// The input check on the devices: it passes exactly where the driver finds
/// the queue and the pipeline on `device`.
pub fn check_devices(
    device: &Arc<Device>,
    queue: &Arc<Queue>,
    pipeline: &Arc<KernelPipeline>,
) -> (checked: Result<(), DispatchError>)
    ensures
        checked is Ok <==> home_of_queue(**queue) == home_of_device(**device) && home_of_pipeline(
            **pipeline,
        ) == home_of_device(**device),
        checked matches Err(e) ==> e.stage == Stage::InputCheck && e.detail@ != too_long_text(),
{
    proof {
        reveal_strlit("more elements than a 32-bit index reaches");
        reveal_strlit("queue of another device");
        reveal_strlit("pipeline of another device");
        assert("more elements than a 32-bit index reaches"@.len() == 41);
        assert("queue of another device"@.len() == 23);
        assert("pipeline of another device"@.len() == 26);
    }
    if !queue_is_on(queue, device) {
        return Err(DispatchError::new(Stage::InputCheck, "queue of another device".to_owned()));
    }
    if !pipeline_is_on(pipeline, device) {
        return Err(DispatchError::new(Stage::InputCheck, "pipeline of another device".to_owned()));
    }
    Ok(())
}

/// The input check: the length first, then the devices. It passes exactly
/// where `len` is within reach of a 32-bit index and the driver finds the
/// queue and the pipeline on `device`; too long an input is refused before
/// the driver is asked anything.
pub fn check_input(
    len: usize,
    device: &Arc<Device>,
    queue: &Arc<Queue>,
    pipeline: &Arc<KernelPipeline>,
) -> (checked: Result<u32, DispatchError>)
    ensures
        (checked matches Err(e) && e.detail@ == too_long_text()) <==> len > u32::MAX,
        checked is Ok <==> len <= u32::MAX && home_of_queue(**queue) == home_of_device(**device)
            && home_of_pipeline(**pipeline) == home_of_device(**device),
        match checked {
            Ok(n) => n == len,
            Err(e) => e.stage == Stage::InputCheck,
        },
{
    let n: u32 = match check_length(len) {
        Ok(n) => n,
        Err(e) => {
            return Err(e);
        },
    };
    match check_devices(device, queue, pipeline) {
        Ok(()) => Ok(n),
        Err(e) => Err(e),
    }
}

/// Buffer creation, for the input: a buffer on `device` that is filled with
/// the elements of `data_in`, in order.
pub fn create_input_buffer(device: &Arc<Device>, data_in: Vec<u32>) -> (made: Result<
    Arc<WordBuffer>,
    DispatchError,
>)
    ensures
        match made {
            Ok(buffer) => home_of_words(*buffer) == home_of_device(**device)
                && storage_range_for_words(*buffer) == storage_range_of(**device) && filled_words(
                *buffer,
            ) == data_in@,
            Err(e) => e.stage == Stage::BufferCreation,
        },
{
    outcome_at(Stage::BufferCreation, upload_words(device, data_in))
}

/// Buffer creation, for the output: a buffer on `device` that is filled
/// with `n` doubles, each positive zero.
pub fn create_output_buffer(device: &Arc<Device>, n: u32) -> (made: Result<
    Arc<PatternBuffer>,
    DispatchError,
>)
    ensures
        match made {
            Ok(buffer) => home_of_patterns(*buffer) == home_of_device(**device)
                && storage_range_for_patterns(*buffer) == storage_range_of(**device)
                && filled_patterns(*buffer) == zero_patterns(n as nat),
            Err(e) => e.stage == Stage::BufferCreation,
        },
{
    outcome_at(Stage::BufferCreation, upload_patterns(device, zeroed_patterns(n)))
}

/// Whether a slot, as a layout describes it, takes a storage buffer and is
/// reached from the compute stage.
pub fn slot_serves(taken: Option<BufferSlot>) -> (serves: bool)
    ensures
        serves <==> (taken matches Some(slot) && slot.storage && slot.compute),
{
    match taken {
        Some(slot) => slot.storage && slot.compute,
        None => false,
    }
}

/// Layout lookup: the layout of the binding group that holds both buffers.
/// It fails where the pipeline has no such group, where the driver finds
/// the layout on another device than `device`, and where the layout does
/// not serve the kernel.
pub fn look_up_layout(pipeline: &Arc<KernelPipeline>, device: &Arc<Device>) -> (found: Result<
    Arc<UnsafeDescriptorSetLayout>,
    DispatchError,
>)
    ensures
        match found {
            Ok(layout) => home_of_layout(*layout) == home_of_device(**device) && groups_of(
                **pipeline,
            ) > BINDING_GROUP && serves_kernel(slots_of_layout(*layout)),
            Err(e) => e.stage == Stage::LayoutLookup,
        },
        groups_of(**pipeline) <= BINDING_GROUP ==> found is Err,
{
    let layout = match set_layout(pipeline, BINDING_GROUP) {
        Some(layout) => layout,
        None => {
            return Err(
                DispatchError::new(Stage::LayoutLookup, "no such binding group".to_owned()),
            );
        },
    };
    if !layout_is_on(&layout, device) {
        return Err(DispatchError::new(Stage::LayoutLookup, "layout of another device".to_owned()));
    }
    let input_serves = slot_serves(slot_at(&layout, INPUT_SLOT as usize));
    let output_serves = slot_serves(slot_at(&layout, OUTPUT_SLOT as usize));
    if input_serves && output_serves {
        Ok(layout)
    } else {
        Err(
            DispatchError::new(
                Stage::LayoutLookup,
                "slot that is no storage buffer of the compute stage".to_owned(),
            ),
        )
    }
}

/// Whether buffers of `n` elements, of four bytes each for the input and
/// of eight for the output, are both within a storage range of `range`
/// bytes.
pub fn within_storage_range(n: u32, range: u32) -> (within: bool)
    ensures
        within <==> bytes_of(n as nat, 4) <= range && bytes_of(n as nat, 8) <= range,
{
    if n == 0 {
        range >= 1
    } else {
        let bytes: u64 = n as u64 * 8;
        bytes <= range as u64
    }
}

/// Descriptor binding: the input buffer at its slot of the group and the
/// output buffer at its own. It fails, before the driver is asked to bind,
/// where a buffer is beyond the storage range of the device. The layout
/// serves the kernel, all three are on `device`, and both buffers were
/// filled with `n` elements.
pub(crate) fn bind_descriptors(
    device: &Arc<Device>,
    layout: &Arc<UnsafeDescriptorSetLayout>,
    input: &Arc<WordBuffer>,
    output: &Arc<PatternBuffer>,
    n: u32,
) -> (bound: Result<Arc<BoundBuffers>, DispatchError>)
    requires
        home_of_layout(**layout) == home_of_device(**device),
        home_of_words(**input) == home_of_device(**device),
        home_of_patterns(**output) == home_of_device(**device),
        storage_range_for_words(**input) == storage_range_of(**device),
        storage_range_for_patterns(**output) == storage_range_of(**device),
        serves_kernel(slots_of_layout(**layout)),
        filled_words(**input).len() == n,
        filled_patterns(**output).len() == n,
    ensures
        match bound {
            Ok(group) => home_of_bound(*group) == home_of_device(**device) && slots_of_bound(
                *group,
            ) == slots_of_layout(**layout) && buffers_of_bound(*group).len() == 2
                && buffers_of_bound(*group)[INPUT_SLOT as int] == handle_of_words(**input)
                && buffers_of_bound(*group)[OUTPUT_SLOT as int] == handle_of_patterns(**output),
            Err(e) => e.stage == Stage::DescriptorBinding,
        },
        !(bytes_of(n as nat, 4) <= storage_range_of(**device) && bytes_of(n as nat, 8)
            <= storage_range_of(**device)) ==> bound is Err,
{
    if within_storage_range(n, storage_range(device)) {
        outcome_at(Stage::DescriptorBinding, bind_buffers(layout, input, output))
    } else {
        Err(
            DispatchError::new(
                Stage::DescriptorBinding,
                "buffer beyond the storage range of the device".to_owned(),
            ),
        )
    }
}

/// Command recording: one dispatch of the grid that covers `n` elements,
/// for `device`. The queue, the pipeline and the bound group are on
/// `device`, the pipeline describes the bound group, and the group's layout
/// serves the kernel.
pub(crate) fn record_commands(
    device: &Arc<Device>,
    queue: &Arc<Queue>,
    pipeline: &Arc<KernelPipeline>,
    bound: &Arc<BoundBuffers>,
    n: u32,
) -> (recorded: Result<AutoCommandBuffer, DispatchError>)
    requires
        home_of_queue(**queue) == home_of_device(**device),
        home_of_pipeline(**pipeline) == home_of_device(**device),
        home_of_bound(**bound) == home_of_device(**device),
        groups_of(**pipeline) > BINDING_GROUP,
        serves_kernel(slots_of_bound(**bound)),
    ensures
        match recorded {
            Ok(commands) => home_of_commands(commands) == home_of_device(**device)
                && recorded_grids(commands) == seq![grid_of(n as nat)],
            Err(e) => e.stage == Stage::CommandRecording,
        },
{
    outcome_at(Stage::CommandRecording, record_dispatch(device, queue, pipeline, bound, grid_for(n)))
}

/// Submission: the command buffer is handed to the queue, which is on the
/// device that it was recorded for.
pub(crate) fn submit_commands(commands: AutoCommandBuffer, queue: &Arc<Queue>) -> (submitted:
    Result<Submitted, DispatchError>)
    requires
        home_of_commands(commands) == home_of_queue(**queue),
    ensures
        submitted matches Err(e) ==> e.stage == Stage::Submission,
{
    outcome_at(Stage::Submission, submit(commands, queue))
}

/// Fence wait: the host blocks, without a timeout, until the device has
/// signalled that it is through.
pub fn await_completion(submitted: &Submitted) -> (done: Result<(), DispatchError>)
    ensures
        done matches Err(e) ==> e.stage == Stage::FenceWait,
{
    outcome_at(Stage::FenceWait, wait_for(submitted))
}

/// Readback of the input buffer: as many elements as it was filled with
/// when made, whatever the device wrote to them.
pub fn read_input(input: &Arc<WordBuffer>) -> (read: Result<Vec<u32>, DispatchError>)
    ensures
        match read {
            Ok(content) => content@.len() == filled_words(**input).len(),
            Err(e) => e.stage == Stage::Readback,
        },
{
    outcome_at(Stage::Readback, read_words(input))
}

/// Readback of the output buffer: as many elements as it was filled with
/// when made, whatever the device wrote to them.
pub fn read_output(output: &Arc<PatternBuffer>) -> (read: Result<Vec<u64>, DispatchError>)
    ensures
        match read {
            Ok(content) => content@.len() == filled_patterns(**output).len(),
            Err(e) => e.stage == Stage::Readback,
        },
{
    outcome_at(Stage::Readback, read_patterns(output))
}

/// The two buffers of a dispatch, made and filled, with the device that
/// they are on: the state of a dispatch between buffer creation and
/// program load.
pub struct Buffers {
    device: Arc<Device>,
    input: Arc<WordBuffer>,
    output: Arc<PatternBuffer>,
    elements: u32,
}

impl Buffers {
    /// Both buffers are on the device, the input was filled with
    /// `elements` elements and the output with as many zeros.
    #[verifier::type_invariant]
    spec fn well_made(self) -> bool {
        &&& home_of_words(*self.input) == home_of_device(*self.device)
        &&& home_of_patterns(*self.output) == home_of_device(*self.device)
        &&& storage_range_for_words(*self.input) == storage_range_of(*self.device)
        &&& storage_range_for_patterns(*self.output) == storage_range_of(*self.device)
        &&& filled_words(*self.input).len() == self.elements
        &&& filled_patterns(*self.output) == zero_patterns(self.elements as nat)
    }

    /// What the input buffer was filled with.
    pub closed spec fn uploaded(self) -> Seq<u32> {
        filled_words(*self.input)
    }

    /// What the output buffer was filled with.
    pub closed spec fn prepared(self) -> Seq<u64> {
        filled_patterns(*self.output)
    }

    /// The device that both buffers are on.
    pub closed spec fn home(self) -> int {
        home_of_device(*self.device)
    }

    /// The number of elements of each buffer.
    pub closed spec fn count(self) -> nat {
        self.elements as nat
    }

    /// The number of elements of each buffer.
    pub fn elements(&self) -> (n: u32)
        ensures
            n == self.count(),
            self.uploaded().len() == n,
            self.prepared() == zero_patterns(n as nat),
    {
        proof {
            use_type_invariant(self);
        }
        self.elements
    }

    /// The device that both buffers are on.
    pub fn device(&self) -> (device: &Arc<Device>)
        ensures
            home_of_device(**device) == self.home(),
    {
        &self.device
    }
}

/// The first step of a dispatch: the input check on the length, and the
/// creation of both buffers on `device`, the input filled with `data_in`
/// and the output with as many zeros.
pub fn make_buffers(data_in: Vec<u32>, device: Arc<Device>) -> (made: Result<
    Buffers,
    DispatchError,
>)
    ensures
        (made matches Err(e) && e.stage == Stage::InputCheck) <==> data_in.len() > u32::MAX,
        match made {
            Ok(buffers) => buffers.uploaded() == data_in@ && buffers.count() == data_in.len()
                && buffers.prepared() == zero_patterns(data_in.len() as nat) && buffers.home()
                == home_of_device(*device),
            Err(e) => (e.stage == Stage::InputCheck && e.detail@ == too_long_text()) || e.stage
                == Stage::BufferCreation,
        },
{
    let n: u32 = match check_length(data_in.len()) {
        Ok(n) => n,
        Err(e) => {
            return Err(e);
        },
    };
    let input = match create_input_buffer(&device, data_in) {
        Ok(buffer) => buffer,
        Err(e) => {
            return Err(e);
        },
    };
    let output = match create_output_buffer(&device, n) {
        Ok(buffer) => buffer,
        Err(e) => {
            return Err(e);
        },
    };
    Ok(Buffers { device, input, output, elements: n })
}

/// What follows the input check and the creation of the buffers: layout
/// lookup, descriptor binding, command recording, submission, fence wait,
/// readback of both buffers, result check. The queue and the pipeline are
/// on the device of the buffers.
fn run_operations(buffers: Buffers, queue: &Arc<Queue>, pipeline: &Arc<KernelPipeline>) -> (result:
    Result<Vec<u64>, DispatchError>)
    requires
        home_of_queue(**queue) == buffers.home(),
        home_of_pipeline(**pipeline) == buffers.home(),
    ensures
        match result {
            Ok(out) => out@ == index_doubles(buffers.count()),
            Err(e) => e.stage != Stage::InputCheck && e.stage != Stage::BufferCreation && e.stage
                != Stage::ProgramLoad && e.stage != Stage::PipelineCreation,
        },
{
    proof {
        use_type_invariant(&buffers);
    }
    let n: u32 = buffers.elements;
    let layout = match look_up_layout(pipeline, &buffers.device) {
        Ok(layout) => layout,
        Err(e) => {
            return Err(e);
        },
    };
    let bound = match bind_descriptors(&buffers.device, &layout, &buffers.input, &buffers.output, n) {
        Ok(bound) => bound,
        Err(e) => {
            return Err(e);
        },
    };
    let commands = match record_commands(&buffers.device, queue, pipeline, &bound, n) {
        Ok(commands) => commands,
        Err(e) => {
            return Err(e);
        },
    };
    let submitted = match submit_commands(commands, queue) {
        Ok(submitted) => submitted,
        Err(e) => {
            return Err(e);
        },
    };
    match await_completion(&submitted) {
        Ok(()) => {},
        Err(e) => {
            return Err(e);
        },
    }
    match read_input(&buffers.input) {
        Ok(_) => {},
        Err(e) => {
            return Err(e);
        },
    }
    let read = match read_output(&buffers.output) {
        Ok(read) => read,
        Err(e) => {
            return Err(e);
        },
    };
    check_readback(n, read)
}

/// The second step of a dispatch, once the pipeline is built: the input
/// check on the devices, and then layout lookup, descriptor binding,
/// command recording, submission, fence wait, readback of both buffers and
/// result check, each once and in this order. The first that fails ends
/// the dispatch, and the error names it. The result is the doubles `0, 1,
/// .., N - 1` for buffers of `N` elements.
///
/// The input check fails exactly where the driver finds the queue or the
/// pipeline on another device than the buffers. The wait for the device has
/// no timeout. Where the device is lost while the work is with it, the
/// driver does not report it: it panics.
pub fn run_kernel(buffers: Buffers, queue: Arc<Queue>, pipeline: Arc<KernelPipeline>) -> (result:
    Result<Vec<u64>, DispatchError>)
    ensures
        (result matches Err(e) && e.stage == Stage::InputCheck) <==> home_of_queue(*queue)
            != buffers.home() || home_of_pipeline(*pipeline) != buffers.home(),
        match result {
            Ok(out) => out@ == index_doubles(buffers.count()),
            Err(e) => e.stage != Stage::BufferCreation && e.stage != Stage::ProgramLoad && e.stage
                != Stage::PipelineCreation,
        },
{
    match check_devices(&buffers.device, &queue, &pipeline) {
        Ok(()) => run_operations(buffers, &queue, &pipeline),
        Err(e) => Err(e),
    }
}

/// Runs the kernel once over `data_in` and returns what it wrote to the
/// output buffer: for an input of `N` elements, the `N` doubles `0, 1, ..,
/// N - 1`, each as its 64-bit pattern. The content of `data_in` has no part
/// in the result.
///
/// The pipeline is the caller's: it is built from the compute program
/// before the call, on `device`, with both buffers in binding group 0, the
/// input in slot 0 and the output in slot 1. `queue` is a queue of `device`.
/// The input check fails exactly where the input has more elements than a
/// 32-bit index reaches, or the driver finds the queue or the pipeline on
/// another device; nothing is touched then. A caller that builds the
/// pipeline only once the buffers are made takes the two steps
/// `make_buffers` and `run_kernel` in place of this call.
///
/// The operations run once each and in this order: input check, creation of
/// the input buffer and of the output buffer, layout lookup, descriptor
/// binding, command recording, submission, fence wait, readback of both
/// buffers, result check. The first that fails ends the dispatch, and the
/// error names it; nothing is retried. The wait for the device has no
/// timeout. Where the device is lost while the work is with it, the driver
/// does not report it: it panics.
pub fn make_calculations_on_gpu(
    data_in: Vec<u32>,
    device: Arc<Device>,
    queue: Arc<Queue>,
    pipeline: Arc<KernelPipeline>,
) -> (result: Result<Vec<u64>, DispatchError>)
    ensures
        match result {
            Ok(out) => data_in.len() <= u32::MAX && is_result_of(data_in@, out@),
            Err(e) => e.stage != Stage::ProgramLoad && e.stage != Stage::PipelineCreation,
        },
        (result matches Err(e) && e.stage == Stage::InputCheck && e.detail@ == too_long_text())
            <==> data_in.len() > u32::MAX,
        (result matches Err(e) && e.stage == Stage::InputCheck) <==> data_in.len() > u32::MAX
            || home_of_queue(*queue) != home_of_device(*device) || home_of_pipeline(*pipeline)
            != home_of_device(*device),
{
    match check_input(data_in.len(), &device, &queue, &pipeline) {
        Ok(_) => {},
        Err(e) => {
            return Err(e);
        },
    }
    let buffers = match make_buffers(data_in, device) {
        Ok(buffers) => buffers,
        Err(e) => {
            return Err(e);
        },
    };
    run_operations(buffers, &queue, &pipeline)
}

} // verus!
