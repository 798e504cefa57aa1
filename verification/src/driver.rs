//! The graphics-and-compute driver, as far as a dispatch needs it.
//!
//! Everything here is taken on trust: the driver's types are opaque to the
//! verifier, and whether a call succeeds is decided by the platform and the
//! device. What is claimed is what a value keeps from the moment it is made
//! and the driver's own source shows: the accelerators that an instance
//! lists, the device that a value lives on and its limit on storage
//! buffers, what a layout describes, what a buffer was filled with, which
//! buffers a group binds, the grid that a command buffer holds. No success
//! is promised, and nothing is said of what the device writes.

use std::sync::Arc;
use vstd::prelude::*;
use vulkano::buffer::BufferUsage;
use vulkano::descriptor::descriptor::DescriptorDescTy;
use vulkano::descriptor::descriptor_set::DescriptorSetDesc;
use vulkano::buffer::CpuAccessibleBuffer;
use vulkano::command_buffer::pool::standard::StandardCommandPoolAlloc;
use vulkano::command_buffer::AutoCommandBuffer;
use vulkano::command_buffer::AutoCommandBufferBuilder;
use vulkano::command_buffer::CommandBuffer;
use vulkano::command_buffer::CommandBufferExecFuture;
use vulkano::descriptor::descriptor_set::PersistentDescriptorSet;
use vulkano::descriptor::descriptor_set::PersistentDescriptorSetBuf;
use vulkano::descriptor::descriptor_set::StdDescriptorPoolAlloc;
use vulkano::descriptor::descriptor_set::UnsafeDescriptorSetLayout;
use vulkano::descriptor::pipeline_layout::PipelineLayout;
use vulkano::descriptor::pipeline_layout::RuntimePipelineDesc;
use vulkano::descriptor::PipelineLayoutAbstract;
use vulkano::device::Device;
use vulkano::device::DeviceOwned;
use vulkano::device::Queue;
use vulkano::instance::Instance;
use vulkano::instance::InstanceExtensions;
use vulkano::instance::PhysicalDevice;
use vulkano::memory::pool::PotentialDedicatedAllocation;
use vulkano::memory::pool::StdMemoryPoolAlloc;
use vulkano::pipeline::ComputePipeline;
use vulkano::sync::FenceSignalFuture;
use vulkano::sync::GpuFuture;
use vulkano::sync::NowFuture;
use crate::dispatch::BufferSlot;
use crate::session::InstanceExtensionSet;
use crate::session::QueueFamilyInfo;

verus! {

/// The driver's `Instance`: the connection to the platform. Opaque here.
#[verifier::external_type_specification]
#[verifier::external_body]
pub struct ExInstance(Instance);

/// The driver's `Device`: an opened logical context. Opaque here.
#[verifier::external_type_specification]
#[verifier::external_body]
pub struct ExDevice(Device);

/// The driver's `Queue`: a work queue of a device. Opaque here.
#[verifier::external_type_specification]
#[verifier::external_body]
pub struct ExQueue(Queue);

/// The driver's `StdMemoryPoolAlloc`: memory from its standard pool. Opaque here.
#[verifier::external_type_specification]
#[verifier::external_body]
pub struct ExStdMemoryPoolAlloc(StdMemoryPoolAlloc);

/// The driver's `PotentialDedicatedAllocation`: memory from a pool or of a
/// buffer's own. Opaque here.
#[verifier::external_type_specification]
#[verifier::external_body]
#[verifier::reject_recursive_types(A)]
pub struct ExPotentialDedicatedAllocation<A>(PotentialDedicatedAllocation<A>);

/// The driver's `CpuAccessibleBuffer`: a buffer that host and device both
/// reach. Opaque here: the device writes to it behind the host's back, so
/// nothing is said of what its elements are.
#[verifier::external_type_specification]
#[verifier::external_body]
#[verifier::reject_recursive_types(T)]
#[verifier::reject_recursive_types(A)]
pub struct ExCpuAccessibleBuffer<T: ?Sized, A>(CpuAccessibleBuffer<T, A>);

/// The driver's `RuntimePipelineDesc`: a pipeline layout described by values.
/// Opaque here.
#[verifier::external_type_specification]
#[verifier::external_body]
pub struct ExRuntimePipelineDesc(RuntimePipelineDesc);

/// The driver's `PipelineLayout`. Opaque here.
#[verifier::external_type_specification]
#[verifier::external_body]
#[verifier::reject_recursive_types(L)]
pub struct ExPipelineLayout<L>(PipelineLayout<L>);

/// The driver's `ComputePipeline`. Opaque here.
#[verifier::external_type_specification]
#[verifier::external_body]
#[verifier::reject_recursive_types(Pl)]
pub struct ExComputePipeline<Pl>(ComputePipeline<Pl>);

/// The driver's `UnsafeDescriptorSetLayout`: the layout of one binding group.
/// Opaque here.
#[verifier::external_type_specification]
#[verifier::external_body]
pub struct ExUnsafeDescriptorSetLayout(UnsafeDescriptorSetLayout);

/// The driver's `StdDescriptorPoolAlloc`: a descriptor set from its standard
/// pool. Opaque here.
#[verifier::external_type_specification]
#[verifier::external_body]
pub struct ExStdDescriptorPoolAlloc(StdDescriptorPoolAlloc);

/// The driver's `PersistentDescriptorSetBuf`: one buffer bound in a
/// descriptor set. Opaque here.
#[verifier::external_type_specification]
#[verifier::external_body]
#[verifier::reject_recursive_types(B)]
pub struct ExPersistentDescriptorSetBuf<B>(PersistentDescriptorSetBuf<B>);

/// The driver's `PersistentDescriptorSet`: a binding group with its
/// resources bound. Opaque here.
#[verifier::external_type_specification]
#[verifier::external_body]
#[verifier::reject_recursive_types(R)]
#[verifier::reject_recursive_types(P)]
pub struct ExPersistentDescriptorSet<R, P>(PersistentDescriptorSet<R, P>);

/// The driver's `StandardCommandPoolAlloc`: a command buffer from its
/// standard pool. Opaque here.
#[verifier::external_type_specification]
#[verifier::external_body]
pub struct ExStandardCommandPoolAlloc(StandardCommandPoolAlloc);

/// The driver's `AutoCommandBuffer`: a recorded command buffer. Opaque here.
#[verifier::external_type_specification]
#[verifier::external_body]
#[verifier::reject_recursive_types(P)]
pub struct ExAutoCommandBuffer<P>(AutoCommandBuffer<P>);

/// The input buffer: unsigned 32-bit words.
pub type WordBuffer = CpuAccessibleBuffer<[u32]>;

/// The output buffer: doubles, held as their 64-bit patterns.
pub type PatternBuffer = CpuAccessibleBuffer<[u64]>;

/// A compute pipeline whose layout was described at run time.
pub type KernelPipeline = ComputePipeline<PipelineLayout<RuntimePipelineDesc>>;

/// The binding group with the input buffer and the output buffer bound.
pub type BoundBuffers = PersistentDescriptorSet<
    (
        ((), PersistentDescriptorSetBuf<Arc<WordBuffer>>),
        PersistentDescriptorSetBuf<Arc<PatternBuffer>>,
    ),
>;

/// A command buffer that was handed to a queue, with the fence that the
/// device signals when it is through. The driver's own type for it is bound
/// by traits of the driver, which the verifier cannot be told of, so it is
/// held here, out of the verifier's sight. Letting go of it before the wait
/// has ended blocks until the device is through, and the driver panics
/// there where the device was lost.
#[verifier::external_body]
pub struct Submitted {
    fence: FenceSignalFuture<CommandBufferExecFuture<NowFuture, AutoCommandBuffer>>,
}

/// `Instance::new`, with no application information and no layers, asking
/// for the extensions that are set in `extensions`. Whether the platform
/// grants an instance is its own decision: nothing is claimed of the result.
/// An error is handed back as the driver prints it.
#[verifier::external_body]
pub(crate) fn create_instance(extensions: &InstanceExtensionSet) -> (made: Result<
    Arc<Instance>,
    String,
>) {
    let wanted = InstanceExtensions {
        khr_surface: extensions.khr_surface,
        khr_display: extensions.khr_display,
        khr_xlib_surface: extensions.khr_xlib_surface,
        khr_xcb_surface: extensions.khr_xcb_surface,
        khr_wayland_surface: extensions.khr_wayland_surface,
        ext_debug_utils: extensions.ext_debug_utils,
        khr_get_physical_device_properties2: extensions.khr_get_physical_device_properties2,
        khr_get_surface_capabilities2: extensions.khr_get_surface_capabilities2,
        ..InstanceExtensions::none()
    };
    Instance::new(None, &wanted, None).map_err(|e| format!("{:?}", e))
}

/// What an instance lists: for each accelerator, in the order of
/// `PhysicalDevice::enumerate`, its queue families in the order of
/// `PhysicalDevice::queue_families`, each as its identifier and whether it
/// takes graphics operations. The driver reads the list from the platform
/// once, when the instance is made, and keeps it unchanged in the instance,
/// so it belongs to the instance and to nothing else. What the list is on a
/// given machine is the platform's: nothing is claimed of it.
pub uninterp spec fn listed_families(instance: Instance) -> Seq<Seq<QueueFamilyInfo>>;

/// The length of `PhysicalDevice::enumerate`, which the driver takes from
/// the list that the instance keeps: the number of accelerators that the
/// instance lists.
#[verifier::external_body]
pub(crate) fn device_count(instance: &Arc<Instance>) -> (count: usize)
    ensures
        count == listed_families(**instance).len(),
{
    PhysicalDevice::enumerate(instance).len()
}

/// `PhysicalDevice::from_index` and, on the accelerator found,
/// `PhysicalDevice::queue_families`, each family handed out as
/// `QueueFamily::id` and `QueueFamily::supports_graphics` give it. The
/// driver finds an accelerator exactly where `index` is below the number
/// that the instance lists, and walks its families in the order in which
/// the instance keeps them: the result is the instance's list at `index`,
/// and `None` where the list ends before `index`.
#[verifier::external_body]
pub(crate) fn queue_families_of(instance: &Arc<Instance>, index: usize) -> (families: Option<
    Vec<QueueFamilyInfo>,
>)
    ensures
        match families {
            Some(found) => index < listed_families(**instance).len() && found@
                == listed_families(**instance)[index as int],
            None => index >= listed_families(**instance).len(),
        },
{
    PhysicalDevice::from_index(instance, index).map(
        |device|
            device.queue_families().map(
                |family|
                    QueueFamilyInfo {
                        id: family.id(),
                        supports_graphics: family.supports_graphics(),
                    },
            ).collect(),
    )
}

/// The device that a `Device` stands for, as the driver's own equality of
/// devices tells them apart: by the handle that the platform gave the
/// device when it was opened, and that of its instance, both of which the
/// value keeps for as long as it lives. Where the driver asserts that two
/// values are on one device, it compares the first of these. The names that
/// follow give the same for each value that is made on a device and keeps a
/// reference to it.
pub uninterp spec fn home_of_device(device: Device) -> int;

/// The device that a queue belongs to: `Queue::device`.
pub uninterp spec fn home_of_queue(queue: Queue) -> int;

/// The device that a pipeline was created with: `ComputePipeline::device`.
pub uninterp spec fn home_of_pipeline(pipeline: KernelPipeline) -> int;

/// The device that the layout of a binding group was made on:
/// `DeviceOwned::device` of the layout.
pub uninterp spec fn home_of_layout(layout: UnsafeDescriptorSetLayout) -> int;

/// The device that an input buffer was made on.
pub uninterp spec fn home_of_words(buffer: WordBuffer) -> int;

/// The device that an output buffer was made on.
pub uninterp spec fn home_of_patterns(buffer: PatternBuffer) -> int;

/// The device of a bound group, which is that of its layout.
pub uninterp spec fn home_of_bound(bound: BoundBuffers) -> int;

/// The device that a command buffer was recorded for.
pub uninterp spec fn home_of_commands(commands: AutoCommandBuffer) -> int;

/// The largest number of bytes that a device takes in one storage buffer
/// binding: the limit `max_storage_buffer_range` of its accelerator, which
/// the instance keeps from the moment it is made.
pub uninterp spec fn storage_range_of(device: Device) -> nat;

/// That limit of the device that an input buffer was made on.
pub uninterp spec fn storage_range_for_words(buffer: WordBuffer) -> nat;

/// That limit of the device that an output buffer was made on.
pub uninterp spec fn storage_range_for_patterns(buffer: PatternBuffer) -> nat;

/// The number of binding groups that the layout of a pipeline describes.
pub uninterp spec fn groups_of(pipeline: KernelPipeline) -> nat;

/// What the layout of a binding group describes, slot by slot: what a slot
/// takes where it takes a buffer, and `None` where the slot is empty or
/// takes something else. The layout keeps its description from the moment
/// it is made.
pub uninterp spec fn slots_of_layout(layout: UnsafeDescriptorSetLayout) -> Seq<Option<BufferSlot>>;

/// What the layout of a bound group describes, slot by slot, as
/// `slots_of_layout` gives it for a layout.
pub uninterp spec fn slots_of_bound(bound: BoundBuffers) -> Seq<Option<BufferSlot>>;

/// The handle of an input buffer, by which the device knows it.
pub uninterp spec fn handle_of_words(buffer: WordBuffer) -> int;

/// The handle of an output buffer, by which the device knows it.
pub uninterp spec fn handle_of_patterns(buffer: PatternBuffer) -> int;

/// The buffers of a bound group: for each slot that was bound, in order
/// from slot 0, the handle of the buffer bound there.
pub uninterp spec fn buffers_of_bound(bound: BoundBuffers) -> Seq<int>;

/// What an input buffer was filled with when it was made. The buffer keeps
/// that number of elements; the device may since have written others.
pub uninterp spec fn filled_words(buffer: WordBuffer) -> Seq<u32>;

/// What an output buffer was filled with when it was made. The buffer keeps
/// that number of elements; the device may since have written others.
pub uninterp spec fn filled_patterns(buffer: PatternBuffer) -> Seq<u64>;

/// The dispatches that a command buffer holds, in the order in which they
/// were recorded, each as the three counts of its grid.
pub uninterp spec fn recorded_grids(commands: AutoCommandBuffer) -> Seq<Seq<u32>>;

/// The bytes that the driver makes a buffer of: those of its elements, and
/// one byte where it has none.
pub open spec fn bytes_of(elements: nat, width: nat) -> nat {
    if elements == 0 {
        1
    } else {
        elements * width
    }
}

/// `slot` of a description is a storage buffer.
pub open spec fn takes_storage(slots: Seq<Option<BufferSlot>>, slot: int) -> bool {
    0 <= slot < slots.len() && (slots[slot] matches Some(taken) && taken.storage)
}

/// `slot` of a description is read or written in the compute stage.
pub open spec fn reaches_compute(slots: Seq<Option<BufferSlot>>, slot: int) -> bool {
    0 <= slot < slots.len() && (slots[slot] matches Some(taken) && taken.compute)
}

/// `CpuAccessibleBuffer::from_iter` with every usage allowed and no
/// preference for host-cached memory. The driver makes the buffer on
/// `device`, for as many elements as `data` has, and writes the elements of
/// `data` to it in order; from an empty `data` it makes a buffer of one
/// byte, which holds no element. It panics where the device offers no
/// memory that the host can see for such a buffer, which every conforming
/// device does. Whether the device has the memory is its own decision: no
/// success is promised. An error is handed back as the driver prints it.
#[verifier::external_body]
pub(crate) fn upload_words(device: &Arc<Device>, data: Vec<u32>) -> (made: Result<
    Arc<WordBuffer>,
    String,
>)
    ensures
        made matches Ok(buffer) ==> home_of_words(*buffer) == home_of_device(**device)
            && storage_range_for_words(*buffer) == storage_range_of(**device) && filled_words(
            *buffer,
        ) == data@,
{
    CpuAccessibleBuffer::from_iter(device.clone(), BufferUsage::all(), false, data.into_iter())
        .map_err(|e| format!("{:?}", e))
}

/// `CpuAccessibleBuffer::from_iter`, as for the input buffer, for the
/// 64-bit elements of the output buffer.
#[verifier::external_body]
pub(crate) fn upload_patterns(device: &Arc<Device>, data: Vec<u64>) -> (made: Result<
    Arc<PatternBuffer>,
    String,
>)
    ensures
        made matches Ok(buffer) ==> home_of_patterns(*buffer) == home_of_device(**device)
            && storage_range_for_patterns(*buffer) == storage_range_of(**device)
            && filled_patterns(*buffer) == data@,
{
    CpuAccessibleBuffer::from_iter(device.clone(), BufferUsage::all(), false, data.into_iter())
        .map_err(|e| format!("{:?}", e))
}

/// `Device::physical_device`, `PhysicalDevice::limits` and
/// `Limits::max_storage_buffer_range`: the limit as the instance keeps it
/// for the device's accelerator.
#[verifier::external_body]
pub(crate) fn storage_range(device: &Arc<Device>) -> (range: u32)
    ensures
        range == storage_range_of(**device),
{
    device.physical_device().limits().max_storage_buffer_range()
}

/// `Queue::device`, compared with `device` by the driver's own equality of
/// devices.
#[verifier::external_body]
pub(crate) fn queue_is_on(queue: &Arc<Queue>, device: &Arc<Device>) -> (same: bool)
    ensures
        same <==> home_of_queue(**queue) == home_of_device(**device),
{
    queue.device() == device
}

/// `ComputePipeline::device`, compared with `device` by the driver's own
/// equality of devices.
#[verifier::external_body]
pub(crate) fn pipeline_is_on(
    pipeline: &Arc<KernelPipeline>,
    device: &Arc<Device>,
) -> (same: bool)
    ensures
        same <==> home_of_pipeline(**pipeline) == home_of_device(**device),
{
    pipeline.device() == device
}

/// `DeviceOwned::device` of the layout, compared with `device` by the
/// driver's own equality of devices.
#[verifier::external_body]
pub(crate) fn layout_is_on(
    layout: &Arc<UnsafeDescriptorSetLayout>,
    device: &Arc<Device>,
) -> (same: bool)
    ensures
        same <==> home_of_layout(**layout) == home_of_device(**device),
{
    layout.device() == device
}

/// `ComputePipeline::layout` and, on it,
/// `PipelineLayoutAbstract::descriptor_set_layout`: the layout of binding
/// group `group`. The pipeline layout keeps one such layout for each group
/// that it describes, so one is found exactly below their number. Which
/// layout it is, is the pipeline's own: nothing else is claimed.
#[verifier::external_body]
pub(crate) fn set_layout(pipeline: &Arc<KernelPipeline>, group: usize) -> (layout: Option<
    Arc<UnsafeDescriptorSetLayout>,
>)
    ensures
        layout is Some <==> group < groups_of(**pipeline),
{
    pipeline.layout().descriptor_set_layout(group).cloned()
}

/// `DescriptorSetDesc::descriptor` of the layout at `slot`, handed out
/// field by field where the slot takes a buffer: the layout's description
/// at that slot, and `None` past its end.
#[verifier::external_body]
pub(crate) fn slot_at(layout: &Arc<UnsafeDescriptorSetLayout>, slot: usize) -> (taken: Option<
    BufferSlot,
>)
    ensures
        taken == if slot < slots_of_layout(**layout).len() {
            slots_of_layout(**layout)[slot as int]
        } else {
            None
        },
{
    layout.descriptor(slot).and_then(
        |described|
            match described.ty {
                DescriptorDescTy::Buffer(buffer) => Some(
                    BufferSlot {
                        storage: buffer.storage,
                        dynamic: buffer.dynamic,
                        read_only: described.readonly,
                        array_count: described.array_count,
                        compute: described.stages.compute,
                    },
                ),
                _ => None,
            },
    )
}

/// `PersistentDescriptorSet::start` on `layout`, `add_buffer` with `first`
/// and then with `second`, and `build`. The driver binds `first` at slot 0
/// and `second` at slot 1. `add_buffer` asserts that the buffer and the
/// layout are on one device; where the driver is built with its debug
/// assertions, it asserts too that the bytes of a buffer are within the
/// range that the buffer's device gives to what its slot takes. All of that
/// is asked of the caller, for storage slots. The bound group keeps the
/// layout, with its device and its description. Whether the buffers fit
/// the slots is the driver's decision: no success is promised. An error is
/// handed back as the driver prints it.
#[verifier::external_body]
pub(crate) fn bind_buffers(
    layout: &Arc<UnsafeDescriptorSetLayout>,
    first: &Arc<WordBuffer>,
    second: &Arc<PatternBuffer>,
) -> (bound: Result<Arc<BoundBuffers>, String>)
    requires
        home_of_layout(**layout) == home_of_words(**first),
        home_of_layout(**layout) == home_of_patterns(**second),
        takes_storage(slots_of_layout(**layout), 0),
        takes_storage(slots_of_layout(**layout), 1),
        bytes_of(filled_words(**first).len(), 4) <= storage_range_for_words(**first),
        bytes_of(filled_patterns(**second).len(), 8) <= storage_range_for_patterns(**second),
    ensures
        bound matches Ok(group) ==> home_of_bound(*group) == home_of_layout(**layout)
            && slots_of_bound(*group) == slots_of_layout(**layout) && buffers_of_bound(*group)
            == seq![handle_of_words(**first), handle_of_patterns(**second)],
{
    let builder = PersistentDescriptorSet::start(layout.clone());
    let builder = builder.add_buffer(first.clone()).map_err(|e| format!("{:?}", e))?;
    let builder = builder.add_buffer(second.clone()).map_err(|e| format!("{:?}", e))?;
    builder.build().map(Arc::new).map_err(|e| format!("{:?}", e))
}

/// `AutoCommandBufferBuilder::new` for the queue's family, `dispatch` of
/// `grid` work-groups with the pipeline, the bound group and no push
/// constants, and `build`. The driver asserts that `device` and the queue's
/// family are of one accelerator; where it is built with its debug
/// assertions, it asserts too that the grid is within the limits of the
/// command buffer's device, having tested it against those of the
/// pipeline's, that the pipeline describes as many groups as are bound, and
/// that each bound slot is reached from a shader stage. All of that is
/// asked of the caller, with the bound group on the same device and its
/// two slots reached from the compute stage. The command buffer is
/// recorded for `device` and holds the one dispatch. Whether the device
/// takes the grid is the driver's decision: no success is promised. An
/// error is handed back as the driver prints it.
#[verifier::external_body]
pub(crate) fn record_dispatch(
    device: &Arc<Device>,
    queue: &Arc<Queue>,
    pipeline: &Arc<KernelPipeline>,
    bound: &Arc<BoundBuffers>,
    grid: [u32; 3],
) -> (recorded: Result<AutoCommandBuffer, String>)
    requires
        home_of_queue(**queue) == home_of_device(**device),
        home_of_pipeline(**pipeline) == home_of_device(**device),
        home_of_bound(**bound) == home_of_device(**device),
        groups_of(**pipeline) >= 1,
        reaches_compute(slots_of_bound(**bound), 0),
        reaches_compute(slots_of_bound(**bound), 1),
    ensures
        recorded matches Ok(commands) ==> home_of_commands(commands) == home_of_device(**device)
            && recorded_grids(commands) == seq![grid@],
{
    let mut builder = AutoCommandBufferBuilder::new(device.clone(), queue.family())
        .map_err(|e| format!("{:?}", e))?;
    builder.dispatch(grid, pipeline.clone(), bound.clone(), ()).map_err(|e| format!("{:?}", e))?;
    builder.build().map_err(|e| format!("{:?}", e))
}

/// `CommandBuffer::execute` on the queue and, on what it returns,
/// `GpuFuture::then_signal_fence_and_flush`: the command buffer is handed
/// to the device, with a fence behind it. `execute` asserts that the
/// command buffer and the queue are on one device, which is asked of the
/// caller. A refusal by `execute` is handed back as the driver prints it.
/// Where the device refuses the submission itself, the driver lets go of
/// the unfinished future inside the call: it submits once more and waits
/// for the queue, and panics where either fails again, which a lost device
/// makes certain. An error comes back only where that second attempt goes
/// through. No success is promised.
#[verifier::external_body]
pub(crate) fn submit(commands: AutoCommandBuffer, queue: &Arc<Queue>) -> (submitted: Result<
    Submitted,
    String,
>)
    requires
        home_of_commands(commands) == home_of_queue(**queue),
{
    let running = commands.execute(queue.clone()).map_err(|e| format!("{:?}", e))?;
    let fence = running.then_signal_fence_and_flush().map_err(|e| format!("{:?}", e))?;
    Ok(Submitted { fence })
}

/// `FenceSignalFuture::wait` without a timeout: the call returns once the
/// device has signalled the fence, and not before. Where the wait itself
/// fails, the driver lets go of the unfinished submission inside the call
/// and waits for the queue; it panics where that fails, which a lost device
/// makes certain. An error comes back, as the driver prints it, only where
/// the queue could still be waited for. No success is promised.
#[verifier::external_body]
pub(crate) fn wait_for(submitted: &Submitted) -> (done: Result<(), String>) {
    submitted.fence.wait(None).map_err(|e| format!("{:?}", e))
}

/// `CpuAccessibleBuffer::read`, and a copy of what the lock shows: the
/// elements of the input buffer as the host sees them now, as many as the
/// buffer was filled with when made. The device may have written anything:
/// nothing is claimed of what they are. An error is handed back as the
/// driver prints it.
#[verifier::external_body]
pub(crate) fn read_words(buffer: &Arc<WordBuffer>) -> (read: Result<Vec<u32>, String>)
    ensures
        read matches Ok(content) ==> content@.len() == filled_words(**buffer).len(),
{
    buffer.read().map(|content| content.to_vec()).map_err(|e| format!("{:?}", e))
}

/// `CpuAccessibleBuffer::read`, as for the input buffer, on the output
/// buffer.
#[verifier::external_body]
pub(crate) fn read_patterns(buffer: &Arc<PatternBuffer>) -> (read: Result<Vec<u64>, String>)
    ensures
        read matches Ok(content) ==> content@.len() == filled_patterns(**buffer).len(),
{
    buffer.read().map(|content| content.to_vec()).map_err(|e| format!("{:?}", e))
}

} // verus!
