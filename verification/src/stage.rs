//! The operations of a dispatch and the error that names the one that failed.

use vstd::prelude::*;

verus! {

/// One operation of a dispatch. Each can fail, and a failure ends the
/// dispatch: nothing is retried and no earlier operation runs again.
#[derive(Clone, Copy, Debug, PartialEq, Eq, Structural)]
pub enum Stage {
    /// The input is held against what the kernel and the device can take.
    InputCheck,
    /// The input and output buffers are allocated and filled.
    BufferCreation,
    /// The compute program is loaded onto the device.
    ProgramLoad,
    /// The compute pipeline is built from the program.
    PipelineCreation,
    /// The pipeline is asked for the layout of its binding group.
    LayoutLookup,
    /// The two buffers are bound to their slots.
    DescriptorBinding,
    /// The dispatch is recorded into a command buffer.
    CommandRecording,
    /// The command buffer is handed to the queue.
    Submission,
    /// The host blocks until the device signals completion.
    FenceWait,
    /// The buffers are read back to the host.
    Readback,
    /// What was read back is held against the index sequence.
    ResultCheck,
}

impl Stage {
    /// The text that reports a failure of the operation.
    pub open spec fn message_text(self) -> Seq<char> {
        match self {
            Stage::InputCheck => "input not accepted"@,
            Stage::BufferCreation => "failed to create buffer"@,
            Stage::ProgramLoad => "failed to create shader module"@,
            Stage::PipelineCreation => "failed to create compute pipeline"@,
            Stage::LayoutLookup => "failed to look up descriptor set layout"@,
            Stage::DescriptorBinding => "failed to bind descriptors"@,
            Stage::CommandRecording => "failed to record command buffer"@,
            Stage::Submission => "failed to submit command buffer"@,
            Stage::FenceWait => "failed to wait for completion"@,
            Stage::Readback => "failed to read buffer"@,
            Stage::ResultCheck => "kernel output is not the index sequence"@,
        }
    }

    /// The text that reports a failure of the operation.
    pub fn message(&self) -> (text: String)
        ensures
            text@ == self.message_text(),
    {
        match self {
            Stage::InputCheck => "input not accepted".to_owned(),
            Stage::BufferCreation => "failed to create buffer".to_owned(),
            Stage::ProgramLoad => "failed to create shader module".to_owned(),
            Stage::PipelineCreation => "failed to create compute pipeline".to_owned(),
            Stage::LayoutLookup => "failed to look up descriptor set layout".to_owned(),
            Stage::DescriptorBinding => "failed to bind descriptors".to_owned(),
            Stage::CommandRecording => "failed to record command buffer".to_owned(),
            Stage::Submission => "failed to submit command buffer".to_owned(),
            Stage::FenceWait => "failed to wait for completion".to_owned(),
            Stage::Readback => "failed to read buffer".to_owned(),
            Stage::ResultCheck => "kernel output is not the index sequence".to_owned(),
        }
    }
}

/// A failed dispatch: the operation that failed, and what the driver said.
#[derive(Debug)]
pub struct DispatchError {
    /// The operation that failed.
    pub stage: Stage,
    /// The driver's own account of the failure; empty where it gave none.
    pub detail: String,
}

impl DispatchError {
    /// A failure of `stage` with the driver's account of it.
    pub fn new(stage: Stage, detail: String) -> (e: DispatchError)
        ensures
            e.stage == stage,
            e.detail@ == detail@,
    {
        DispatchError { stage, detail }
    }

    /// The report of the failure: the operation's text, a colon and a space,
    /// then the driver's account.
    pub fn message(&self) -> (text: String)
        ensures
            text@ == self.stage.message_text() + ": "@ + self.detail@,
    {
        let head = self.stage.message();
        let joined = head.concat(": ");
        joined.concat(self.detail.as_str())
    }
}

} // verus!
