use gpu_dispatch::stage::DispatchError;
use gpu_dispatch::stage::Stage;

fn all_stages() -> Vec<Stage> {
    vec![
        Stage::InputCheck,
        Stage::BufferCreation,
        Stage::ProgramLoad,
        Stage::PipelineCreation,
        Stage::LayoutLookup,
        Stage::DescriptorBinding,
        Stage::CommandRecording,
        Stage::Submission,
        Stage::FenceWait,
        Stage::Readback,
        Stage::ResultCheck,
    ]
}

#[test]
fn every_stage_has_a_message_of_its_own() {
    let stages = all_stages();
    let mut i = 0;
    while i < stages.len() {
        assert!(!stages[i].message().is_empty());
        let mut j = i + 1;
        while j < stages.len() {
            assert_ne!(stages[i].message(), stages[j].message());
            j += 1;
        }
        i += 1;
    }
}

#[test]
fn stage_messages_are_as_stated() {
    assert_eq!(Stage::InputCheck.message(), "input not accepted");
    assert_eq!(Stage::BufferCreation.message(), "failed to create buffer");
    assert_eq!(Stage::ProgramLoad.message(), "failed to create shader module");
    assert_eq!(Stage::PipelineCreation.message(), "failed to create compute pipeline");
    assert_eq!(Stage::LayoutLookup.message(), "failed to look up descriptor set layout");
    assert_eq!(Stage::DescriptorBinding.message(), "failed to bind descriptors");
    assert_eq!(Stage::CommandRecording.message(), "failed to record command buffer");
    assert_eq!(Stage::Submission.message(), "failed to submit command buffer");
    assert_eq!(Stage::FenceWait.message(), "failed to wait for completion");
    assert_eq!(Stage::Readback.message(), "failed to read buffer");
    assert_eq!(Stage::ResultCheck.message(), "kernel output is not the index sequence");
}

#[test]
fn an_error_keeps_its_stage_and_detail() {
    let error = DispatchError::new(Stage::Submission, "DeviceLost".to_string());
    assert_eq!(error.stage, Stage::Submission);
    assert_eq!(error.detail, "DeviceLost");
}

#[test]
fn an_error_reports_its_stage_and_then_the_detail() {
    let error = DispatchError::new(Stage::BufferCreation, "OomError(OutOfDeviceMemory)".to_string());
    assert_eq!(error.message(), "failed to create buffer: OomError(OutOfDeviceMemory)");
}

#[test]
fn an_error_without_detail_still_names_its_stage() {
    let error = DispatchError::new(Stage::LayoutLookup, String::new());
    assert_eq!(error.message(), "failed to look up descriptor set layout: ");
}
