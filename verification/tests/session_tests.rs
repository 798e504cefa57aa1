use gpu_dispatch::session::device_capabilities;
use gpu_dispatch::session::find_graphics_family;
use gpu_dispatch::session::instance_extensions;
use gpu_dispatch::session::plan_session;
use gpu_dispatch::session::BootstrapError;
use gpu_dispatch::session::DeviceInfo;
use gpu_dispatch::session::QueueFamilyInfo;

fn family(id: u32, supports_graphics: bool) -> QueueFamilyInfo {
    QueueFamilyInfo { id, supports_graphics }
}

#[test]
fn all_eight_instance_extensions_are_asked_for() {
    let set = instance_extensions();
    assert!(set.khr_surface);
    assert!(set.khr_display);
    assert!(set.khr_xlib_surface);
    assert!(set.khr_xcb_surface);
    assert!(set.khr_wayland_surface);
    assert!(set.ext_debug_utils);
    assert!(set.khr_get_physical_device_properties2);
    assert!(set.khr_get_surface_capabilities2);
}

#[test]
fn the_context_asks_for_robust_access_and_doubles() {
    let caps = device_capabilities();
    assert!(caps.robust_buffer_access);
    assert!(caps.shader_float64);
    assert!(caps.khr_storage_buffer_storage_class);
}

#[test]
fn no_accelerator_is_reported_as_such() {
    let devices: Vec<DeviceInfo> = Vec::new();
    match plan_session(&devices) {
        Err(BootstrapError::NoDevice) => {}
        other => panic!("unexpected plan: {:?}", other),
    }
}

#[test]
fn no_accelerator_has_its_message() {
    assert_eq!(BootstrapError::NoDevice.message(), "no device available");
}

#[test]
fn no_graphics_family_is_reported_as_such() {
    let devices = vec![DeviceInfo { index: 0, families: vec![family(0, false), family(1, false)] }];
    match plan_session(&devices) {
        Err(BootstrapError::NoGraphicsQueueFamily) => {}
        other => panic!("unexpected plan: {:?}", other),
    }
    assert_eq!(
        BootstrapError::NoGraphicsQueueFamily.message(),
        "couldn't find a graphical queue family"
    );
}

#[test]
fn an_accelerator_without_families_has_no_graphics_family() {
    let devices = vec![DeviceInfo { index: 0, families: Vec::new() }];
    assert!(matches!(plan_session(&devices), Err(BootstrapError::NoGraphicsQueueFamily)));
}

#[test]
fn the_first_graphics_family_is_chosen() {
    let devices = vec![DeviceInfo {
        index: 0,
        families: vec![family(0, false), family(1, true), family(2, true)],
    }];
    let plan = plan_session(&devices).unwrap();
    assert_eq!(plan.device_index, 0);
    assert_eq!(plan.queue_family_id, 1);
    assert_eq!(plan.queue_count, 1);
    assert_eq!(plan.capabilities, device_capabilities());
}

#[test]
fn the_plan_carries_the_identifier_of_the_family_not_its_position() {
    let devices = vec![DeviceInfo { index: 3, families: vec![family(7, false), family(9, true)] }];
    let plan = plan_session(&devices).unwrap();
    assert_eq!(plan.device_index, 3);
    assert_eq!(plan.queue_family_id, 9);
}

#[test]
fn the_first_accelerator_is_chosen_whatever_follows() {
    let devices = vec![
        DeviceInfo { index: 0, families: vec![family(0, true)] },
        DeviceInfo { index: 1, families: vec![family(0, true), family(1, true)] },
    ];
    let plan = plan_session(&devices).unwrap();
    assert_eq!(plan.device_index, 0);
    assert_eq!(plan.queue_family_id, 0);
}

#[test]
fn a_later_accelerator_does_not_make_up_for_the_first() {
    let devices = vec![
        DeviceInfo { index: 0, families: vec![family(0, false)] },
        DeviceInfo { index: 1, families: vec![family(0, true)] },
    ];
    assert!(matches!(plan_session(&devices), Err(BootstrapError::NoGraphicsQueueFamily)));
}

#[test]
fn planning_twice_gives_the_same_plan() {
    let devices = vec![DeviceInfo { index: 0, families: vec![family(4, false), family(5, true)] }];
    let first = plan_session(&devices).unwrap();
    let second = plan_session(&devices).unwrap();
    assert_eq!(first, second);
}

#[test]
fn find_graphics_family_gives_the_first_position() {
    assert_eq!(find_graphics_family(&Vec::new()), None);
    assert_eq!(find_graphics_family(&vec![family(0, false)]), None);
    assert_eq!(find_graphics_family(&vec![family(0, true)]), Some(0));
    assert_eq!(find_graphics_family(&vec![family(0, false), family(1, false), family(2, true)]), Some(2));
    assert_eq!(find_graphics_family(&vec![family(0, true), family(1, false), family(2, true)]), Some(0));
}

#[test]
fn a_refused_instance_reports_the_account_of_the_driver() {
    let error = BootstrapError::InstanceCreation("LoadingError".to_string());
    assert_eq!(error.message(), "failed to create instance: LoadingError");
}

#[test]
fn a_refused_context_reports_the_account_of_the_driver() {
    let error = BootstrapError::DeviceCreation("FeatureNotPresent".to_string());
    assert_eq!(error.message(), "failed to create device: FeatureNotPresent");
}
