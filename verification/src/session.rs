//! Planning of the execution context: which accelerator, which queue family,
//! and which capabilities the context is opened with.

use vstd::prelude::*;

verus! {

/// Instance-level extensions, each named as the platform names it.
#[derive(Clone, Copy, Debug, PartialEq, Eq, Structural)]
pub struct InstanceExtensionSet {
    pub khr_surface: bool,
    pub khr_display: bool,
    pub khr_xlib_surface: bool,
    pub khr_xcb_surface: bool,
    pub khr_wayland_surface: bool,
    pub ext_debug_utils: bool,
    pub khr_get_physical_device_properties2: bool,
    pub khr_get_surface_capabilities2: bool,
}

/// What the logical context is opened with: two device features and one
/// device extension.
#[derive(Clone, Copy, Debug, PartialEq, Eq, Structural)]
pub struct DeviceCapabilities {
    /// Out-of-bounds buffer accesses are clipped by the device. The grid is
    /// rounded up to whole work-groups, so invocations past the last element
    /// rely on this.
    pub robust_buffer_access: bool,
    /// Double-precision floating point in shader code.
    pub shader_float64: bool,
    /// The storage-buffer storage class extension.
    pub khr_storage_buffer_storage_class: bool,
}

/// One queue family of an accelerator, as far as planning reads it.
#[derive(Clone, Copy, Debug, PartialEq, Eq, Structural)]
pub struct QueueFamilyInfo {
    /// The family's identifier on its accelerator.
    pub id: u32,
    /// Whether queues of the family take graphics operations.
    pub supports_graphics: bool,
}

/// One accelerator, as far as planning reads it.
#[derive(Debug)]
pub struct DeviceInfo {
    /// The accelerator's index in the platform's enumeration.
    pub index: usize,
    /// Its queue families, in the order in which it lists them.
    pub families: Vec<QueueFamilyInfo>,
}

/// The context to open.
#[derive(Clone, Copy, Debug, PartialEq, Eq, Structural)]
pub struct SessionPlan {
    /// Enumeration index of the chosen accelerator.
    pub device_index: usize,
    /// Identifier of the chosen queue family.
    pub queue_family_id: u32,
    /// Number of queues requested from that family.
    pub queue_count: u32,
    /// What the logical context must offer.
    pub capabilities: DeviceCapabilities,
}

/// Why no context could be planned or opened.
#[derive(Debug)]
pub enum BootstrapError {
    /// The platform refused the instance; the driver's account is attached.
    InstanceCreation(String),
    /// The platform lists no accelerator.
    NoDevice,
    /// The chosen accelerator has no queue family that takes graphics
    /// operations.
    NoGraphicsQueueFamily,
    /// The accelerator refused the logical context; the driver's account is
    /// attached.
    DeviceCreation(String),
}

/// The instance extensions that are asked of the platform: all eight.
pub open spec fn required_extensions() -> InstanceExtensionSet {
    InstanceExtensionSet {
        khr_surface: true,
        khr_display: true,
        khr_xlib_surface: true,
        khr_xcb_surface: true,
        khr_wayland_surface: true,
        ext_debug_utils: true,
        khr_get_physical_device_properties2: true,
        khr_get_surface_capabilities2: true,
    }
}

/// The capabilities that every context is opened with: all three.
pub open spec fn required_capabilities() -> DeviceCapabilities {
    DeviceCapabilities {
        robust_buffer_access: true,
        shader_float64: true,
        khr_storage_buffer_storage_class: true,
    }
}

/// Position `k` holds the first family that takes graphics operations.
pub open spec fn is_first_graphics(families: Seq<QueueFamilyInfo>, k: int) -> bool {
    &&& 0 <= k < families.len()
    &&& families[k].supports_graphics
    &&& forall|j: int| 0 <= j < k ==> !(#[trigger] families[j]).supports_graphics
}

/// No family takes graphics operations.
pub open spec fn no_graphics(families: Seq<QueueFamilyInfo>) -> bool {
    forall|j: int| 0 <= j < families.len() ==> !(#[trigger] families[j]).supports_graphics
}

/// The plan for an accelerator and the position of the family chosen on it:
/// one queue of that family, and the required capabilities.
pub open spec fn plan_for(device: DeviceInfo, k: int) -> SessionPlan {
    SessionPlan {
        device_index: device.index,
        queue_family_id: device.families@[k].id,
        queue_count: 1,
        capabilities: required_capabilities(),
    }
}

/// The instance extensions that are asked of the platform.
pub fn instance_extensions() -> (set: InstanceExtensionSet)
    ensures
        set == required_extensions(),
{
    InstanceExtensionSet {
        khr_surface: true,
        khr_display: true,
        khr_xlib_surface: true,
        khr_xcb_surface: true,
        khr_wayland_surface: true,
        ext_debug_utils: true,
        khr_get_physical_device_properties2: true,
        khr_get_surface_capabilities2: true,
    }
}

/// The capabilities that every context is opened with.
pub fn device_capabilities() -> (caps: DeviceCapabilities)
    ensures
        caps == required_capabilities(),
{
    DeviceCapabilities {
        robust_buffer_access: true,
        shader_float64: true,
        khr_storage_buffer_storage_class: true,
    }
}

/// Position of the first family that takes graphics operations, if any does.
pub fn find_graphics_family(families: &Vec<QueueFamilyInfo>) -> (found: Option<usize>)
    ensures
        match found {
            Some(k) => is_first_graphics(families@, k as int),
            None => no_graphics(families@),
        },
{
    let mut k: usize = 0;
    while k < families.len()
        invariant
            k <= families.len(),
            forall|j: int| 0 <= j < k ==> !(#[trigger] families@[j]).supports_graphics,
        decreases families.len() - k,
    {
        if families[k].supports_graphics {
            return Some(k);
        }
        k = k + 1;
    }
    None
}

/// Plans the context: the first accelerator listed, and on it the first
/// queue family that takes graphics operations.
pub fn plan_session(devices: &Vec<DeviceInfo>) -> (plan: Result<SessionPlan, BootstrapError>)
    ensures
        devices.len() == 0 <==> plan matches Err(BootstrapError::NoDevice),
        devices.len() > 0 && no_graphics(devices[0].families@)
            <==> plan matches Err(BootstrapError::NoGraphicsQueueFamily),
        match plan {
            Ok(p) => devices.len() > 0 && exists|k: int|
                is_first_graphics(devices[0].families@, k) && p == plan_for(devices[0], k),
            Err(e) => e is NoDevice || e is NoGraphicsQueueFamily,
        },
{
    if devices.len() == 0 {
        return Err(BootstrapError::NoDevice);
    }
    let device = &devices[0];
    match find_graphics_family(&device.families) {
        Some(k) => {
            let plan = SessionPlan {
                device_index: device.index,
                queue_family_id: device.families[k].id,
                queue_count: 1,
                capabilities: device_capabilities(),
            };
            assert(is_first_graphics(devices[0].families@, k as int) && plan == plan_for(
                devices[0],
                k as int,
            ));
            Ok(plan)
        },
        None => Err(BootstrapError::NoGraphicsQueueFamily),
    }
}

/// Law: at most one position holds the first family that takes graphics
/// operations, so the plan is determined by the accelerators listed.
pub proof fn lemma_first_graphics_unique(families: Seq<QueueFamilyInfo>, a: int, b: int)
    requires
        is_first_graphics(families, a),
        is_first_graphics(families, b),
    ensures
        a == b,
{
    if a < b {
        assert(!families[a].supports_graphics);
    } else if b < a {
        assert(!families[b].supports_graphics);
    }
}

impl BootstrapError {
    /// The text that reports the failure; where the driver gave an account,
    /// it follows a colon and a space.
    pub open spec fn message_text(self) -> Seq<char> {
        match self {
            BootstrapError::InstanceCreation(detail) => "failed to create instance: "@ + detail@,
            BootstrapError::NoDevice => "no device available"@,
            BootstrapError::NoGraphicsQueueFamily => "couldn't find a graphical queue family"@,
            BootstrapError::DeviceCreation(detail) => "failed to create device: "@ + detail@,
        }
    }

    /// The text that reports the failure.
    pub fn message(&self) -> (text: String)
        ensures
            text@ == self.message_text(),
    {
        match self {
            BootstrapError::InstanceCreation(detail) => {
                "failed to create instance: ".to_owned().concat(detail.as_str())
            },
            BootstrapError::NoDevice => "no device available".to_owned(),
            BootstrapError::NoGraphicsQueueFamily => {
                "couldn't find a graphical queue family".to_owned()
            },
            BootstrapError::DeviceCreation(detail) => {
                "failed to create device: ".to_owned().concat(detail.as_str())
            },
        }
    }
}

} // verus!
