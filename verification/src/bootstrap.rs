//! Opening the platform instance and surveying its accelerators.

use std::sync::Arc;
use vstd::prelude::*;
use vulkano::instance::Instance;
use crate::driver::create_instance;
use crate::driver::device_count;
use crate::driver::listed_families;
use crate::driver::queue_families_of;
use crate::session::instance_extensions;
use crate::session::BootstrapError;
use crate::session::DeviceInfo;
use crate::session::QueueFamilyInfo;

verus! {

/// Opens the platform instance with the required extensions. A refusal is
/// an instance-creation failure that carries the driver's account. Whether
/// the platform grants the instance is its own decision.
pub fn open_instance() -> (opened: Result<Arc<Instance>, BootstrapError>)
    ensures
        opened matches Err(e) ==> e is InstanceCreation,
{
    instance_outcome(create_instance(&instance_extensions()))
}

/// Lists the accelerators of the instance in the platform's order, each
/// with its index in that order and its queue families: all that the
/// instance lists, and nothing else.
pub fn survey(instance: &Arc<Instance>) -> (devices: Vec<DeviceInfo>)
    ensures
        is_survey_of(devices@, listed_families(**instance)),
{
    let count: usize = device_count(instance);
    let mut devices: Vec<DeviceInfo> = Vec::new();
    let mut index: usize = 0;
    while index < count
        invariant
            index <= count,
            count == listed_families(**instance).len(),
            devices.len() == index,
            forall|i: int|
                0 <= i < devices.len() ==> describes(
                    #[trigger] devices[i],
                    i,
                    listed_families(**instance)[i],
                ),
        decreases count - index,
    {
        match queue_families_of(instance, index) {
            Some(families) => {
                devices.push(DeviceInfo { index, families });
            },
            None => {
                // The instance lists an accelerator at every index below its count.
                return devices;
            },
        }
        index = index + 1;
    }
    devices
}

/// `device` stands for the accelerator at position `i` of a listing, whose
/// queue families are `families`.
pub open spec fn describes(device: DeviceInfo, i: int, families: Seq<QueueFamilyInfo>) -> bool {
    device.index == i && device.families@ == families
}

/// `devices` is the survey of a listing: one entry for each accelerator
/// listed, in order, each with its position as its index and with the queue
/// families that the listing gives it.
pub open spec fn is_survey_of(devices: Seq<DeviceInfo>, listed: Seq<Seq<QueueFamilyInfo>>) -> bool {
    &&& devices.len() == listed.len()
    &&& forall|i: int| 0 <= i < devices.len() ==> describes(#[trigger] devices[i], i, listed[i])
}

/// What opening the instance returns for what the platform answered: the
/// instance where it granted one, and where it refused, an
/// instance-creation failure with the driver's account of the refusal.
pub fn instance_outcome(made: Result<Arc<Instance>, String>) -> (opened: Result<
    Arc<Instance>,
    BootstrapError,
>)
    ensures
        match made {
            Ok(instance) => opened matches Ok(same) && same == instance,
            Err(detail) => opened matches Err(BootstrapError::InstanceCreation(text)) && text@
                == detail@,
        },
{
    match made {
        Ok(instance) => Ok(instance),
        Err(detail) => Err(BootstrapError::InstanceCreation(detail)),
    }
}

} // verus!
