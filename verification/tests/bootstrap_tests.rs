use std::sync::Arc;

use gpu_dispatch::bootstrap::instance_outcome;
use gpu_dispatch::bootstrap::open_instance;
use gpu_dispatch::bootstrap::survey;
use gpu_dispatch::dispatch::create_input_buffer;
use gpu_dispatch::dispatch::create_output_buffer;
use gpu_dispatch::dispatch::make_buffers;
use gpu_dispatch::dispatch::read_input;
use gpu_dispatch::dispatch::read_output;
use gpu_dispatch::session::plan_session;
use gpu_dispatch::session::BootstrapError;
use vulkano::device::Device;
use vulkano::device::DeviceExtensions;
use vulkano::device::Features;
use vulkano::instance::PhysicalDevice;

#[test]
fn a_refused_instance_is_an_instance_creation_failure() {
    match open_instance() {
        Ok(_) => {}
        Err(BootstrapError::InstanceCreation(detail)) => {
            assert!(!detail.is_empty());
        }
        Err(other) => panic!("unexpected failure: {:?}", other),
    }
}

#[test]
fn a_refused_instance_reports_loudly() {
    if let Err(error) = open_instance() {
        let message = error.message();
        assert!(message.starts_with("failed to create instance: "));
        assert!(message.len() > "failed to create instance: ".len());
    }
}

#[test]
fn accelerators_are_listed_in_the_order_of_the_platform() {
    if let Ok(instance) = open_instance() {
        let devices = survey(&instance);
        let mut i: usize = 0;
        while i < devices.len() {
            assert_eq!(devices[i].index, i);
            i += 1;
        }
    }
}

#[test]
fn the_plan_follows_from_what_the_survey_lists() {
    if let Ok(instance) = open_instance() {
        let devices = survey(&instance);
        match plan_session(&devices) {
            Ok(plan) => {
                assert!(!devices.is_empty());
                assert_eq!(plan.device_index, devices[0].index);
                let chosen = devices[0]
                    .families
                    .iter()
                    .find(|family| family.supports_graphics)
                    .unwrap();
                assert_eq!(plan.queue_family_id, chosen.id);
            }
            Err(BootstrapError::NoDevice) => assert!(devices.is_empty()),
            Err(BootstrapError::NoGraphicsQueueFamily) => {
                assert!(devices[0].families.iter().all(|family| !family.supports_graphics));
            }
            Err(other) => panic!("unexpected failure: {:?}", other),
        }
    }
}

#[test]
fn a_refusal_becomes_an_instance_creation_failure_with_its_account() {
    match instance_outcome(Err("LoadingError(LibraryLoadFailure)".to_string())) {
        Err(BootstrapError::InstanceCreation(detail)) => {
            assert_eq!(detail, "LoadingError(LibraryLoadFailure)");
        }
        other => panic!("unexpected outcome: {:?}", other.map(|_| ())),
    }
}

#[test]
fn a_refusal_without_account_is_still_an_instance_creation_failure() {
    match instance_outcome(Err(String::new())) {
        Err(BootstrapError::InstanceCreation(detail)) => assert_eq!(detail, ""),
        other => panic!("unexpected outcome: {:?}", other.map(|_| ())),
    }
}

#[test]
fn a_granted_instance_is_handed_on_as_it_is() {
    if let Ok(instance) = open_instance() {
        match instance_outcome(Ok(instance.clone())) {
            Ok(same) => assert!(Arc::ptr_eq(&same, &instance)),
            Err(error) => panic!("unexpected failure: {:?}", error),
        }
    }
}

#[test]
fn the_survey_is_what_the_driver_enumerates() {
    if let Ok(instance) = open_instance() {
        let devices = survey(&instance);
        assert_eq!(devices.len(), PhysicalDevice::enumerate(&instance).len());
        for (position, physical) in PhysicalDevice::enumerate(&instance).enumerate() {
            assert_eq!(devices[position].index, position);
            assert_eq!(devices[position].index, physical.index());
            let families = &devices[position].families;
            assert_eq!(families.len(), physical.queue_families().len());
            for (place, family) in physical.queue_families().enumerate() {
                assert_eq!(families[place].id, family.id());
                assert_eq!(families[place].supports_graphics, family.supports_graphics());
            }
        }
    }
}

#[test]
fn two_surveys_of_one_instance_agree() {
    if let Ok(instance) = open_instance() {
        let first = survey(&instance);
        let second = survey(&instance);
        assert_eq!(first.len(), second.len());
        let mut i: usize = 0;
        while i < first.len() {
            assert_eq!(first[i].index, second[i].index);
            assert_eq!(first[i].families, second[i].families);
            i += 1;
        }
    }
}

#[test]
fn buffers_are_read_back_with_the_elements_they_were_made_for() {
    if let Ok(instance) = open_instance() {
        if let Ok(plan) = plan_session(&survey(&instance)) {
            let physical = PhysicalDevice::from_index(&instance, plan.device_index).unwrap();
            let family = physical.queue_family_by_id(plan.queue_family_id).unwrap();
            let opened = Device::new(
                physical,
                &Features::none(),
                &DeviceExtensions::none(),
                [(family, 0.5)].iter().cloned(),
            );
            if let Ok((device, _queues)) = opened {
                let input = create_input_buffer(&device, vec![5, 6, 7]).unwrap();
                assert_eq!(read_input(&input).unwrap(), vec![5, 6, 7]);
                let output = create_output_buffer(&device, 4).unwrap();
                assert_eq!(read_output(&output).unwrap(), vec![0, 0, 0, 0]);
                let empty = create_input_buffer(&device, Vec::new()).unwrap();
                assert!(read_input(&empty).unwrap().is_empty());
                let buffers = make_buffers(vec![9, 8, 7, 6, 5, 4], device.clone()).unwrap();
                assert_eq!(buffers.elements(), 6);
                assert!(**buffers.device() == *device);
            }
        }
    }
}
