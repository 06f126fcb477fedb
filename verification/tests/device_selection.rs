use raytracer::vulkan::device::{
    device_visible, find_queue_family, select_physical_device, DeviceInfo, DeviceKind,
    QueueFamilyInfo,
};

fn family(graphics: bool, surface_support: bool) -> QueueFamilyInfo {
    QueueFamilyInfo { graphics, surface_support }
}

fn device(device_id: u32, kind: DeviceKind, families: Vec<QueueFamilyInfo>) -> DeviceInfo {
    DeviceInfo {
        device_id,
        kind,
        supports_required_extensions: true,
        max_geometry_count: Some(1),
        queue_families: families,
    }
}

#[test]
fn visibility_list() {
    assert!(device_visible(&None, 42));
    assert!(device_visible(&Some(vec![1, 42, 7]), 42));
    assert!(!device_visible(&Some(vec![1, 7]), 42));
    assert!(!device_visible(&Some(Vec::new()), 42));
}

#[test]
fn first_usable_queue_family() {
    let d = device(
        0,
        DeviceKind::DiscreteGpu,
        vec![family(true, false), family(false, true), family(true, true), family(true, true)],
    );
    assert_eq!(find_queue_family(&d), Some(2));
    let no_family = device(0, DeviceKind::DiscreteGpu, vec![family(true, false), family(false, true)]);
    assert_eq!(find_queue_family(&no_family), None);
}

#[test]
fn no_devices_means_no_selection() {
    assert_eq!(select_physical_device(&Vec::new(), &None), None);
}

#[test]
fn discrete_beats_integrated_whatever_the_order() {
    let devices = vec![
        device(1, DeviceKind::IntegratedGpu, vec![family(true, true)]),
        device(2, DeviceKind::Cpu, vec![family(true, true)]),
        device(3, DeviceKind::DiscreteGpu, vec![family(false, false), family(true, true)]),
    ];
    assert_eq!(select_physical_device(&devices, &None), Some((2, 1)));
}

#[test]
fn equally_ranked_devices_take_the_first() {
    let devices = vec![
        device(1, DeviceKind::DiscreteGpu, vec![family(true, true)]),
        device(2, DeviceKind::DiscreteGpu, vec![family(true, true)]),
    ];
    assert_eq!(select_physical_device(&devices, &None), Some((0, 0)));
}

#[test]
fn devices_failing_the_filters_are_passed_over() {
    let mut no_ext = device(1, DeviceKind::DiscreteGpu, vec![family(true, true)]);
    no_ext.supports_required_extensions = false;
    let mut no_geometry = device(2, DeviceKind::DiscreteGpu, vec![family(true, true)]);
    no_geometry.max_geometry_count = Some(0);
    let mut unreported_geometry = device(3, DeviceKind::DiscreteGpu, vec![family(true, true)]);
    unreported_geometry.max_geometry_count = None;
    let no_queue = device(4, DeviceKind::DiscreteGpu, vec![family(true, false)]);
    let usable = device(5, DeviceKind::Cpu, vec![family(true, true)]);
    let devices = vec![no_ext, no_geometry, unreported_geometry, no_queue, usable];
    assert_eq!(select_physical_device(&devices, &None), Some((4, 0)));
}

#[test]
fn hidden_devices_are_passed_over() {
    let devices = vec![
        device(1, DeviceKind::DiscreteGpu, vec![family(true, true)]),
        device(2, DeviceKind::IntegratedGpu, vec![family(true, true)]),
    ];
    assert_eq!(select_physical_device(&devices, &Some(vec![2])), Some((1, 0)));
    assert_eq!(select_physical_device(&devices, &Some(vec![3])), None);
    assert_eq!(select_physical_device(&devices, &Some(vec![1, 2])), Some((0, 0)));
}
