//! Choosing the physical device and queue family the renderer will run on.

use vstd::prelude::*;

verus! {

/// The kinds of physical device a driver can report, and a catch-all for
/// kinds this renderer does not know.
pub enum DeviceKind {
    DiscreteGpu,
    IntegratedGpu,
    VirtualGpu,
    Cpu,
    Other,
    Unknown,
}

/// The renderer's preference among device kinds: discrete first, then
/// integrated, virtual, CPU, other, and last anything unknown.
pub open spec fn device_rank(kind: DeviceKind) -> int {
    match kind {
        DeviceKind::DiscreteGpu => 0,
        DeviceKind::IntegratedGpu => 1,
        DeviceKind::VirtualGpu => 2,
        DeviceKind::Cpu => 3,
        DeviceKind::Other => 4,
        DeviceKind::Unknown => 5,
    }
}

/// What the selection reads off one queue family of a device.
pub struct QueueFamilyInfo {
    pub graphics: bool,
    pub surface_support: bool,
}

/// What the selection reads off one physical device.
pub struct DeviceInfo {
    pub device_id: u32,
    pub kind: DeviceKind,
    pub supports_required_extensions: bool,
    pub max_geometry_count: Option<u64>,
    pub queue_families: Vec<QueueFamilyInfo>,
}

/// Whether a device is on the list of devices the user allows; with no list,
/// every device is allowed.
pub open spec fn is_device_visible(visible: Option<Vec<u32>>, device_id: u32) -> bool {
    match visible {
        None => true,
        Some(v) => v@.contains(device_id),
    }
}

/// Whether a queue family can both draw and present to the surface.
pub open spec fn queue_family_ok(q: QueueFamilyInfo) -> bool {
    q.graphics && q.surface_support
}

/// Whether a device has some queue family that can draw and present.
pub open spec fn has_usable_queue_family(d: DeviceInfo) -> bool {
    exists|i: int| 0 <= i < d.queue_families@.len() && queue_family_ok(d.queue_families@[i])
}

/// Whether a device passes the property filters: it carries the required
/// extensions, reports room for at least one geometry, and is allowed by the
/// user's device list.
pub open spec fn device_eligible(d: DeviceInfo, visible: Option<Vec<u32>>) -> bool {
    &&& d.supports_required_extensions
    &&& d.max_geometry_count matches Some(c) && c > 0
    &&& is_device_visible(visible, d.device_id)
}

/// Whether a device can be selected at all: it passes the property filters
/// and offers a usable queue family.
pub open spec fn device_usable(d: DeviceInfo, visible: Option<Vec<u32>>) -> bool {
    device_eligible(d, visible) && has_usable_queue_family(d)
}

/// Whether `device_id` is allowed by the user's device list.
pub fn device_visible(visible: &Option<Vec<u32>>, device_id: u32) -> (r: bool)
    ensures
        r == is_device_visible(*visible, device_id),
{
    match visible {
        None => true,
        Some(v) => {
            let mut k: usize = 0;
            let mut found = false;
            while k < v.len()
                invariant
                    k <= v@.len(),
                    found == exists|j: int| 0 <= j < k && v@[j] == device_id,
                decreases v@.len() - k,
            {
                if v[k] == device_id {
                    found = true;
                }
                k = k + 1;
            }
            found
        },
    }
}

/// The first queue family of `d` that can draw and present, or `None` when
/// there is none.
pub fn find_queue_family(d: &DeviceInfo) -> (r: Option<usize>)
    ensures
        match r {
            Some(i) => {
                &&& i < d.queue_families@.len()
                &&& queue_family_ok(d.queue_families@[i as int])
                &&& forall|j: int| 0 <= j < i ==> !queue_family_ok(d.queue_families@[j])
            },
            None => !has_usable_queue_family(*d),
        },
{
    let mut k: usize = 0;
    while k < d.queue_families.len()
        invariant
            k <= d.queue_families@.len(),
            forall|j: int| 0 <= j < k ==> !queue_family_ok(d.queue_families@[j]),
        decreases d.queue_families@.len() - k,
    {
        let q = &d.queue_families[k];
        if q.graphics && q.surface_support {
            return Some(k);
        }
        k = k + 1;
    }
    None
}

/// Ranks a device kind for the selection.
pub fn device_kind_rank(kind: &DeviceKind) -> (r: u32)
    ensures
        r == device_rank(*kind),
{
    match kind {
        DeviceKind::DiscreteGpu => 0,
        DeviceKind::IntegratedGpu => 1,
        DeviceKind::VirtualGpu => 2,
        DeviceKind::Cpu => 3,
        DeviceKind::Other => 4,
        DeviceKind::Unknown => 5,
    }
}

/// Selects the physical device and queue family to open: among the usable
/// devices, one of the most preferred kind — the first such device in
/// enumeration order — together with its first usable queue family. Returns
/// their indices, or `None` when no device is usable.
pub fn select_physical_device(devices: &Vec<DeviceInfo>, visible_devices: &Option<Vec<u32>>) -> (r:
    Option<(usize, usize)>)
    ensures
        match r {
            Some(sel) => {
                &&& sel.0 < devices@.len()
                &&& device_usable(devices@[sel.0 as int], *visible_devices)
                &&& sel.1 < devices@[sel.0 as int].queue_families@.len()
                &&& queue_family_ok(devices@[sel.0 as int].queue_families@[sel.1 as int])
                &&& forall|j: int|
                    0 <= j < sel.1 ==> !queue_family_ok(
                        devices@[sel.0 as int].queue_families@[j],
                    )
                &&& forall|j: int|
                    0 <= j < devices@.len() && device_usable(devices@[j], *visible_devices)
                        ==> device_rank(devices@[sel.0 as int].kind) <= device_rank(
                        devices@[j].kind,
                    )
                &&& forall|j: int|
                    0 <= j < sel.0 && device_usable(devices@[j], *visible_devices)
                        ==> device_rank(devices@[sel.0 as int].kind) < device_rank(
                        devices@[j].kind,
                    )
            },
            None => forall|j: int|
                0 <= j < devices@.len() ==> !device_usable(devices@[j], *visible_devices),
        },
{
    let mut best: Option<(usize, usize)> = None;
    let mut k: usize = 0;
    while k < devices.len()
        invariant
            k <= devices@.len(),
            match best {
                Some(sel) => {
                    &&& sel.0 < k
                    &&& device_usable(devices@[sel.0 as int], *visible_devices)
                    &&& sel.1 < devices@[sel.0 as int].queue_families@.len()
                    &&& queue_family_ok(devices@[sel.0 as int].queue_families@[sel.1 as int])
                    &&& forall|j: int|
                        0 <= j < sel.1 ==> !queue_family_ok(
                            devices@[sel.0 as int].queue_families@[j],
                        )
                    &&& forall|j: int|
                        0 <= j < k && device_usable(devices@[j], *visible_devices)
                            ==> device_rank(devices@[sel.0 as int].kind) <= device_rank(
                            devices@[j].kind,
                        )
                    &&& forall|j: int|
                        0 <= j < sel.0 && device_usable(devices@[j], *visible_devices)
                            ==> device_rank(devices@[sel.0 as int].kind) < device_rank(
                            devices@[j].kind,
                        )
                },
                None => forall|j: int|
                    0 <= j < k ==> !device_usable(devices@[j], *visible_devices),
            },
        decreases devices@.len() - k,
    {
        let d = &devices[k];
        let geometry_ok = match d.max_geometry_count {
            Some(c) => c > 0,
            None => false,
        };
        if d.supports_required_extensions && geometry_ok && device_visible(
            visible_devices,
            d.device_id,
        ) {
            match find_queue_family(d) {
                Some(qi) => {
                    let rank = device_kind_rank(&d.kind);
                    let take = match best {
                        None => true,
                        Some(sel) => rank < device_kind_rank(&devices[sel.0].kind),
                    };
                    if take {
                        best = Some((k, qi));
                    }
                },
                None => {},
            }
        }
        k = k + 1;
    }
    best
}

} // verus!
