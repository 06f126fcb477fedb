//! Names for the PCI vendor identifiers reported by graphics devices.

use vstd::prelude::*;

verus! {

/// The name under which a PCI vendor identifier is reported.
pub open spec fn vendor_name(vendor_id: u32) -> Seq<char> {
    if vendor_id == 0x1002 {
        "AMD"@
    } else if vendor_id == 0x1010 {
        "ImgTec"@
    } else if vendor_id == 0x10DE {
        "NVIDIA"@
    } else if vendor_id == 0x13B5 {
        "ARM"@
    } else if vendor_id == 0x5143 {
        "Qualcomm"@
    } else if vendor_id == 0x8086 {
        "INTEL"@
    } else {
        "UnknownVendor"@
    }
}

/// The vendor's name, or a placeholder for an identifier not on the list.
pub fn vendor_id_string(vendor_id: u32) -> (r: &'static str)
    ensures
        r@ == vendor_name(vendor_id),
{
    if vendor_id == 0x1002 {
        "AMD"
    } else if vendor_id == 0x1010 {
        "ImgTec"
    } else if vendor_id == 0x10DE {
        "NVIDIA"
    } else if vendor_id == 0x13B5 {
        "ARM"
    } else if vendor_id == 0x5143 {
        "Qualcomm"
    } else if vendor_id == 0x8086 {
        "INTEL"
    } else {
        "UnknownVendor"
    }
}

/// Hands the vendor's name to `f`, for callers that only want to borrow it.
pub fn with_vendor_id_string<F: FnOnce(&'static str)>(vendor_id: u32, f: F)
    requires
        forall|s: &'static str| s@ == vendor_name(vendor_id) ==> #[trigger] call_requires(f, (s,)),
    ensures
        exists|s: &'static str| s@ == vendor_name(vendor_id) && #[trigger] call_ensures(f, (s,), ()),
{
    let s = vendor_id_string(vendor_id);
    f(s);
}

} // verus!
