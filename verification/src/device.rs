//! Which devices are hosts, and which host serves a device.

use crate::dlpack::{DLDevice, DLDeviceType};
use vstd::prelude::*;

verus! {

/// The kinds of device whose memory the host itself addresses.
pub open spec fn is_host_type(device_type: DLDeviceType) -> bool {
    ||| device_type == DLDeviceType::kDLCPU
    ||| device_type == DLDeviceType::kDLCUDAHost
    ||| device_type == DLDeviceType::kDLROCMHost
}

/// The kind of host memory from which a device is filled. CUDA and ROCm devices
/// have pinned host memory of their own, all others use plain CPU memory, and a
/// host has no host.
pub open spec fn matching_host(device_type: DLDeviceType) -> Option<DLDeviceType> {
    if is_host_type(device_type) {
        None
    } else if device_type == DLDeviceType::kDLCUDA || device_type
        == DLDeviceType::kDLCUDAManaged {
        Some(DLDeviceType::kDLCUDAHost)
    } else if device_type == DLDeviceType::kDLROCM {
        Some(DLDeviceType::kDLROCMHost)
    } else {
        Some(DLDeviceType::kDLCPU)
    }
}

/// The kind of host memory that serves `device`, or `None` for a host.
pub fn host_of_device(device: DLDevice) -> (host: Option<DLDeviceType>)
    ensures
        host == matching_host(device.device_type),
{
    match device.device_type {
        DLDeviceType::kDLCPU => None,
        DLDeviceType::kDLCUDA => Some(DLDeviceType::kDLCUDAHost),
        DLDeviceType::kDLCUDAHost => None,
        DLDeviceType::kDLOpenCL => Some(DLDeviceType::kDLCPU),
        DLDeviceType::kDLVulkan => Some(DLDeviceType::kDLCPU),
        DLDeviceType::kDLMetal => Some(DLDeviceType::kDLCPU),
        DLDeviceType::kDLVPI => Some(DLDeviceType::kDLCPU),
        DLDeviceType::kDLROCM => Some(DLDeviceType::kDLROCMHost),
        DLDeviceType::kDLROCMHost => None,
        DLDeviceType::kDLExtDev => Some(DLDeviceType::kDLCPU),
        DLDeviceType::kDLCUDAManaged => Some(DLDeviceType::kDLCUDAHost),
        DLDeviceType::kDLOneAPI => Some(DLDeviceType::kDLCPU),
        DLDeviceType::kDLWebGPU => Some(DLDeviceType::kDLCPU),
        DLDeviceType::kDLHexagon => Some(DLDeviceType::kDLCPU),
        DLDeviceType::kDLMAIA => Some(DLDeviceType::kDLCPU),
        DLDeviceType::kDLTrn => Some(DLDeviceType::kDLCPU),
    }
}

/// Whether the host itself addresses the memory of `device`.
pub fn is_host(device: DLDevice) -> (host: bool)
    ensures
        host == is_host_type(device.device_type),
{
    host_of_device(device).is_none()
}

/// The host that serves a device is itself a host, and exactly the devices that
/// are no hosts have one.
pub proof fn law_matching_host_is_host(device_type: DLDeviceType)
    ensures
        matching_host(device_type) is None <==> is_host_type(device_type),
        matching_host(device_type) matches Some(host) ==> is_host_type(host),
{
}

/// The host of every kind of device. Exactly the kinds without one are hosts.
pub proof fn law_hosts_of_all_kinds(device_type: DLDeviceType)
    ensures
        is_host_type(device_type) <==> matching_host(device_type) is None,
        matching_host(device_type) == match device_type {
            DLDeviceType::kDLCPU => None,
            DLDeviceType::kDLCUDA => Some(DLDeviceType::kDLCUDAHost),
            DLDeviceType::kDLCUDAHost => None,
            DLDeviceType::kDLOpenCL => Some(DLDeviceType::kDLCPU),
            DLDeviceType::kDLVulkan => Some(DLDeviceType::kDLCPU),
            DLDeviceType::kDLMetal => Some(DLDeviceType::kDLCPU),
            DLDeviceType::kDLVPI => Some(DLDeviceType::kDLCPU),
            DLDeviceType::kDLROCM => Some(DLDeviceType::kDLROCMHost),
            DLDeviceType::kDLROCMHost => None,
            DLDeviceType::kDLExtDev => Some(DLDeviceType::kDLCPU),
            DLDeviceType::kDLCUDAManaged => Some(DLDeviceType::kDLCUDAHost),
            DLDeviceType::kDLOneAPI => Some(DLDeviceType::kDLCPU),
            DLDeviceType::kDLWebGPU => Some(DLDeviceType::kDLCPU),
            DLDeviceType::kDLHexagon => Some(DLDeviceType::kDLCPU),
            DLDeviceType::kDLMAIA => Some(DLDeviceType::kDLCPU),
            DLDeviceType::kDLTrn => Some(DLDeviceType::kDLCPU),
        },
{
}

} // verus!
