use tvm_runtime::device::{host_of_device, is_host};
use tvm_runtime::device_api::{
    get_device_api, DeviceAlloc, DeviceCall, DeviceCopy, DeviceFree, DEFAULT_STREAM,
};
use tvm_runtime::dlpack::{DLDataType, DLDevice, DLDeviceType, DLTensor};
use tvm_runtime::nd_alloc::DeviceNDAlloc;

const FLOAT32: DLDataType = DLDataType {
    code: 2,
    bits: 32,
    lanes: 1,
};

fn device(device_type: DLDeviceType, device_id: i32) -> DLDevice {
    DLDevice {
        device_type,
        device_id,
    }
}

fn described(data: usize, device: DLDevice, dtype: DLDataType, shape: Vec<i64>) -> DLTensor {
    DLTensor {
        data,
        device,
        ndim: shape.len() as i32,
        dtype,
        shape,
        strides: None,
        byte_offset: 0,
    }
}

#[test]
fn hosts_of_all_device_types() {
    let expected = [
        (DLDeviceType::kDLCPU, None),
        (DLDeviceType::kDLCUDA, Some(DLDeviceType::kDLCUDAHost)),
        (DLDeviceType::kDLCUDAHost, None),
        (DLDeviceType::kDLOpenCL, Some(DLDeviceType::kDLCPU)),
        (DLDeviceType::kDLVulkan, Some(DLDeviceType::kDLCPU)),
        (DLDeviceType::kDLMetal, Some(DLDeviceType::kDLCPU)),
        (DLDeviceType::kDLVPI, Some(DLDeviceType::kDLCPU)),
        (DLDeviceType::kDLROCM, Some(DLDeviceType::kDLROCMHost)),
        (DLDeviceType::kDLROCMHost, None),
        (DLDeviceType::kDLExtDev, Some(DLDeviceType::kDLCPU)),
        (DLDeviceType::kDLCUDAManaged, Some(DLDeviceType::kDLCUDAHost)),
        (DLDeviceType::kDLOneAPI, Some(DLDeviceType::kDLCPU)),
        (DLDeviceType::kDLWebGPU, Some(DLDeviceType::kDLCPU)),
        (DLDeviceType::kDLHexagon, Some(DLDeviceType::kDLCPU)),
        (DLDeviceType::kDLMAIA, Some(DLDeviceType::kDLCPU)),
        (DLDeviceType::kDLTrn, Some(DLDeviceType::kDLCPU)),
    ];
    for (device_type, host) in expected {
        assert_eq!(host_of_device(device(device_type, 5)), host);
        assert_eq!(is_host(device(device_type, 5)), host.is_none());
        if let Some(host) = host {
            assert!(is_host(device(host, 0)));
        }
    }
}

#[test]
fn item_sizes_round_up_to_whole_bytes() {
    let sized = |bits: u8, lanes: u16| DLDataType {
        code: 0,
        bits,
        lanes,
    };
    assert_eq!(FLOAT32.item_size(), 4);
    assert_eq!(sized(4, 1).item_size(), 1);
    assert_eq!(sized(4, 3).item_size(), 2);
    assert_eq!(sized(32, 4).item_size(), 16);
    assert_eq!(sized(255, 65535).item_size(), 2088929);
    assert_eq!(sized(8, 0).item_size(), 0);
    assert_eq!(sized(4, 3).lane_bytes(), 0);
    assert_eq!(sized(64, 2).lane_bytes(), 8);
    assert_eq!(
        DLDataType::byte(),
        DLDataType {
            code: 1,
            bits: 8,
            lanes: 1
        }
    );
}

#[test]
fn allocation_asks_for_all_elements() {
    let cuda = device(DLDeviceType::kDLCUDA, 1);
    let mut allocator = DeviceNDAlloc {};
    let prototype = described(0, cuda, FLOAT32, vec![2, 3, 5]);
    let request = allocator.alloc_data(&prototype);
    assert_eq!(
        request,
        DeviceAlloc {
            device: cuda,
            size: 120,
            align: 64,
            dtype: FLOAT32
        }
    );
    assert_eq!(
        request.first_call(),
        DeviceCall::Get {
            device: cuda,
            allow_missing: 0
        }
    );
    assert_eq!(
        request.call_on(77),
        DeviceCall::AllocDataSpace {
            handle: 77,
            device: cuda,
            size: 120,
            align: 64,
            dtype: FLOAT32
        }
    );
    assert_eq!(DeviceNDAlloc::MIN_ALIGN, 64);
}

#[test]
fn allocation_of_scalars_and_of_nothing() {
    let cpu = device(DLDeviceType::kDLCPU, 0);
    let mut allocator = DeviceNDAlloc {};
    assert_eq!(
        allocator
            .alloc_data(&described(0, cpu, FLOAT32, vec![]))
            .size,
        4
    );
    assert_eq!(
        allocator
            .alloc_data(&described(0, cpu, FLOAT32, vec![4, 0, 9]))
            .size,
        0
    );
}

#[test]
fn sizes_that_cannot_be_allocated() {
    let byte = DLDataType::byte();
    let most = isize::MAX as i64 - 63;
    assert_eq!(
        DeviceNDAlloc::checked_size(&[most], byte),
        Some(most as usize)
    );
    assert_eq!(DeviceNDAlloc::checked_size(&[most + 1], byte), None);
    assert_eq!(DeviceNDAlloc::checked_size(&[-1], byte), None);
    assert_eq!(DeviceNDAlloc::checked_size(&[-2, -3], byte), Some(6));
    assert_eq!(DeviceNDAlloc::checked_size(&[i64::MAX, 2], byte), None);
    assert_eq!(DeviceNDAlloc::checked_size(&[i64::MAX, 2, 0], byte), None);
    assert_eq!(DeviceNDAlloc::checked_size(&[0, i64::MAX, 2], byte), Some(0));
    let no_lanes = DLDataType {
        code: 1,
        bits: 8,
        lanes: 0,
    };
    assert_eq!(DeviceNDAlloc::checked_size(&[-1], no_lanes), Some(0));
}

#[test]
fn storage_is_freed_where_it_was_allocated() {
    let metal = device(DLDeviceType::kDLMetal, 2);
    let mut allocator = DeviceNDAlloc {};
    let mut tensor = described(4096, metal, FLOAT32, vec![8]);
    tensor.byte_offset = 16;
    let free = allocator.free_data(&tensor);
    assert_eq!(
        free,
        DeviceFree {
            device: metal,
            data: 4096
        }
    );
    assert_eq!(free.first_call(), get_device_api(metal));
    assert_eq!(
        free.call_on(9),
        DeviceCall::FreeDataSpace {
            handle: 9,
            device: metal,
            data: 4096
        }
    );
}

#[test]
fn device_copy_is_waited_for_and_returns_its_handle() {
    let vulkan = device(DLDeviceType::kDLVulkan, 0);
    let cpu = device(DLDeviceType::kDLCPU, 0);
    let from = || described(16, cpu, FLOAT32, vec![3]);
    let to = || described(32, vulkan, FLOAT32, vec![3]);
    let copy = DeviceCopy {
        device: vulkan,
        from: from(),
        to: to(),
    };
    assert_eq!(copy.first_call(), get_device_api(vulkan));
    assert_eq!(
        copy.calls_on(5),
        vec![
            DeviceCall::CopyDataFromTo {
                handle: 5,
                from: from(),
                to: to(),
                stream: DEFAULT_STREAM
            },
            DeviceCall::StreamSync {
                handle: 5,
                device: vulkan,
                stream: 0
            },
            DeviceCall::Destroy { handle: 5 },
        ]
    );
}
