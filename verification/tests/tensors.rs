use tvm_runtime::device_api::{DeviceAlloc, DeviceCopy};
use tvm_runtime::dlpack::{DLDataType, DLDevice, DLDeviceType, DLTensor};
use tvm_runtime::extents::{checked_product, checked_row_major, checked_strides};
use tvm_runtime::host_copy::{DataSlice, HostCopy};
use tvm_runtime::tensor::{CopyPlan, ErrorKind, SliceError, Tensor};

const FLOAT32: DLDataType = DLDataType {
    code: 2,
    bits: 32,
    lanes: 1,
};

fn device(device_type: DLDeviceType, device_id: i32) -> DLDevice {
    DLDevice {
        device_type,
        device_id,
    }
}

fn cpu() -> DLDevice {
    device(DLDeviceType::kDLCPU, 0)
}

fn cuda() -> DLDevice {
    device(DLDeviceType::kDLCUDA, 3)
}

fn new_tensor(shape: &[i64], dtype: DLDataType, device: DLDevice, data: usize) -> Tensor {
    assert!(Tensor::can_create(shape, dtype));
    Tensor::empty(shape, dtype, device).with_data(data)
}

fn host_copy(plan: CopyPlan) -> HostCopy {
    match plan {
        CopyPlan::Host(copy) => copy,
        CopyPlan::Device(_) => panic!("planned for the device API"),
    }
}

fn device_copy(plan: CopyPlan) -> DeviceCopy {
    match plan {
        CopyPlan::Device(copy) => copy,
        CopyPlan::Host(_) => panic!("planned for the host"),
    }
}

#[test]
fn products_and_strides_of_extents() {
    assert_eq!(checked_product(&[]), Some(1));
    assert_eq!(checked_product(&[2, 3, 4]), Some(24));
    assert_eq!(checked_product(&[-2, 3]), Some(-6));
    assert_eq!(checked_product(&[i64::MAX, 2]), None);
    assert_eq!(checked_product(&[i64::MIN, -1]), None);
    assert_eq!(checked_strides(&[]), Some(vec![]));
    assert_eq!(checked_strides(&[2, 3, 4]), Some(vec![12, 4, 1]));
    assert_eq!(checked_strides(&[5, 0, 4]), Some(vec![0, 4, 1]));
    assert_eq!(checked_strides(&[0, i64::MAX, 2]), None);
    assert_eq!(checked_row_major(&[2, 3], &[3, 1]), Some(true));
    assert_eq!(checked_row_major(&[2, 3], &[1, 2]), Some(false));
    assert_eq!(checked_row_major(&[1, 3], &[9, 1]), Some(false));
    assert_eq!(checked_row_major(&[0, i64::MAX, 2], &[0, 2, 1]), None);
    assert_eq!(checked_row_major(&[0, i64::MAX, 2], &[0, 9, 1]), Some(false));
}

#[test]
fn new_tensor_is_laid_out_in_row_major_order() {
    let empty = Tensor::empty(&[2, 3, 4], FLOAT32, cuda());
    assert_eq!(
        empty.storage(),
        DeviceAlloc {
            device: cuda(),
            size: 96,
            align: 64,
            dtype: FLOAT32
        }
    );
    let mut tensor = empty.with_data(0x1000);
    assert_eq!(tensor.shape(), &[2, 3, 4]);
    assert_eq!(tensor.strides(), &[12, 4, 1]);
    assert_eq!(tensor.dtype(), FLOAT32);
    assert_eq!(tensor.device(), cuda());
    assert_eq!(tensor.ndim(), 3);
    assert_eq!(tensor.numel(), 24);
    assert_eq!(tensor.copy_size(), Some(96));
    assert_eq!(tensor.data_ptr(), 0x1000);
    assert_eq!(tensor.data_ptr_mut(), 0x1000);
    assert!(tensor.is_contiguous());
}

#[test]
fn every_element_has_its_own_place_in_storage() {
    let tensor = new_tensor(&[2, 3, 4], FLOAT32, cpu(), 0);
    let strides = tensor.strides();
    let mut seen = vec![false; tensor.numel()];
    for i in 0..2 {
        for j in 0..3 {
            for k in 0..4 {
                let place = (i * strides[0] + j * strides[1] + k * strides[2]) as usize;
                assert!(!seen[place]);
                seen[place] = true;
            }
        }
    }
}

#[test]
fn tensor_like_another_takes_its_layout() {
    let other = Tensor::from_parts(vec![2, 3], vec![1, 2], FLOAT32, cpu(), 64).unwrap();
    let empty = Tensor::empty_like(&other, cuda());
    assert_eq!(empty.storage().size, 24);
    let tensor = empty.with_data(128);
    assert_eq!(tensor.shape(), &[2, 3]);
    assert_eq!(tensor.strides(), &[3, 1]);
    assert_eq!(tensor.dtype(), FLOAT32);
    assert_eq!(tensor.device(), cuda());
}

#[test]
fn clone_is_over_the_same_storage() {
    let tensor = new_tensor(&[4], FLOAT32, cuda(), 0x2000);
    let clone = tensor.clone();
    assert_eq!(clone.dltensor(), tensor.dltensor());
    assert_eq!(clone.data_ptr(), 0x2000);
}

#[test]
fn description_of_tensors() {
    let mut tensor = new_tensor(&[2, 3], FLOAT32, cuda(), 0x3000);
    let expected = DLTensor {
        data: 0x3000,
        device: cuda(),
        ndim: 2,
        dtype: FLOAT32,
        shape: vec![2, 3],
        strides: Some(vec![3, 1]),
        byte_offset: 0,
    };
    assert_eq!(tensor.dltensor(), expected);
    assert_eq!(tensor.dltensor_mut(), expected);
    let scalar = new_tensor(&[], FLOAT32, cpu(), 8).dltensor();
    assert_eq!(scalar.ndim, 0);
    assert_eq!(scalar.strides, None);
}

#[test]
fn layouts_that_tensors_have() {
    let part = |shape: Vec<i64>, strides: Vec<i64>| {
        Tensor::from_parts(shape, strides, FLOAT32, cpu(), 0)
    };
    assert!(part(vec![2, 3], vec![1, 2]).is_some());
    assert!(part(vec![2, 3], vec![1]).is_none());
    assert_eq!(part(vec![-1], vec![1]).unwrap().numel(), usize::MAX);
    let uncountable = part(vec![i64::MAX, 2], vec![2, 1]).unwrap();
    assert_eq!(uncountable.copy_size(), None);
    assert_eq!(uncountable.dltensor().shape, vec![i64::MAX, 2]);
}

#[test]
fn shapes_that_can_be_created() {
    let no_lanes = DLDataType {
        code: 1,
        bits: 8,
        lanes: 0,
    };
    assert!(Tensor::can_create(&[], FLOAT32));
    assert!(Tensor::can_create(&[-2, -3], FLOAT32));
    assert!(!Tensor::can_create(&[-1], FLOAT32));
    assert!(!Tensor::can_create(&[i64::MAX], FLOAT32));
    assert!(!Tensor::can_create(&[0, i64::MAX, 2], FLOAT32));
    assert!(Tensor::can_create(&[-1], no_lanes));
    let empty = Tensor::empty(&[-1], no_lanes, cpu());
    assert_eq!(empty.storage().size, 0);
    assert_eq!(empty.with_data(8).numel(), usize::MAX);
}

#[test]
fn device_copies_need_no_count() {
    let shape = vec![0, 1 << 62, 4];
    let strides = vec![0, 4, 1];
    let far = Tensor::from_parts(shape.clone(), strides.clone(), FLOAT32, cuda(), 2).unwrap();
    let near = Tensor::from_parts(shape.clone(), strides.clone(), FLOAT32, cpu(), 1).unwrap();
    assert_eq!(
        far.dltensor(),
        DLTensor {
            data: 2,
            device: cuda(),
            ndim: 3,
            dtype: FLOAT32,
            shape,
            strides: Some(strides),
            byte_offset: 0
        }
    );
    assert_eq!(far.numel(), 0);
    let down = device_copy(near.clone().copy_from(&far).unwrap());
    assert_eq!(down.from, far.dltensor());
    assert_eq!(down.to, near.dltensor());
    let src = DataSlice { data: 77, len: 0 };
    let up = device_copy(far.clone().copy_from_slice(src).unwrap());
    assert_eq!(up.to, far.dltensor());
    assert_eq!(up.from.shape, far.shape());

    let byte = DLDataType::byte();
    let bytes =
        Tensor::from_parts(vec![0, 1 << 62, 4], vec![0, 4, 1], byte, cpu(), 1).unwrap();
    assert!(near.can_slice(byte));
    assert!(!bytes.can_slice(byte));
    assert_eq!(
        near.data_as_slice(byte),
        Err(SliceError::TypeMismatch {
            actual: FLOAT32,
            expected: byte
        })
    );
}

#[test]
fn slices_of_tensors() {
    let byte = DLDataType::byte();
    let mut bytes = new_tensor(&[2, 5], byte, cpu(), 0x40);
    let whole = DataSlice {
        data: 0x40,
        len: 10,
    };
    assert_eq!(bytes.data_as_slice(byte), Ok(whole));
    assert_eq!(bytes.data_as_slice_mut(byte), Ok(whole));
    assert_eq!(
        bytes.data_as_slice(FLOAT32),
        Err(SliceError::TypeMismatch {
            actual: byte,
            expected: FLOAT32
        })
    );
    assert_eq!(
        new_tensor(&[2], byte, cuda(), 0).data_as_slice(byte),
        Err(SliceError::NotOnCpu)
    );
    let pinned = device(DLDeviceType::kDLCUDAHost, 0);
    assert_eq!(
        new_tensor(&[2], byte, pinned, 0).data_as_slice(byte),
        Err(SliceError::NotOnCpu)
    );
    let turned = Tensor::from_parts(vec![2, 3], vec![1, 2], byte, cpu(), 0).unwrap();
    assert!(!turned.is_contiguous());
    assert_eq!(turned.data_as_slice(byte), Err(SliceError::NotContiguous));
    let far = Tensor::from_parts(vec![2, 3], vec![1, 2], FLOAT32, cuda(), 0).unwrap();
    let error = far.data_as_slice(byte).unwrap_err();
    assert_eq!(
        error,
        SliceError::TypeMismatch {
            actual: FLOAT32,
            expected: byte
        }
    );
    assert_eq!(error.kind(), ErrorKind::TypeError);
    assert_eq!(SliceError::NotOnCpu.kind(), ErrorKind::RuntimeError);
    assert_eq!(SliceError::NotContiguous.kind(), ErrorKind::RuntimeError);
}

#[test]
fn host_copy_moves_all_bytes() {
    let byte = DLDataType::byte();
    let src = new_tensor(&[2, 3], byte, cpu(), 100);
    let mut dst = new_tensor(&[6], byte, cpu(), 200);
    let copy = host_copy(dst.copy_from(&src).unwrap());
    assert_eq!(
        copy,
        HostCopy {
            from: DataSlice { data: 100, len: 6 },
            to: DataSlice { data: 200, len: 6 },
            nbytes: 6
        }
    );
    let mut to = [0u8; 6];
    copy.run(&mut to, &[1, 2, 3, 4, 5, 6]);
    assert_eq!(to, [1, 2, 3, 4, 5, 6]);
}

#[test]
fn host_copy_leaves_the_rest_alone() {
    let copy = HostCopy {
        from: DataSlice { data: 0, len: 3 },
        to: DataSlice { data: 8, len: 4 },
        nbytes: 2,
    };
    let mut to = [9u8; 4];
    copy.run(&mut to, &[1, 2, 3]);
    assert_eq!(to, [1, 2, 9, 9]);
}

#[test]
fn host_copy_is_refused_source_first() {
    let byte = DLDataType::byte();
    let floats = new_tensor(&[2], FLOAT32, cpu(), 0);
    let bytes = new_tensor(&[8], byte, cpu(), 0);
    let pinned = new_tensor(&[8], byte, device(DLDeviceType::kDLROCMHost, 0), 0);
    let mismatch = SliceError::TypeMismatch {
        actual: FLOAT32,
        expected: byte,
    };
    assert_eq!(bytes.clone().copy_from(&floats), Err(mismatch));
    assert_eq!(floats.clone().copy_from(&bytes), Err(mismatch));
    assert_eq!(pinned.clone().copy_from(&floats), Err(mismatch));
    assert_eq!(bytes.clone().copy_from(&pinned), Err(SliceError::NotOnCpu));
    assert_eq!(pinned.clone().copy_from(&bytes), Err(SliceError::NotOnCpu));
    let turned = Tensor::from_parts(vec![2, 4], vec![1, 2], byte, cpu(), 0).unwrap();
    assert_eq!(
        bytes.clone().copy_from(&turned),
        Err(SliceError::NotContiguous)
    );
}

#[test]
fn copies_that_the_device_api_makes() {
    let near = new_tensor(&[2], FLOAT32, cpu(), 1);
    let far = new_tensor(&[2], FLOAT32, cuda(), 2);
    let other = new_tensor(&[2], FLOAT32, device(DLDeviceType::kDLCUDA, 0), 3);

    let down = device_copy(near.clone().copy_from(&far).unwrap());
    assert_eq!(down.device, cuda());
    assert_eq!(down.from, far.dltensor());
    assert_eq!(down.to, near.dltensor());

    let up = device_copy(far.clone().copy_from(&near).unwrap());
    assert_eq!(up.device, cuda());
    assert_eq!(up.from, near.dltensor());
    assert_eq!(up.to, far.dltensor());

    let across = device_copy(other.clone().copy_from(&far).unwrap());
    assert_eq!(across.device, device(DLDeviceType::kDLCUDA, 0));
    assert_eq!(across.from, far.dltensor());
    assert_eq!(across.to, other.dltensor());
}

#[test]
fn copy_from_a_slice_to_a_host() {
    let byte = DLDataType::byte();
    let src = DataSlice { data: 77, len: 4 };
    let mut dst = new_tensor(&[4], byte, cpu(), 200);
    let copy = host_copy(dst.copy_from_slice(src).unwrap());
    assert_eq!(copy.from, src);
    assert_eq!(copy.to, DataSlice { data: 200, len: 4 });
    let mut to = [0u8; 4];
    copy.run(&mut to, &[4, 3, 2, 1]);
    assert_eq!(to, [4, 3, 2, 1]);

    let mut float = new_tensor(&[1], FLOAT32, cpu(), 0);
    assert_eq!(
        float.copy_from_slice(src),
        Err(SliceError::TypeMismatch {
            actual: FLOAT32,
            expected: byte
        })
    );
}

#[test]
fn copy_from_a_slice_to_a_device() {
    let src = DataSlice { data: 77, len: 8 };
    let hosts = [
        (DLDeviceType::kDLCUDA, DLDeviceType::kDLCUDAHost),
        (DLDeviceType::kDLROCM, DLDeviceType::kDLROCMHost),
        (DLDeviceType::kDLMetal, DLDeviceType::kDLCPU),
    ];
    for (kind, host) in hosts {
        let mut dst = new_tensor(&[2], FLOAT32, device(kind, 4), 0x500);
        let copy = device_copy(dst.copy_from_slice(src).unwrap());
        assert_eq!(copy.device, device(kind, 4));
        assert_eq!(copy.to, dst.dltensor());
        assert_eq!(
            copy.from,
            DLTensor {
                data: 77,
                device: device(host, 0),
                ndim: 1,
                dtype: FLOAT32,
                shape: vec![2],
                strides: Some(vec![1]),
                byte_offset: 0
            }
        );
    }
}

#[test]
fn reshape_keeps_the_bytes_and_can_be_undone() {
    let source = new_tensor(&[2, 3], DLDataType::byte(), cpu(), 100);
    let reshape = source.reshape(&[3, 2, 1]).unwrap();
    assert_eq!(reshape.storage().size, 6);
    assert_eq!(reshape.storage().device, cpu());
    let (result, plan) = reshape.with_data(200);
    assert_eq!(result.shape(), &[3, 2, 1]);
    assert_eq!(result.strides(), &[2, 1, 1]);
    assert_eq!(result.numel(), 6);
    assert_eq!(result.data_ptr(), 200);
    let there = host_copy(plan);
    assert_eq!(there.from.data, 100);
    assert_eq!(there.to.data, 200);

    let (back, plan) = result.reshape(source.shape()).unwrap().with_data(300);
    assert_eq!(back.shape(), source.shape());
    assert_eq!(back.strides(), source.strides());
    let again = host_copy(plan);
    let bytes = [6u8, 5, 4, 3, 2, 1];
    let mut result_bytes = [0u8; 6];
    let mut back_bytes = [0u8; 6];
    there.run(&mut result_bytes, &bytes);
    again.run(&mut back_bytes, &result_bytes);
    assert_eq!(back_bytes, bytes);
}

#[test]
fn reshape_on_a_device_copies_there() {
    let source = new_tensor(&[2, 3], FLOAT32, cuda(), 100);
    let (result, plan) = source.reshape(&[6]).unwrap().with_data(200);
    let copy = device_copy(plan);
    assert_eq!(copy.device, cuda());
    assert_eq!(copy.from, source.dltensor());
    assert_eq!(copy.to, result.dltensor());
    assert_eq!(result.dtype(), FLOAT32);
    assert_eq!(result.device(), cuda());
}

#[test]
fn reshape_to_another_count_is_refused() {
    let source = new_tensor(&[2, 3], FLOAT32, cpu(), 0);
    let error = source.reshape(&[4, -1]).unwrap_err();
    assert_eq!(error.kind(), ErrorKind::ValueError);
    assert_eq!(error.from, vec![2, 3]);
    assert_eq!(error.to, vec![4, -1]);
    assert_eq!(error.message(), "Cannot reshape from [2, 3] to [4, -1]");
    let error = source.reshape(&[]).unwrap_err();
    assert_eq!(error.message(), "Cannot reshape from [2, 3] to []");
}

#[test]
fn what_can_be_asked_of_copies() {
    let byte = DLDataType::byte();
    let six = new_tensor(&[2, 3], byte, cpu(), 0);
    let five = new_tensor(&[5], byte, cpu(), 0);
    let floats = new_tensor(&[2], FLOAT32, cpu(), 0);
    let eight = new_tensor(&[8], byte, cpu(), 0);
    let far = new_tensor(&[7], FLOAT32, cuda(), 0);
    let bytes = |shape: Vec<i64>, strides: Vec<i64>| {
        Tensor::from_parts(shape, strides, byte, cpu(), 0).unwrap()
    };
    let uncountable = bytes(vec![i64::MAX, 2], vec![2, 1]);
    assert!(six.can_copy_from(&new_tensor(&[6], byte, cpu(), 0)));
    assert!(!six.can_copy_from(&five));
    assert!(floats.can_copy_from(&eight));
    assert!(!floats.can_copy_from(&five));
    assert!(five.can_copy_from(&floats));
    assert!(five.can_copy_from(&far));
    assert!(far.can_copy_from(&five));
    assert!(!uncountable.can_copy_from(&five));
    assert!(!five.can_copy_from(&uncountable));

    let slice = |len: usize| DataSlice { data: 1, len };
    assert!(six.can_copy_from_slice(slice(6)));
    assert!(!six.can_copy_from_slice(slice(7)));
    assert!(floats.can_copy_from_slice(slice(8)));
    assert!(far.can_copy_from_slice(slice(3)));
    assert!(!uncountable.can_copy_from_slice(slice(3)));
}

#[test]
fn what_can_be_asked_of_reshapes() {
    let byte = DLDataType::byte();
    let bytes = new_tensor(&[2, 3], byte, cpu(), 0);
    assert!(bytes.can_reshape(&[6]));
    assert!(bytes.can_reshape(&[-2, -3]));
    assert!(bytes.can_reshape(&[7]));
    assert!(!bytes.can_reshape(&[i64::MAX, 2]));
    let floats = new_tensor(&[2, 3], FLOAT32, cpu(), 0);
    assert!(!floats.can_reshape(&[6]));
    assert!(floats.can_reshape(&[7]));
    assert!(new_tensor(&[2, 3], FLOAT32, cuda(), 0).can_reshape(&[6]));
    let turned = Tensor::from_parts(vec![2, 3], vec![1, 2], byte, cpu(), 0).unwrap();
    assert!(!turned.can_reshape(&[6]));
    let none = new_tensor(&[0], byte, cpu(), 0);
    assert!(none.can_reshape(&[3, 0]));
    assert!(!none.can_reshape(&[0, i64::MAX, 2]));
}
