//! What holds of tensors across their operations.

use crate::device::{
    is_host_type, law_hosts_of_all_kinds, law_matching_host_is_host, matching_host,
};
use crate::device_api::{
    get_call, law_calls_of_a_copy, DeviceCallModel, DeviceFree, REQUIRE_PRESENT,
};
use crate::dlpack::{
    byte_type, law_element_sizes_are_tight, DLDataType, DLDevice, DLDeviceType, DLTensorModel,
};
use crate::extents::{
    element_count, is_row_major, law_row_major_strides, lemma_product_first, prefix_products_fit,
    product, row_major_computable, suffix_products_fit,
};
use crate::host_copy::{DataSlice, HostCopy};
use crate::nd_alloc::{
    alloc_request, allocatable, free_request, law_round_up_is_least,
    law_storage_holds_every_bit, law_storage_is_count_times_item, storage_size, DeviceNDAlloc,
};
use crate::tensor::{
    copy_plan, copy_sizes_agree, creatable, fresh_tensor, lemma_byte_copy_size, lemma_row_major,
    reshape_computable, slice_copy_plan, slice_sizes_agree, staging_tensor, storage_request,
    CopyPlanModel, SliceError, TensorModel,
};
use vstd::prelude::*;

verus! {

/// `index` names an element of a tensor over `shape`.
pub open spec fn is_index(shape: Seq<i64>, index: Seq<int>) -> bool {
    &&& index.len() == shape.len()
    &&& forall|i: int| 0 <= i < shape.len() ==> 0 <= #[trigger] index[i] < shape[i]
}

/// How many elements lie before the element at `index` in storage.
pub open spec fn offset(strides: Seq<i64>, index: Seq<int>) -> int
    decreases index.len(),
{
    if index.len() == 0 {
        0
    } else {
        index[0] * strides[0] + offset(strides.skip(1), index.skip(1))
    }
}

/// The dimensions after the first one of a row-major layout are row-major.
proof fn lemma_row_major_rest(shape: Seq<i64>, strides: Seq<i64>)
    requires
        is_row_major(shape, strides),
        shape.len() > 0,
    ensures
        is_row_major(shape.skip(1), strides.skip(1)),
{
    assert forall|i: int| 0 <= i < shape.skip(1).len() implies #[trigger] strides.skip(1)[i]
        == product(shape.skip(1).skip(i + 1)) by {
        assert(shape.skip(1).skip(i + 1) =~= shape.skip(i + 1 + 1));
        assert(strides[i + 1] == product(shape.skip(i + 1 + 1)));
    }
}

/// The rest of an index names an element of the rest of the dimensions.
proof fn lemma_index_rest(shape: Seq<i64>, index: Seq<int>)
    requires
        is_index(shape, index),
        shape.len() > 0,
    ensures
        is_index(shape.skip(1), index.skip(1)),
        0 <= index[0] < shape[0],
{
    assert forall|i: int| 0 <= i < shape.skip(1).len() implies 0 <= #[trigger] index.skip(1)[i]
        < shape.skip(1)[i] by {
        assert(0 <= index[i + 1] < shape[i + 1]);
    }
}

/// Every element of a contiguous tensor lies among the first `product(shape)`
/// elements of its storage.
pub proof fn law_contiguous_elements_are_dense(
    shape: Seq<i64>,
    strides: Seq<i64>,
    index: Seq<int>,
)
    requires
        is_row_major(shape, strides),
        is_index(shape, index),
    ensures
        0 <= offset(strides, index) < product(shape),
    decreases shape.len(),
{
    if shape.len() > 0 {
        lemma_row_major_rest(shape, strides);
        lemma_index_rest(shape, index);
        law_contiguous_elements_are_dense(shape.skip(1), strides.skip(1), index.skip(1));
        lemma_product_first(shape);
        let first = index[0];
        let count = shape[0] as int;
        let inner = product(shape.skip(1));
        let rest = offset(strides.skip(1), index.skip(1));
        assert(strides[0] == product(shape.skip(1)));
        assert(0 <= first * inner + rest < count * inner) by (nonlinear_arith)
            requires
                0 <= first < count,
                0 <= rest < inner,
        ;
    }
}

/// No two elements of a contiguous tensor share their place in storage.
pub proof fn law_contiguous_elements_are_distinct(
    shape: Seq<i64>,
    strides: Seq<i64>,
    a: Seq<int>,
    b: Seq<int>,
)
    requires
        is_row_major(shape, strides),
        is_index(shape, a),
        is_index(shape, b),
        offset(strides, a) == offset(strides, b),
    ensures
        a == b,
    decreases shape.len(),
{
    if shape.len() > 0 {
        lemma_row_major_rest(shape, strides);
        lemma_index_rest(shape, a);
        lemma_index_rest(shape, b);
        law_contiguous_elements_are_dense(shape.skip(1), strides.skip(1), a.skip(1));
        law_contiguous_elements_are_dense(shape.skip(1), strides.skip(1), b.skip(1));
        let inner = product(shape.skip(1));
        assert(strides[0] == product(shape.skip(1)));
        let a_first = a[0];
        let b_first = b[0];
        let a_rest = offset(strides.skip(1), a.skip(1));
        let b_rest = offset(strides.skip(1), b.skip(1));
        assert(a_first == b_first) by (nonlinear_arith)
            requires
                a_first * inner + a_rest == b_first * inner + b_rest,
                0 <= a_rest < inner,
                0 <= b_rest < inner,
        ;
        law_contiguous_elements_are_distinct(
            shape.skip(1),
            strides.skip(1),
            a.skip(1),
            b.skip(1),
        );
        assert forall|i: int| 0 <= i < a.len() implies a[i] == b[i] by {
            if i > 0 {
                assert(a.skip(1)[i - 1] == b.skip(1)[i - 1]);
            }
        }
    }
    assert(a =~= b);
}

/// A new tensor is valid and contiguous.
pub proof fn law_new_tensor_is_contiguous(
    shape: Seq<i64>,
    dtype: DLDataType,
    device: DLDevice,
    data: usize,
)
    requires
        creatable(shape, dtype),
    ensures
        fresh_tensor(shape, dtype, device, data).valid(),
        fresh_tensor(shape, dtype, device, data).contiguity_computable(),
        fresh_tensor(shape, dtype, device, data).is_contiguous(),
{
    lemma_row_major(shape);
}

/// The storage that a new tensor asks for holds all bytes of all its elements,
/// as long as a `usize` can count them.
pub proof fn law_storage_holds_every_element(
    shape: Seq<i64>,
    dtype: DLDataType,
    device: DLDevice,
    data: usize,
    index: Seq<int>,
)
    requires
        creatable(shape, dtype),
        is_index(shape, index),
        product(shape) <= usize::MAX,
    ensures
        ({
            let tensor = fresh_tensor(shape, dtype, device, data);
            let first = offset(tensor.strides, index) * dtype.spec_item_size();
            0 <= first && first + dtype.spec_item_size() <= storage_request(
                shape,
                dtype,
                device,
            ).size
        }),
{
    let tensor = fresh_tensor(shape, dtype, device, data);
    lemma_row_major(shape);
    law_contiguous_elements_are_dense(shape, tensor.strides, index);
    let place = offset(tensor.strides, index);
    let count = product(shape);
    let item = dtype.spec_item_size();
    assert(0 <= place * item && place * item + item <= count * item) by (nonlinear_arith)
        requires
            0 <= place < count,
            0 <= item,
    ;
    assert(storage_size(shape, dtype) <= isize::MAX);
}

/// Storage is freed where it was allocated: where a tensor is on the device of
/// the prototype, and its data is the address that the allocation came back
/// with, freeing it gets the same API as the allocation, and hands that device
/// and that address to it, whatever the byte offset.
pub proof fn law_storage_is_freed_where_allocated(
    prototype: DLTensorModel,
    tensor: DLTensorModel,
    data: usize,
    handle: usize,
)
    requires
        tensor.device == prototype.device,
        tensor.data == data,
    ensures
        get_call(free_request(tensor).device) == get_call(alloc_request(prototype).device),
        free_request(tensor).spec_call_on(handle) == (DeviceCallModel::FreeDataSpace {
            handle,
            device: alloc_request(prototype).device,
            data,
        }),
{
}

/// An allocation makes exactly two calls: it gets the API of the prototype's
/// device, and asks it for all the prototype's elements, aligned. It does not
/// give the handle back.
pub proof fn law_allocation_makes_two_calls(prototype: DLTensorModel, handle: usize, i: int)
    requires
        allocatable(prototype.shape, prototype.dtype),
    ensures
        alloc_request(prototype).calls(handle) == seq![
            DeviceCallModel::Get { device: prototype.device, allow_missing: REQUIRE_PRESENT },
            DeviceCallModel::AllocDataSpace {
                handle,
                device: prototype.device,
                size: storage_size(prototype.shape, prototype.dtype) as usize,
                align: DeviceNDAlloc::MIN_ALIGN,
                dtype: prototype.dtype,
            },
        ],
        alloc_request(prototype).size == storage_size(prototype.shape, prototype.dtype),
        0 <= i < alloc_request(prototype).calls(handle).len() ==> !(alloc_request(
            prototype,
        ).calls(handle)[i] is Destroy),
{
    let count = element_count(prototype.shape);
    let item = prototype.dtype.spec_item_size();
    assert(0 <= count * item) by (nonlinear_arith)
        requires
            0 <= count,
            0 <= item,
    ;
}

/// Freeing storage makes exactly two calls: it gets the API of the tensor's
/// device, and hands it the tensor's data address. It does not give the handle
/// back.
pub proof fn law_freeing_makes_two_calls(tensor: DLTensorModel, handle: usize, i: int)
    ensures
        free_request(tensor).calls(handle) == seq![
            DeviceCallModel::Get { device: tensor.device, allow_missing: REQUIRE_PRESENT },
            DeviceCallModel::FreeDataSpace { handle, device: tensor.device, data: tensor.data },
        ],
        0 <= i < free_request(tensor).calls(handle).len() ==> !(free_request(tensor).calls(
            handle,
        )[i] is Destroy),
{
}

/// The description of a new tensor names the device that was asked for its
/// storage, and the address that came back.
pub proof fn law_new_tensor_describes_its_storage(
    shape: Seq<i64>,
    dtype: DLDataType,
    device: DLDevice,
    data: usize,
)
    ensures
        alloc_request(fresh_tensor(shape, dtype, device, 0).dltensor()) == storage_request(
            shape,
            dtype,
            device,
        ),
        free_request(fresh_tensor(shape, dtype, device, data).dltensor()) == (DeviceFree {
            device: storage_request(shape, dtype, device).device,
            data,
        }),
{
}

/// A host copy stays within the storage of its destination: it moves no more
/// bytes than were asked for, as long as elements have a lane.
pub proof fn law_copy_fits_storage(tensor: TensorModel)
    requires
        tensor.dtype.lanes >= 1,
    ensures
        tensor.copy_size() <= storage_size(tensor.shape, tensor.dtype),
        tensor.dtype.bits % 8 == 0 && tensor.dtype.lanes == 1 ==> tensor.copy_size()
            == storage_size(tensor.shape, tensor.dtype),
{
    let bits = tensor.dtype.bits as int;
    let lanes = tensor.dtype.lanes as int;
    let count = tensor.numel();
    let lane = tensor.dtype.spec_lane_bytes();
    let item = tensor.dtype.spec_item_size();
    assert(bits <= bits * lanes) by (nonlinear_arith)
        requires
            0 <= bits,
            1 <= lanes,
    ;
    assert(0 <= lane <= item);
    assert(count * lane <= count * item) by (nonlinear_arith)
        requires
            0 <= count,
            lane <= item,
    ;
    if item == 0 {
        assert(count * lane == 0) by (nonlinear_arith)
            requires
                lane == 0,
        ;
    }
    if tensor.dtype.bits % 8 == 0 && lanes == 1 {
        assert(bits * lanes == bits) by (nonlinear_arith)
            requires
                lanes == 1,
        ;
        assert(lane == item);
    }
}

/// Two tensors with the same description are the same tensor.
pub proof fn law_description_is_complete(a: TensorModel, b: TensorModel)
    requires
        a.valid(),
        b.valid(),
        a.dltensor() == b.dltensor(),
    ensures
        a == b,
{
    assert(a.strides =~= b.strides);
}

/// A copy moves bytes exactly between two hosts, and is refused exactly where
/// one of them is not open to the host as bytes.
pub proof fn law_copy_is_planned(dst: TensorModel, src: TensorModel)
    ensures
        copy_plan(dst, src) is Err <==> dst.on_host() && src.on_host() && (src.slice_of(
            byte_type(),
        ) is Err || dst.slice_of(byte_type()) is Err),
        copy_plan(dst, src) matches Ok(plan) ==> (plan is Host <==> dst.on_host()
            && src.on_host()),
{
}

/// The device API calls that a planned copy makes, where the API comes back as
/// `handle`. A copy that was refused makes none.
pub open spec fn calls_made(
    plan: Result<CopyPlanModel, SliceError>,
    handle: usize,
) -> Seq<DeviceCallModel> {
    match plan {
        Ok(CopyPlanModel::Device(copy)) => copy.calls(handle),
        _ => seq![],
    }
}

/// A copy makes calls of the device API exactly where one of the tensors is not
/// on a host.
pub proof fn law_host_copies_make_no_calls(dst: TensorModel, src: TensorModel, handle: usize)
    ensures
        calls_made(copy_plan(dst, src), handle).len() > 0 <==> !(dst.on_host() && src.on_host()),
{
}

/// A copy out of a byte slice makes calls of the device API exactly where the
/// tensor is not on a host.
pub proof fn law_host_slice_copies_make_no_calls(dst: TensorModel, src: DataSlice, handle: usize)
    ensures
        calls_made(slice_copy_plan(dst, src), handle).len() > 0 <==> !dst.on_host(),
{
}

/// The API that is asked for a copy is that of one of the two devices, and
/// never that of a host.
pub proof fn law_copy_asks_no_host(dst: TensorModel, src: TensorModel)
    ensures
        copy_plan(dst, src) matches Ok(CopyPlanModel::Device(copy)) ==> {
            &&& !is_host_type(copy.device.device_type)
            &&& copy.device == dst.device || copy.device == src.device
        },
{
}

/// The same of a copy out of a byte slice. What it copies out of is on a host,
/// and laid out as the destination.
pub proof fn law_slice_copy_goes_from_host(dst: TensorModel, src: DataSlice)
    ensures
        slice_copy_plan(dst, src) matches Ok(CopyPlanModel::Device(copy)) ==> {
            &&& !is_host_type(copy.device.device_type)
            &&& copy.device == dst.device
            &&& is_host_type(copy.from.device.device_type)
            &&& copy.from.shape == copy.to.shape
            &&& copy.from.strides == copy.to.strides
            &&& copy.from.dtype == copy.to.dtype
            &&& copy.from == staging_tensor(dst, src)
        },
{
    law_matching_host_is_host(dst.device.device_type);
}

/// A host copy runs over the whole of both tensors, and afterwards the
/// destination holds what the source holds.
pub proof fn law_copy_reads_back(
    dst: TensorModel,
    src: TensorModel,
    copy: HostCopy,
    dst_bytes: Seq<u8>,
    src_bytes: Seq<u8>,
)
    requires
        dst.valid(),
        src.valid(),
        copy_sizes_agree(dst, src),
        copy_plan(dst, src) == Ok::<CopyPlanModel, SliceError>(CopyPlanModel::Host(copy)),
        dst_bytes.len() == copy.to.len,
        src_bytes.len() == copy.from.len,
    ensures
        copy.nbytes == copy.to.len,
        copy.nbytes == copy.from.len,
        dst.slice_of(byte_type()) == Ok::<DataSlice, SliceError>(copy.to),
        src.slice_of(byte_type()) == Ok::<DataSlice, SliceError>(copy.from),
        copy.apply(dst_bytes, src_bytes) == src_bytes,
{
    lemma_byte_copy_size(dst);
    assert(copy.apply(dst_bytes, src_bytes) =~= src_bytes);
}

/// A host copy out of a byte slice runs over the whole tensor, and afterwards
/// the tensor holds the bytes of the slice.
pub proof fn law_slice_copy_reads_back(
    dst: TensorModel,
    src: DataSlice,
    copy: HostCopy,
    dst_bytes: Seq<u8>,
    src_bytes: Seq<u8>,
)
    requires
        dst.valid(),
        slice_sizes_agree(dst, src),
        slice_copy_plan(dst, src) == Ok::<CopyPlanModel, SliceError>(CopyPlanModel::Host(copy)),
        dst_bytes.len() == copy.to.len,
        src_bytes.len() == src.len,
    ensures
        copy.from == src,
        copy.nbytes == copy.to.len,
        copy.nbytes == copy.from.len,
        dst.slice_of(byte_type()) == Ok::<DataSlice, SliceError>(copy.to),
        copy.apply(dst_bytes, src_bytes) == src_bytes,
{
    lemma_byte_copy_size(dst);
    assert(copy.apply(dst_bytes, src_bytes) =~= src_bytes);
}

/// The tensor that a reshape of `source` to `shape` yields, with its storage at
/// `data`.
pub open spec fn reshaped(source: TensorModel, shape: Seq<i64>, data: usize) -> TensorModel {
    fresh_tensor(shape, source.dtype, source.device, data)
}

/// A reshape keeps the number of elements, their type and the device, asks for
/// as much storage as the source takes, and its result is contiguous.
pub proof fn law_reshape_keeps_elements(source: TensorModel, shape: Seq<i64>, data: usize)
    requires
        source.valid(),
        creatable(shape, source.dtype),
        product(shape) == product(source.shape),
    ensures
        reshaped(source, shape, data).valid(),
        reshaped(source, shape, data).numel() == source.numel(),
        reshaped(source, shape, data).dtype == source.dtype,
        reshaped(source, shape, data).device == source.device,
        reshaped(source, shape, data).is_contiguous(),
        storage_size(shape, source.dtype) == storage_size(source.shape, source.dtype),
{
    lemma_row_major(shape);
}

/// The copy that fills the result of a reshape is never refused. Between hosts,
/// the result then holds the bytes of the source.
pub proof fn law_reshape_copies_everything(
    source: TensorModel,
    shape: Seq<i64>,
    data: usize,
    result_bytes: Seq<u8>,
    source_bytes: Seq<u8>,
)
    requires
        source.valid(),
        creatable(shape, source.dtype),
        product(shape) == product(source.shape),
        source.on_host() ==> source.slice_computable(byte_type()) && source.slice_of(
            byte_type(),
        ) is Ok,
        result_bytes.len() == source.numel(),
        source_bytes.len() == source.numel(),
    ensures
        copy_plan(reshaped(source, shape, data), source) is Ok,
        copy_sizes_agree(reshaped(source, shape, data), source),
        copy_plan(reshaped(source, shape, data), source) matches Ok(CopyPlanModel::Host(copy))
            ==> copy.apply(result_bytes, source_bytes) == source_bytes,
{
    let result = reshaped(source, shape, data);
    law_reshape_keeps_elements(source, shape, data);
    if source.on_host() {
        lemma_byte_copy_size(result);
        if let Ok(CopyPlanModel::Host(copy)) = copy_plan(result, source) {
            law_copy_reads_back(result, source, copy, result_bytes, source_bytes);
        }
    }
}

/// A reshape can be undone: the result can be reshaped to the extents of the
/// source again, and between hosts that gives back the bytes of the source.
pub proof fn law_reshape_can_be_undone(
    source: TensorModel,
    shape: Seq<i64>,
    data: usize,
    back_data: usize,
    result_bytes: Seq<u8>,
    back_bytes: Seq<u8>,
    source_bytes: Seq<u8>,
)
    requires
        source.valid(),
        creatable(shape, source.dtype),
        creatable(source.shape, source.dtype),
        product(shape) == product(source.shape),
        source.on_host() ==> source.slice_computable(byte_type()) && source.slice_of(
            byte_type(),
        ) is Ok,
        result_bytes.len() == source.numel(),
        back_bytes.len() == source.numel(),
        source_bytes.len() == source.numel(),
    ensures
        ({
            let result = reshaped(source, shape, data);
            let back = reshaped(result, source.shape, back_data);
            &&& product(source.shape) == product(result.shape)
            &&& result.on_host() ==> result.slice_computable(byte_type()) && result.slice_of(
                byte_type(),
            ) is Ok
            &&& back.shape == source.shape
            &&& source.is_contiguous() ==> back.strides == source.strides
            &&& (copy_plan(result, source), copy_plan(back, result)) matches (
                Ok(CopyPlanModel::Host(there)),
                Ok(CopyPlanModel::Host(again)),
            ) ==> again.apply(back_bytes, there.apply(result_bytes, source_bytes))
                == source_bytes
        }),
{
    let result = reshaped(source, shape, data);
    let back = reshaped(result, source.shape, back_data);
    law_reshape_keeps_elements(source, shape, data);
    law_reshape_copies_everything(source, shape, data, result_bytes, source_bytes);
    law_reshape_copies_everything(result, source.shape, back_data, back_bytes, source_bytes);
    lemma_row_major(source.shape);
    if source.is_contiguous() {
        assert forall|i: int| 0 <= i < source.shape.len() implies back.strides[i]
            == source.strides[i] by {
            assert(source.strides[i] == product(source.shape.skip(i + 1)));
        }
        assert(back.strides =~= source.strides);
    }
}

/// What a tensor is asked about itself comes down to its extents, strides,
/// element type and device.
pub proof fn law_tensor_is_its_layout(tensor: TensorModel, lane: int)
    requires
        8 * lane <= tensor.dtype.bits < 8 * lane + 8,
    ensures
        tensor.valid() <==> tensor.strides.len() == tensor.shape.len() && tensor.shape.len()
            <= i32::MAX,
        tensor.countable() <==> prefix_products_fit(tensor.shape),
        tensor.numel() == element_count(tensor.shape),
        0 <= product(tensor.shape) <= usize::MAX ==> tensor.numel() == product(tensor.shape),
        tensor.is_contiguous() <==> is_row_major(tensor.shape, tensor.strides),
        tensor.contiguity_computable() <==> row_major_computable(tensor.shape, tensor.strides),
        tensor.on_host() <==> matching_host(tensor.device.device_type) is None,
        tensor.copy_size() == element_count(tensor.shape) * lane,
{
    law_hosts_of_all_kinds(tensor.device.device_type);
    law_element_sizes_are_tight(tensor.dtype);
}

/// A tensor can be made over extents exactly where twice its dimensions can be
/// counted in an `i32`, its strides can be computed, and its storage can be
/// asked for.
pub proof fn law_what_is_creatable(shape: Seq<i64>, dtype: DLDataType)
    ensures
        creatable(shape, dtype) <==> 2 * shape.len() <= i32::MAX && suffix_products_fit(shape)
            && allocatable(shape, dtype),
{
}

/// A new tensor has the extents, the element type, the device and the address
/// that it is made with, and row-major strides. Its storage is asked for on its
/// device, with the bytes of its elements, aligned.
pub proof fn law_new_tensor_is_as_asked(
    shape: Seq<i64>,
    dtype: DLDataType,
    device: DLDevice,
    data: usize,
)
    requires
        creatable(shape, dtype),
    ensures
        fresh_tensor(shape, dtype, device, data).shape == shape,
        fresh_tensor(shape, dtype, device, data).dtype == dtype,
        fresh_tensor(shape, dtype, device, data).device == device,
        fresh_tensor(shape, dtype, device, data).data == data,
        is_row_major(shape, fresh_tensor(shape, dtype, device, data).strides),
        storage_request(shape, dtype, device).device == device,
        storage_request(shape, dtype, device).dtype == dtype,
        storage_request(shape, dtype, device).align == 64,
        storage_request(shape, dtype, device).size == storage_size(shape, dtype),
        0 <= product(shape) <= usize::MAX ==> product(shape) * (dtype.bits * dtype.lanes) <= 8
            * storage_request(shape, dtype, device).size,
{
    law_row_major_strides(shape);
    law_element_sizes_are_tight(dtype);
    law_storage_is_count_times_item(shape, dtype, dtype.spec_item_size());
    law_round_up_is_least(storage_size(shape, dtype), 64);
    if 0 <= product(shape) <= usize::MAX {
        law_storage_holds_every_bit(shape, dtype);
    }
}

/// The description of a tensor places its first element at the tensor's address
/// on its device, counts its dimensions, and has its element type, extents and
/// strides; only a tensor without dimensions is described without strides.
pub proof fn law_description_is_of_the_tensor(tensor: TensorModel)
    requires
        tensor.valid(),
    ensures
        tensor.dltensor().data == tensor.data,
        tensor.dltensor().byte_offset == 0,
        tensor.dltensor().data + tensor.dltensor().byte_offset == tensor.data,
        tensor.dltensor().device == tensor.device,
        tensor.dltensor().dtype == tensor.dtype,
        tensor.dltensor().ndim == tensor.shape.len(),
        tensor.dltensor().shape == tensor.shape,
        tensor.shape.len() > 0 ==> tensor.dltensor().strides == Some(tensor.strides),
        tensor.shape.len() == 0 ==> tensor.dltensor().strides is None,
{
}

/// A callee that goes by the description of a new tensor finds every element,
/// with all its bytes, within the storage that was asked for.
pub proof fn law_described_elements_lie_in_storage(
    shape: Seq<i64>,
    dtype: DLDataType,
    device: DLDevice,
    data: usize,
    index: Seq<int>,
)
    requires
        creatable(shape, dtype),
        is_index(shape, index),
        product(shape) <= usize::MAX,
    ensures
        ({
            let described = fresh_tensor(shape, dtype, device, data).dltensor();
            let strides = match described.strides {
                Some(strides) => strides,
                None => Seq::<i64>::empty(),
            };
            let first = described.data + described.byte_offset + offset(strides, index)
                * dtype.spec_item_size();
            &&& data <= first
            &&& first + dtype.spec_item_size() <= data + storage_request(
                shape,
                dtype,
                device,
            ).size
        }),
{
    let tensor = fresh_tensor(shape, dtype, device, data);
    law_storage_holds_every_element(shape, dtype, device, data, index);
    if shape.len() == 0 {
        assert(tensor.strides =~= Seq::<i64>::empty());
    }
}

/// A tensor is open as a slice exactly where it has that element type, is in
/// plain CPU memory and is contiguous. What is asked first decides the error.
/// The slice starts at the tensor's address, and is as long as the tensor has
/// elements, whatever their type.
pub proof fn law_slice_is_the_whole_tensor(tensor: TensorModel, element: DLDataType)
    ensures
        tensor.dtype != element ==> tensor.slice_of(element) == Err::<DataSlice, SliceError>(
            SliceError::TypeMismatch { actual: tensor.dtype, expected: element },
        ),
        tensor.dtype == element && tensor.device.device_type != DLDeviceType::kDLCPU
            ==> tensor.slice_of(element) == Err::<DataSlice, SliceError>(SliceError::NotOnCpu),
        tensor.dtype == element && tensor.device.device_type == DLDeviceType::kDLCPU
            && !is_row_major(tensor.shape, tensor.strides) ==> tensor.slice_of(element) == Err::<
            DataSlice,
            SliceError,
        >(SliceError::NotContiguous),
        tensor.dtype == element && tensor.device.device_type == DLDeviceType::kDLCPU
            && is_row_major(tensor.shape, tensor.strides) ==> {
            &&& tensor.slice_of(element) matches Ok(slice)
            &&& slice.data == tensor.data
            &&& slice.len == element_count(tensor.shape)
            &&& 0 <= product(tensor.shape) <= usize::MAX ==> slice.len == product(tensor.shape)
        },
{
}

/// Every element of a tensor that is open as a slice has its place within the
/// slice, at its offset.
pub proof fn law_slice_holds_every_element(
    tensor: TensorModel,
    element: DLDataType,
    index: Seq<int>,
)
    requires
        tensor.dtype == element,
        tensor.device.device_type == DLDeviceType::kDLCPU,
        is_row_major(tensor.shape, tensor.strides),
        is_index(tensor.shape, index),
        product(tensor.shape) <= usize::MAX,
    ensures
        tensor.slice_of(element) matches Ok(slice) && slice.data == tensor.data && 0 <= offset(
            tensor.strides,
            index,
        ) < slice.len,
{
    law_contiguous_elements_are_dense(tensor.shape, tensor.strides, index);
}

/// A slice can be asked for exactly where nothing that is computed for it
/// overflows: on another element type or another device nothing is computed,
/// and a tensor that is not contiguous is not counted.
pub proof fn law_what_slices_can_be_asked(tensor: TensorModel, element: DLDataType)
    ensures
        tensor.dtype != element ==> tensor.slice_computable(element),
        tensor.device.device_type != DLDeviceType::kDLCPU ==> tensor.slice_computable(element),
        tensor.dtype == element && tensor.device.device_type == DLDeviceType::kDLCPU ==> (
        tensor.slice_computable(element) <==> row_major_computable(tensor.shape, tensor.strides)
            && (is_row_major(tensor.shape, tensor.strides) ==> prefix_products_fit(
            tensor.shape,
        ))),
{
}

/// A copy of which one side is not on a host reads the source, at its address,
/// on its device and in its layout, and writes the destination, likewise. The
/// API is that of the destination's device, or where that is a host, of the
/// source's.
pub proof fn law_device_copy_goes_from_source_to_destination(
    dst: TensorModel,
    src: TensorModel,
)
    requires
        dst.valid(),
        src.valid(),
        !is_host_type(dst.device.device_type) || !is_host_type(src.device.device_type),
    ensures
        copy_plan(dst, src) matches Ok(CopyPlanModel::Device(copy)) && {
            &&& copy.from.data == src.data
            &&& copy.from.byte_offset == 0
            &&& copy.from.device == src.device
            &&& copy.from.dtype == src.dtype
            &&& copy.from.ndim == src.shape.len()
            &&& copy.from.shape == src.shape
            &&& src.shape.len() > 0 ==> copy.from.strides == Some(src.strides)
            &&& src.shape.len() == 0 ==> copy.from.strides is None
            &&& copy.to.data == dst.data
            &&& copy.to.byte_offset == 0
            &&& copy.to.device == dst.device
            &&& copy.to.dtype == dst.dtype
            &&& copy.to.ndim == dst.shape.len()
            &&& copy.to.shape == dst.shape
            &&& dst.shape.len() > 0 ==> copy.to.strides == Some(dst.strides)
            &&& dst.shape.len() == 0 ==> copy.to.strides is None
            &&& !is_host_type(dst.device.device_type) ==> copy.device == dst.device
            &&& is_host_type(dst.device.device_type) ==> copy.device == src.device
        },
{
}

/// A copy between hosts is refused for the source, where that is not open as
/// bytes, else for the destination, else moves all bytes from the address of the
/// source to that of the destination.
pub proof fn law_host_copy_goes_from_source_to_destination(dst: TensorModel, src: TensorModel)
    requires
        is_host_type(dst.device.device_type),
        is_host_type(src.device.device_type),
    ensures
        src.slice_of(byte_type()) matches Err(error) ==> copy_plan(dst, src) == Err::<
            CopyPlanModel,
            SliceError,
        >(error),
        src.slice_of(byte_type()) is Ok ==> (dst.slice_of(byte_type()) matches Err(error)
            ==> copy_plan(dst, src) == Err::<CopyPlanModel, SliceError>(error)),
        src.slice_of(byte_type()) is Ok && dst.slice_of(byte_type()) is Ok ==> {
            &&& copy_plan(dst, src) matches Ok(CopyPlanModel::Host(copy))
            &&& copy.from.data == src.data
            &&& copy.from.len == element_count(src.shape)
            &&& copy.to.data == dst.data
            &&& copy.to.len == element_count(dst.shape)
            &&& copy.nbytes == element_count(dst.shape)
        },
{
    if src.slice_of(byte_type()) is Ok && dst.slice_of(byte_type()) is Ok {
        lemma_byte_copy_size(dst);
    }
}

/// A copy out of a byte slice to a tensor that is not on a host reads the
/// slice, at its address, out of the host memory that serves the tensor's
/// device, in the layout of the tensor, and writes the tensor at its address.
pub proof fn law_slice_copy_goes_from_slice_to_tensor(dst: TensorModel, src: DataSlice)
    requires
        dst.valid(),
        !is_host_type(dst.device.device_type),
    ensures
        slice_copy_plan(dst, src) matches Ok(CopyPlanModel::Device(copy)) && {
            &&& copy.from.data == src.data
            &&& copy.from.byte_offset == 0
            &&& Some(copy.from.device.device_type) == matching_host(dst.device.device_type)
            &&& copy.from.device.device_id == 0
            &&& copy.from.dtype == dst.dtype
            &&& copy.from.ndim == dst.shape.len()
            &&& copy.from.shape == dst.shape
            &&& dst.shape.len() > 0 ==> copy.from.strides == Some(dst.strides)
            &&& dst.shape.len() == 0 ==> copy.from.strides is None
            &&& copy.to.data == dst.data
            &&& copy.to.byte_offset == 0
            &&& copy.to.device == dst.device
            &&& copy.to.dtype == dst.dtype
            &&& copy.to.ndim == dst.shape.len()
            &&& copy.to.shape == dst.shape
            &&& dst.shape.len() > 0 ==> copy.to.strides == Some(dst.strides)
            &&& dst.shape.len() == 0 ==> copy.to.strides is None
            &&& copy.device == dst.device
        },
{
    law_hosts_of_all_kinds(dst.device.device_type);
}

/// A copy out of a byte slice to a host is refused where the tensor is not open
/// as bytes, and else moves all bytes from the slice to the tensor's address.
pub proof fn law_slice_copy_to_host_goes_to_tensor(dst: TensorModel, src: DataSlice)
    requires
        is_host_type(dst.device.device_type),
    ensures
        dst.slice_of(byte_type()) matches Err(error) ==> slice_copy_plan(dst, src) == Err::<
            CopyPlanModel,
            SliceError,
        >(error),
        dst.slice_of(byte_type()) is Ok ==> {
            &&& slice_copy_plan(dst, src) matches Ok(CopyPlanModel::Host(copy))
            &&& copy.from.data == src.data
            &&& copy.from.len == src.len
            &&& copy.to.data == dst.data
            &&& copy.to.len == element_count(dst.shape)
            &&& copy.nbytes == element_count(dst.shape)
        },
{
    if dst.slice_of(byte_type()) is Ok {
        lemma_byte_copy_size(dst);
    }
}

/// What can be asked of the copies and of reshape. A copy with a side that is
/// not on a host can always be asked for. Between hosts, the bytes of the
/// destination can be counted, and are as many as those of a source that is open
/// as bytes. A reshape to another count can be asked for wherever both can be
/// counted; one to the same count, where the result can be made, and on a host
/// the source is open as bytes.
pub proof fn law_what_can_be_asked(
    dst: TensorModel,
    src: TensorModel,
    slice: DataSlice,
    shape: Seq<i64>,
    lane: int,
)
    requires
        8 * lane <= dst.dtype.bits < 8 * lane + 8,
    ensures
        !is_host_type(dst.device.device_type) || !is_host_type(src.device.device_type)
            ==> copy_sizes_agree(dst, src),
        is_host_type(dst.device.device_type) && is_host_type(src.device.device_type) ==> (
        copy_sizes_agree(dst, src) <==> {
            &&& prefix_products_fit(dst.shape)
            &&& element_count(dst.shape) * lane <= usize::MAX
            &&& src.slice_computable(byte_type())
            &&& src.slice_of(byte_type()) is Ok ==> element_count(dst.shape) * lane
                == element_count(src.shape)
            &&& src.slice_of(byte_type()) is Ok ==> dst.slice_computable(byte_type())
        }),
        !is_host_type(dst.device.device_type) ==> slice_sizes_agree(dst, slice),
        is_host_type(dst.device.device_type) ==> (slice_sizes_agree(dst, slice) <==> {
            &&& prefix_products_fit(dst.shape)
            &&& element_count(dst.shape) * lane == slice.len
            &&& dst.slice_computable(byte_type())
        }),
        reshape_computable(src, shape) <==> {
            &&& prefix_products_fit(src.shape)
            &&& prefix_products_fit(shape)
            &&& product(shape) == product(src.shape) ==> creatable(shape, src.dtype)
            &&& product(shape) == product(src.shape) && is_host_type(src.device.device_type)
                ==> src.slice_computable(byte_type())
            &&& product(shape) == product(src.shape) && is_host_type(src.device.device_type)
                ==> src.slice_of(byte_type()) is Ok
        },
{
    law_tensor_is_its_layout(dst, lane);
}

/// A copy that is planned for the device API hands its source and destination
/// to the API as they are: the one copy among its calls reads the address of
/// `src` and writes that of `dst`.
pub proof fn law_calls_copy_from_source_to_destination(
    dst: TensorModel,
    src: TensorModel,
    handle: usize,
)
    requires
        dst.valid(),
        src.valid(),
        !is_host_type(dst.device.device_type) || !is_host_type(src.device.device_type),
    ensures
        ({
            let calls = calls_made(copy_plan(dst, src), handle);
            &&& calls.len() == 4
            &&& calls[1] matches DeviceCallModel::CopyDataFromTo { from, to, .. } && from.data
                == src.data && from.device == src.device && to.data == dst.data && to.device
                == dst.device
        }),
{
    law_device_copy_goes_from_source_to_destination(dst, src);
    if let Ok(CopyPlanModel::Device(copy)) = copy_plan(dst, src) {
        law_calls_of_a_copy(copy, handle);
    }
}

} // verus!
