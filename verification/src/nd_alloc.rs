//! The allocator that gives tensors their storage.

use crate::device_api::{DeviceAlloc, DeviceFree};
use crate::dlpack::{law_element_sizes_are_tight, DLDataType, DLTensor, DLTensorModel};
use crate::extents::{
    checked_product, element_count, law_count_is_the_product, prefix_products_fit, product,
};
use vstd::arithmetic::div_mod::*;
use vstd::prelude::*;

verus! {

/// `size`, rounded up to a multiple of `align`.
pub open spec fn round_up(size: int, align: int) -> int {
    size + (align - size % align) % align
}

/// The bytes that elements of type `dtype` take over `shape`.
pub open spec fn storage_size(shape: Seq<i64>, dtype: DLDataType) -> int {
    element_count(shape) * dtype.spec_item_size()
}

/// Storage over `shape` can be asked for: the elements can be counted, and
/// their bytes, rounded up to the alignment, stay within the largest size that
/// an object in memory can have.
pub open spec fn allocatable(shape: Seq<i64>, dtype: DLDataType) -> bool {
    &&& prefix_products_fit(shape)
    &&& round_up(storage_size(shape, dtype), DeviceNDAlloc::MIN_ALIGN as int) <= isize::MAX
}

/// The request for the storage of a tensor such as `prototype`.
pub open spec fn alloc_request(prototype: DLTensorModel) -> DeviceAlloc {
    DeviceAlloc {
        device: prototype.device,
        size: storage_size(prototype.shape, prototype.dtype) as usize,
        align: DeviceNDAlloc::MIN_ALIGN,
        dtype: prototype.dtype,
    }
}

/// The request to free the storage of `tensor`. Storage starts at the data
/// address itself, without the byte offset.
pub open spec fn free_request(tensor: DLTensorModel) -> DeviceFree {
    DeviceFree { device: tensor.device, data: tensor.data }
}

/// The allocator whose storage lives on the tensor's own device.
#[derive(Debug, Clone)]
pub struct DeviceNDAlloc {

}

impl DeviceNDAlloc {
    /// The alignment, in bytes, of every allocation.
    pub const MIN_ALIGN: usize = 64;

    /// The bytes to allocate for elements of type `dtype` over `shape`, or
    /// `None` where no such storage can be asked for.
    pub fn checked_size(shape: &[i64], dtype: DLDataType) -> (size: Option<usize>)
        ensures
            size is Some <==> allocatable(shape@, dtype),
            size matches Some(n) ==> n == storage_size(shape@, dtype),
    {
        let count: i64 = match checked_product(shape) {
            Some(count) => count,
            None => {
                return None;
            },
        };
        let numel: usize = count as usize;
        let item_size: usize = dtype.item_size();
        assert(0 <= numel * item_size) by (nonlinear_arith)
            requires
                0 <= numel,
                0 <= item_size,
        ;
        let size: usize = match numel.checked_mul(item_size) {
            Some(size) => size,
            None => {
                return None;
            },
        };
        let pad: usize = (DeviceNDAlloc::MIN_ALIGN - size % DeviceNDAlloc::MIN_ALIGN) % DeviceNDAlloc::MIN_ALIGN;
        match size.checked_add(pad) {
            Some(rounded) => {
                if rounded <= isize::MAX as usize {
                    Some(size)
                } else {
                    None
                }
            },
            None => None,
        }
    }

    /// Asks for the storage of a tensor such as `prototype`, on its device.
    pub fn alloc_data(&mut self, prototype: &DLTensor) -> (alloc: DeviceAlloc)
        requires
            prototype.ndim == prototype.shape@.len(),
            allocatable(prototype.shape@, prototype.dtype),
        ensures
            *final(self) == *old(self),
            alloc == alloc_request(prototype@),
            alloc.device == prototype.device,
            alloc.align == 64,
            alloc.dtype == prototype.dtype,
            alloc.size == storage_size(prototype.shape@, prototype.dtype),
    {
        let size: usize = Self::checked_size(prototype.shape.as_slice(), prototype.dtype).unwrap();
        DeviceAlloc { device: prototype.device, size, align: DeviceNDAlloc::MIN_ALIGN, dtype: prototype.dtype }
    }

    /// Asks to free the storage of `tensor`, on its device.
    pub fn free_data(&mut self, tensor: &DLTensor) -> (free: DeviceFree)
        ensures
            *final(self) == *old(self),
            free == free_request(tensor@),
            free.device == tensor.device,
            free.data == tensor.data,
    {
        DeviceFree { device: tensor.device, data: tensor.data }
    }
}

/// Rounding up gives the least multiple of the alignment that is not smaller.
pub proof fn law_round_up_is_least(size: int, align: int)
    requires
        size >= 0,
        align > 0,
    ensures
        size <= round_up(size, align) < size + align,
        round_up(size, align) % align == 0,
{
    let rest = size % align;
    lemma_fundamental_div_mod(size, align);
    lemma_mod_bound(size, align);
    if rest == 0 {
        lemma_mod_self_0(align);
    } else {
        lemma_small_mod((align - rest) as nat, align as nat);
        let whole = size / align;
        assert(round_up(size, align) == (whole + 1) * align) by (nonlinear_arith)
            requires
                round_up(size, align) == size + (align - rest),
                size == align * whole + rest,
        ;
        lemma_mod_multiples_basic(whole + 1, align);
    }
}

/// Storage takes, for each element, the least whole bytes that hold its bits.
pub proof fn law_storage_is_count_times_item(shape: Seq<i64>, dtype: DLDataType, item: int)
    requires
        dtype.bits * dtype.lanes <= 8 * item < dtype.bits * dtype.lanes + 8,
    ensures
        storage_size(shape, dtype) == element_count(shape) * item,
        0 <= storage_size(shape, dtype),
{
    law_element_sizes_are_tight(dtype);
    let count = element_count(shape);
    let bits = dtype.bits as int;
    let lanes = dtype.lanes as int;
    assert(0 <= bits * lanes) by (nonlinear_arith)
        requires
            0 <= bits,
            0 <= lanes,
    ;
    assert(item == dtype.spec_item_size());
    assert(0 <= count * item) by (nonlinear_arith)
        requires
            0 <= count,
            0 <= item,
    ;
}

/// Storage holds all bits of all elements.
pub proof fn law_storage_holds_every_bit(shape: Seq<i64>, dtype: DLDataType)
    requires
        0 <= product(shape) <= usize::MAX,
    ensures
        product(shape) * (dtype.bits * dtype.lanes) <= 8 * storage_size(shape, dtype),
        8 * storage_size(shape, dtype) <= product(shape) * (dtype.bits * dtype.lanes + 7),
{
    law_element_sizes_are_tight(dtype);
    law_count_is_the_product(shape);
    let count = product(shape);
    let item = dtype.spec_item_size();
    let width = dtype.bits * dtype.lanes;
    assert(count * width <= 8 * (count * item) <= count * (width + 7)) by (nonlinear_arith)
        requires
            0 <= count,
            width <= 8 * item <= width + 7,
    ;
}

/// Storage can be asked for exactly where every product on the way is an `i64`,
/// and the bytes, rounded up to a multiple of the alignment, do not exceed the
/// largest size of an object.
pub proof fn law_what_is_allocatable(shape: Seq<i64>, dtype: DLDataType, rounded: int)
    requires
        rounded % 64 == 0,
        storage_size(shape, dtype) <= rounded < storage_size(shape, dtype) + 64,
    ensures
        DeviceNDAlloc::MIN_ALIGN == 64,
        allocatable(shape, dtype) <==> prefix_products_fit(shape) && rounded <= isize::MAX,
{
    let size = storage_size(shape, dtype);
    law_element_sizes_are_tight(dtype);
    law_storage_is_count_times_item(shape, dtype, dtype.spec_item_size());
    law_round_up_is_least(size, 64);
    let least = round_up(size, 64);
    assert(least == rounded);
}

/// The request for storage names the device and the element type of the
/// prototype, its bytes and the alignment; that to free it, the device and the
/// data address of the tensor.
pub proof fn law_requests_are_of_the_tensor(prototype: DLTensorModel, tensor: DLTensorModel)
    requires
        allocatable(prototype.shape, prototype.dtype),
    ensures
        alloc_request(prototype).device == prototype.device,
        alloc_request(prototype).dtype == prototype.dtype,
        alloc_request(prototype).align == 64,
        alloc_request(prototype).size == storage_size(prototype.shape, prototype.dtype),
        free_request(tensor).device == tensor.device,
        free_request(tensor).data == tensor.data,
{
    law_element_sizes_are_tight(prototype.dtype);
    law_storage_is_count_times_item(
        prototype.shape,
        prototype.dtype,
        prototype.dtype.spec_item_size(),
    );
    law_round_up_is_least(storage_size(prototype.shape, prototype.dtype), 64);
}

} // verus!
