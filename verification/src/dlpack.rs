//! The DLPack description of a tensor, as plain values.

use vstd::prelude::*;

verus! {

/// The kinds of device that DLPack knows.
#[derive(Debug, Clone, Copy, PartialEq, Eq, Structural)]
pub enum DLDeviceType {
    kDLCPU,
    kDLCUDA,
    kDLCUDAHost,
    kDLOpenCL,
    kDLVulkan,
    kDLMetal,
    kDLVPI,
    kDLROCM,
    kDLROCMHost,
    kDLExtDev,
    kDLCUDAManaged,
    kDLOneAPI,
    kDLWebGPU,
    kDLHexagon,
    kDLMAIA,
    kDLTrn,
}

/// One device: its kind, and its number among the devices of that kind.
#[derive(Debug, Clone, Copy, PartialEq, Eq, Structural)]
pub struct DLDevice {
    pub device_type: DLDeviceType,
    pub device_id: i32,
}

/// An element type: the type code, the bits of one lane and the lanes.
#[derive(Debug, Clone, Copy, PartialEq, Eq, Structural)]
pub struct DLDataType {
    pub code: u8,
    pub bits: u8,
    pub lanes: u16,
}

/// The type code of unsigned integers.
pub const DL_UINT: u8 = 1;

/// The element type of plain bytes: unsigned integers of eight bits, one lane.
pub open spec fn byte_type() -> DLDataType {
    DLDataType { code: DL_UINT, bits: 8, lanes: 1 }
}

impl DLDataType {
    /// The bytes that one element takes in storage: its bits over all lanes,
    /// rounded up to whole bytes.
    pub open spec fn spec_item_size(self) -> int {
        (self.bits * self.lanes + 7) / 8
    }

    /// The whole bytes in one lane.
    pub open spec fn spec_lane_bytes(self) -> int {
        self.bits as int / 8
    }

    /// The element type of plain bytes.
    pub fn byte() -> (dtype: DLDataType)
        ensures
            dtype == byte_type(),
            dtype.code == 1 && dtype.bits == 8 && dtype.lanes == 1,
    {
        DLDataType { code: DL_UINT, bits: 8, lanes: 1 }
    }

    /// The bytes that one element takes in storage.
    pub fn item_size(&self) -> (size: usize)
        ensures
            size == self.spec_item_size(),
            self.bits * self.lanes <= 8 * size < self.bits * self.lanes + 8,
    {
        let bits: u32 = self.bits as u32;
        let lanes: u32 = self.lanes as u32;
        assert(bits * lanes <= 255 * 65535) by (nonlinear_arith)
            requires
                bits <= 255,
                lanes <= 65535,
        ;
        ((bits * lanes + 7) / 8) as usize
    }

    /// The whole bytes in one lane.
    pub fn lane_bytes(&self) -> (bytes: usize)
        ensures
            bytes == self.spec_lane_bytes(),
            8 * bytes <= self.bits < 8 * bytes + 8,
    {
        (self.bits / 8) as usize
    }
}

/// The plain C description of a tensor. Addresses are plain integers, and the
/// extents and strides are held by value.
#[derive(Debug, PartialEq, Eq)]
pub struct DLTensor {
    /// The address of the first element.
    pub data: usize,
    pub device: DLDevice,
    pub ndim: i32,
    pub dtype: DLDataType,
    pub shape: Vec<i64>,
    /// Counted in elements. `None` stands for the null pointer.
    pub strides: Option<Vec<i64>>,
    pub byte_offset: u64,
}

/// What a [`DLTensor`] holds.
#[verifier::ext_equal]
pub struct DLTensorModel {
    pub data: usize,
    pub device: DLDevice,
    pub ndim: i32,
    pub dtype: DLDataType,
    pub shape: Seq<i64>,
    pub strides: Option<Seq<i64>>,
    pub byte_offset: u64,
}

impl View for DLTensor {
    type V = DLTensorModel;

    open spec fn view(&self) -> DLTensorModel {
        DLTensorModel {
            data: self.data,
            device: self.device,
            ndim: self.ndim,
            dtype: self.dtype,
            shape: self.shape@,
            strides: match self.strides {
                Some(strides) => Some(strides@),
                None => None,
            },
            byte_offset: self.byte_offset,
        }
    }
}

/// The bytes of an element hold all its bits, over all lanes, and waste less
/// than a byte. The whole bytes of a lane leave out less than a byte of it.
pub proof fn law_element_sizes_are_tight(dtype: DLDataType)
    ensures
        dtype.bits * dtype.lanes <= 8 * dtype.spec_item_size() < dtype.bits * dtype.lanes + 8,
        8 * dtype.spec_lane_bytes() <= dtype.bits < 8 * dtype.spec_lane_bytes() + 8,
{
}

/// A byte is an unsigned integer of eight bits in one lane, so an element of
/// that type takes one byte.
pub proof fn law_byte_takes_one_byte()
    ensures
        byte_type().code == 1,
        byte_type().bits == 8,
        byte_type().lanes == 1,
        byte_type().spec_item_size() == 1,
        byte_type().spec_lane_bytes() == 1,
{
}

/// The model of a description has the very values of its fields.
pub proof fn law_description_model_is_exact(tensor: DLTensor)
    ensures
        tensor@.data == tensor.data,
        tensor@.device == tensor.device,
        tensor@.ndim == tensor.ndim,
        tensor@.dtype == tensor.dtype,
        tensor@.shape == tensor.shape@,
        tensor@.strides is Some <==> tensor.strides is Some,
        tensor.strides matches Some(strides) ==> tensor@.strides == Some(strides@),
        tensor@.byte_offset == tensor.byte_offset,
{
}

} // verus!
