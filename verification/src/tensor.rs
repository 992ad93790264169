//! Tensors: what they are, and what their operations do.

use crate::device::{host_of_device, is_host, is_host_type, matching_host};
use crate::device_api::{DeviceAlloc, DeviceCopy, DeviceCopyModel};
use crate::dlpack::{byte_type, DLDataType, DLDevice, DLDeviceType, DLTensor, DLTensorModel};
use crate::extents::{
    checked_product, checked_row_major, checked_strides, element_count, fits_i64, is_row_major,
    prefix_products_fit, product, row_major, row_major_computable, suffix_products_fit,
};
use crate::host_copy::{DataSlice, HostCopy};
use crate::nd_alloc::{allocatable, storage_size, DeviceNDAlloc};
use crate::text::{list_text, push_list};
use vstd::prelude::*;
use vstd::slice::slice_to_vec;

verus! {

/// The kinds under which errors are raised.
#[derive(Debug, Clone, Copy, PartialEq, Eq, Structural)]
pub enum ErrorKind {
    TypeError,
    RuntimeError,
    ValueError,
}

/// Why the elements of a tensor cannot be seen as a slice.
#[derive(Debug, Clone, Copy, PartialEq, Eq, Structural)]
pub enum SliceError {
    /// The elements are of another type.
    TypeMismatch { actual: DLDataType, expected: DLDataType },
    /// The storage is not plain CPU memory.
    NotOnCpu,
    /// The elements are not in row-major order without gaps.
    NotContiguous,
}

impl SliceError {
    /// The kind under which the error is raised: what depends on the element
    /// type is a type error, everything else a runtime error.
    pub fn kind(&self) -> (kind: ErrorKind)
        ensures
            kind == (if self is TypeMismatch {
                ErrorKind::TypeError
            } else {
                ErrorKind::RuntimeError
            }),
    {
        match self {
            SliceError::TypeMismatch { .. } => ErrorKind::TypeError,
            SliceError::NotOnCpu => ErrorKind::RuntimeError,
            SliceError::NotContiguous => ErrorKind::RuntimeError,
        }
    }
}

/// A tensor cannot be reshaped to extents that span another number of elements.
#[derive(Debug, PartialEq, Eq)]
pub struct ReshapeError {
    pub from: Vec<i64>,
    pub to: Vec<i64>,
}

impl ReshapeError {
    /// The kind under which the error is raised.
    pub fn kind(&self) -> (kind: ErrorKind)
        ensures
            kind == ErrorKind::ValueError,
    {
        ErrorKind::ValueError
    }

    /// The words in which the error is reported.
    pub open spec fn spec_message(self) -> Seq<char> {
        "Cannot reshape from "@ + list_text(self.from@) + " to "@ + list_text(self.to@)
    }

    /// The words in which the error is reported.
    pub fn message(&self) -> (text: String)
        ensures
            text@ == self.spec_message(),
    {
        let mut text: String = String::new();
        text.append("Cannot reshape from ");
        push_list(&mut text, self.from.as_slice());
        text.append(" to ");
        push_list(&mut text, self.to.as_slice());
        assert(text@ =~= self.spec_message());
        text
    }
}

/// A new tensor can be made over `shape`: it can hold extents and strides side
/// by side, its strides can be computed, and its storage can be asked for.
pub open spec fn creatable(shape: Seq<i64>, dtype: DLDataType) -> bool {
    &&& 2 * shape.len() <= i32::MAX
    &&& suffix_products_fit(shape)
    &&& allocatable(shape, dtype)
}

/// What a [`Tensor`] is.
#[verifier::ext_equal]
pub struct TensorModel {
    pub shape: Seq<i64>,
    /// Counted in elements.
    pub strides: Seq<i64>,
    pub dtype: DLDataType,
    pub device: DLDevice,
    /// The address of the first element.
    pub data: usize,
}

impl TensorModel {
    /// Every dimension has a stride, and the dimensions can be counted in an
    /// `i32`.
    pub open spec fn valid(self) -> bool {
        &&& self.strides.len() == self.shape.len()
        &&& self.shape.len() <= i32::MAX
    }

    /// The elements can be counted without overflow.
    pub open spec fn countable(self) -> bool {
        prefix_products_fit(self.shape)
    }

    /// How many elements there are, as a `usize`.
    pub open spec fn numel(self) -> int {
        element_count(self.shape)
    }

    /// Contiguity can be decided without overflow.
    pub open spec fn contiguity_computable(self) -> bool {
        row_major_computable(self.shape, self.strides)
    }

    /// Whether the elements are open as a slice of `element`s, and how many
    /// there are, can be computed without overflow, as far as it is asked.
    pub open spec fn slice_computable(self, element: DLDataType) -> bool {
        self.dtype == element && self.device.device_type == DLDeviceType::kDLCPU ==> {
            &&& self.contiguity_computable()
            &&& self.is_contiguous() ==> self.countable()
        }
    }

    /// The elements are in row-major order without gaps.
    pub open spec fn is_contiguous(self) -> bool {
        is_row_major(self.shape, self.strides)
    }

    /// The host addresses the storage.
    pub open spec fn on_host(self) -> bool {
        is_host_type(self.device.device_type)
    }

    /// The bytes that a host copy to the tensor moves.
    pub open spec fn copy_size(self) -> int {
        self.numel() * self.dtype.spec_lane_bytes()
    }

    /// The DLPack description. Strides are left out where there are none.
    pub open spec fn dltensor(self) -> DLTensorModel {
        DLTensorModel {
            data: self.data,
            device: self.device,
            ndim: self.shape.len() as i32,
            dtype: self.dtype,
            shape: self.shape,
            strides: if self.strides.len() == 0 {
                None
            } else {
                Some(self.strides)
            },
            byte_offset: 0,
        }
    }

    /// The elements as a slice of `element`s. That takes elements of exactly
    /// that type, in plain CPU memory, in row-major order without gaps.
    pub open spec fn slice_of(self, element: DLDataType) -> Result<DataSlice, SliceError> {
        if self.dtype != element {
            Err(SliceError::TypeMismatch { actual: self.dtype, expected: element })
        } else if self.device.device_type != DLDeviceType::kDLCPU {
            Err(SliceError::NotOnCpu)
        } else if !self.is_contiguous() {
            Err(SliceError::NotContiguous)
        } else {
            Ok(DataSlice { data: self.data, len: self.numel() as usize })
        }
    }
}

/// `described` has the address, the device, the element type and the layout of
/// `tensor`, with its first element at the address itself.
pub open spec fn describes(described: DLTensor, tensor: TensorModel) -> bool {
    &&& described.data == tensor.data
    &&& described.byte_offset == 0
    &&& described.device == tensor.device
    &&& described.dtype == tensor.dtype
    &&& described.ndim == tensor.shape.len()
    &&& described.shape@ == tensor.shape
    &&& described.strides is Some <==> tensor.strides.len() > 0
    &&& described.strides matches Some(strides) ==> strides@ == tensor.strides
}

/// How a copy is to be carried out.
#[derive(Debug, PartialEq, Eq)]
pub enum CopyPlan {
    /// By moving bytes that the host addresses.
    Host(HostCopy),
    /// By the device API.
    Device(DeviceCopy),
}

/// What a [`CopyPlan`] is.
#[verifier::ext_equal]
pub enum CopyPlanModel {
    Host(HostCopy),
    Device(DeviceCopyModel),
}

impl View for CopyPlan {
    type V = CopyPlanModel;

    open spec fn view(&self) -> CopyPlanModel {
        match *self {
            CopyPlan::Host(copy) => CopyPlanModel::Host(copy),
            CopyPlan::Device(copy) => CopyPlanModel::Device(copy@),
        }
    }
}

/// The result of planning a copy.
pub open spec fn plan_model(plan: Result<CopyPlan, SliceError>) -> Result<
    CopyPlanModel,
    SliceError,
> {
    match plan {
        Ok(plan) => Ok(plan@),
        Err(error) => Err(error),
    }
}

/// How the elements of `src` get to `dst`. Between hosts the bytes are moved,
/// and both tensors must be open to the host as bytes, the source first.
/// Otherwise the API of the device that is no host copies, that of `dst` where
/// neither is a host.
pub open spec fn copy_plan(dst: TensorModel, src: TensorModel) -> Result<
    CopyPlanModel,
    SliceError,
> {
    if dst.on_host() && src.on_host() {
        match (src.slice_of(byte_type()), dst.slice_of(byte_type())) {
            (Err(error), _) => Err(error),
            (_, Err(error)) => Err(error),
            (Ok(from), Ok(to)) => Ok(
                CopyPlanModel::Host(HostCopy { from, to, nbytes: dst.copy_size() as usize }),
            ),
        }
    } else {
        Ok(
            CopyPlanModel::Device(
                DeviceCopyModel {
                    device: if dst.on_host() {
                        src.device
                    } else {
                        dst.device
                    },
                    from: src.dltensor(),
                    to: dst.dltensor(),
                },
            ),
        )
    }
}

/// What a copy between hosts computes does not overflow, as far as it gets, and
/// the lengths that it compares agree: where `src` is open to the host as bytes,
/// it has as many as `dst` takes. Other copies compute and compare nothing.
pub open spec fn copy_sizes_agree(dst: TensorModel, src: TensorModel) -> bool {
    dst.on_host() && src.on_host() ==> {
        &&& dst.countable()
        &&& dst.copy_size() <= usize::MAX
        &&& src.slice_computable(byte_type())
        &&& src.slice_of(byte_type()) is Ok ==> {
            &&& dst.copy_size() == src.numel()
            &&& dst.slice_computable(byte_type())
        }
    }
}

/// The same of a copy out of a byte slice to a host.
pub open spec fn slice_sizes_agree(dst: TensorModel, src: DataSlice) -> bool {
    dst.on_host() ==> {
        &&& dst.countable()
        &&& dst.copy_size() == src.len
        &&& dst.slice_computable(byte_type())
    }
}

/// The tensor that lends the bytes of `src` the layout of `dst`, in the host
/// memory that serves the device of `dst`.
pub open spec fn staging_tensor(dst: TensorModel, src: DataSlice) -> DLTensorModel {
    DLTensorModel {
        data: src.data,
        device: DLDevice {
            device_type: matching_host(dst.device.device_type)->0,
            device_id: 0,
        },
        ..dst.dltensor()
    }
}

/// How the bytes of `src` get to `dst`. To a host they are moved, and `dst` must
/// be open to the host as bytes. To another device its API copies them out of
/// host memory.
pub open spec fn slice_copy_plan(dst: TensorModel, src: DataSlice) -> Result<
    CopyPlanModel,
    SliceError,
> {
    if dst.on_host() {
        match dst.slice_of(byte_type()) {
            Err(error) => Err(error),
            Ok(to) => Ok(
                CopyPlanModel::Host(
                    HostCopy { from: src, to, nbytes: dst.copy_size() as usize },
                ),
            ),
        }
    } else {
        Ok(
            CopyPlanModel::Device(
                DeviceCopyModel {
                    device: dst.device,
                    from: staging_tensor(dst, src),
                    to: dst.dltensor(),
                },
            ),
        )
    }
}

/// A reshape of `source` to `shape` can be asked for: both can be counted, and
/// where the counts agree, a tensor over `shape` can be made, and on a host the
/// elements are open as bytes, so that they can be copied.
pub open spec fn reshape_computable(source: TensorModel, shape: Seq<i64>) -> bool {
    &&& source.countable()
    &&& prefix_products_fit(shape)
    &&& product(shape) == product(source.shape) ==> {
        &&& creatable(shape, source.dtype)
        &&& source.on_host() ==> {
            &&& source.slice_computable(byte_type())
            &&& source.slice_of(byte_type()) is Ok
        }
    }
}

/// A tensor: the layout of its elements, and where they are. A clone is the
/// same tensor over the same storage.
#[derive(Debug)]
pub struct Tensor {
    shape: Vec<i64>,
    strides: Vec<i64>,
    dtype: DLDataType,
    device: DLDevice,
    data: usize,
}

impl View for Tensor {
    type V = TensorModel;

    closed spec fn view(&self) -> TensorModel {
        TensorModel {
            shape: self.shape@,
            strides: self.strides@,
            dtype: self.dtype,
            device: self.device,
            data: self.data,
        }
    }
}

impl Clone for Tensor {
    fn clone(&self) -> (tensor: Self)
        ensures
            tensor@ == self@,
    {
        Tensor {
            shape: slice_to_vec(self.shape.as_slice()),
            strides: slice_to_vec(self.strides.as_slice()),
            dtype: self.dtype,
            device: self.device,
            data: self.data,
        }
    }
}

/// A tensor that waits for its storage.
#[derive(Debug)]
pub struct EmptyTensor {
    tensor: Tensor,
    storage: DeviceAlloc,
}

/// The tensor over `shape` with its storage at `data`, in row-major order.
pub open spec fn fresh_tensor(
    shape: Seq<i64>,
    dtype: DLDataType,
    device: DLDevice,
    data: usize,
) -> TensorModel {
    TensorModel { shape, strides: row_major(shape), dtype, device, data }
}

/// The storage that a tensor over `shape` asks for.
pub open spec fn storage_request(
    shape: Seq<i64>,
    dtype: DLDataType,
    device: DLDevice,
) -> DeviceAlloc {
    DeviceAlloc {
        device,
        size: storage_size(shape, dtype) as usize,
        align: DeviceNDAlloc::MIN_ALIGN,
        dtype,
    }
}

impl EmptyTensor {
    pub closed spec fn shape(self) -> Seq<i64> {
        self.tensor.shape@
    }

    pub closed spec fn dtype(self) -> DLDataType {
        self.tensor.dtype
    }

    pub closed spec fn device(self) -> DLDevice {
        self.tensor.device
    }

    /// The layout is that of a new tensor, and the request is for its storage.
    pub closed spec fn wf(self) -> bool {
        &&& creatable(self.shape(), self.dtype())
        &&& self.tensor@ == fresh_tensor(self.shape(), self.dtype(), self.device(), 0)
        &&& self.storage == storage_request(self.shape(), self.dtype(), self.device())
    }

    /// The storage to allocate.
    pub fn storage(&self) -> (request: DeviceAlloc)
        requires
            self.wf(),
        ensures
            request == storage_request(self.shape(), self.dtype(), self.device()),
    {
        self.storage
    }

    /// The tensor, once its storage has been allocated at `data`.
    pub fn with_data(self, data: usize) -> (tensor: Tensor)
        requires
            self.wf(),
        ensures
            tensor.wf(),
            tensor@ == fresh_tensor(self.shape(), self.dtype(), self.device(), data),
    {
        let tensor: Tensor = self.tensor;
        Tensor {
            shape: tensor.shape,
            strides: tensor.strides,
            dtype: tensor.dtype,
            device: tensor.device,
            data,
        }
    }
}

/// A reshape that waits for the storage of its result.
#[derive(Debug)]
pub struct Reshape {
    source: Tensor,
    target: EmptyTensor,
}

impl Reshape {
    /// The tensor that is reshaped.
    pub closed spec fn source(self) -> TensorModel {
        self.source@
    }

    /// The extents of the result.
    pub closed spec fn shape(self) -> Seq<i64> {
        self.target.shape()
    }

    /// Source and result have as many elements, of the same type and on the
    /// same device, and the elements can be copied.
    pub closed spec fn wf(self) -> bool {
        &&& self.source.wf()
        &&& self.target.wf()
        &&& product(self.shape()) == product(self.source().shape)
        &&& self.target.dtype() == self.source().dtype
        &&& self.target.device() == self.source().device
        &&& self.source().on_host() ==> {
            &&& self.source().slice_computable(byte_type())
            &&& self.source().slice_of(byte_type()) is Ok
        }
    }

    /// The storage to allocate for the result.
    pub fn storage(&self) -> (request: DeviceAlloc)
        requires
            self.wf(),
        ensures
            request == storage_request(self.shape(), self.source().dtype, self.source().device),
    {
        self.target.storage()
    }

    /// The result, once its storage has been allocated at `data`, and the copy
    /// that fills it.
    pub fn with_data(self, data: usize) -> (reshaped: (Tensor, CopyPlan))
        requires
            self.wf(),
        ensures
            reshaped.0.wf(),
            reshaped.0@ == fresh_tensor(
                self.shape(),
                self.source().dtype,
                self.source().device,
                data,
            ),
            Ok::<CopyPlanModel, SliceError>(reshaped.1@) == copy_plan(
                reshaped.0@,
                self.source(),
            ),
    {
        let mut tensor: Tensor = self.target.with_data(data);
        proof {
            lemma_row_major(tensor@.shape);
            if tensor@.on_host() {
                lemma_byte_copy_size(tensor@);
            }
        }
        let plan: CopyPlan = tensor.copy_from(&self.source).unwrap();
        (tensor, plan)
    }
}

/// The row-major strides of extents are in row-major order.
pub proof fn lemma_row_major(shape: Seq<i64>)
    requires
        suffix_products_fit(shape),
    ensures
        is_row_major(shape, row_major(shape)),
        row_major_computable(shape, row_major(shape)),
{
    assert forall|i: int| 0 <= i < shape.len() implies #[trigger] row_major(shape)[i] == product(
        shape.skip(i + 1),
    ) by {
        assert(fits_i64(product(shape.skip(i + 1))));
    }
}

/// A host copy moves one byte for each element of a tensor of bytes.
pub proof fn lemma_byte_copy_size(tensor: TensorModel)
    requires
        tensor.dtype == byte_type(),
    ensures
        tensor.copy_size() == tensor.numel(),
{
    assert(tensor.dtype.spec_lane_bytes() == 1);
}

impl Tensor {
    /// Every dimension has a stride, and the dimensions can be counted in an
    /// `i32`.
    pub open spec fn wf(self) -> bool {
        self@.valid()
    }

    /// The tensor of the given layout, over the storage at `data`, or `None`
    /// where the strides do not match the dimensions, or those cannot be counted
    /// in an `i32`.
    pub fn from_parts(
        shape: Vec<i64>,
        strides: Vec<i64>,
        dtype: DLDataType,
        device: DLDevice,
        data: usize,
    ) -> (tensor: Option<Tensor>)
        ensures
            tensor is Some <==> strides@.len() == shape@.len() && shape@.len() <= i32::MAX,
            tensor matches Some(tensor) ==> tensor.wf() && tensor@ == (TensorModel {
                shape: shape@,
                strides: strides@,
                dtype,
                device,
                data,
            }),
    {
        if strides.len() != shape.len() || shape.len() > i32::MAX as usize {
            return None;
        }
        Some(Tensor { shape, strides, dtype, device, data })
    }

    /// Whether a new tensor can be made over `shape`.
    pub fn can_create(shape: &[i64], dtype: DLDataType) -> (can: bool)
        ensures
            can == creatable(shape@, dtype),
    {
        if shape.len() > i32::MAX as usize / 2 {
            return false;
        }
        if checked_strides(shape).is_none() {
            return false;
        }
        DeviceNDAlloc::checked_size(shape, dtype).is_some()
    }

    /// Whether [`Tensor::data_as_slice`] can be asked for `element`s.
    pub fn can_slice(&self, element: DLDataType) -> (can: bool)
        requires
            self.wf(),
        ensures
            can == self@.slice_computable(element),
    {
        if self.dtype != element || self.device.device_type != DLDeviceType::kDLCPU {
            return true;
        }
        match checked_row_major(self.shape.as_slice(), self.strides.as_slice()) {
            Some(contiguous) => !contiguous || checked_product(self.shape.as_slice()).is_some(),
            None => false,
        }
    }

    /// A new tensor over `shape` on `device`, in row-major order. Its storage is
    /// still to be allocated, and what that holds is left open.
    pub fn empty(shape: &[i64], dtype: DLDataType, device: DLDevice) -> (empty: EmptyTensor)
        requires
            creatable(shape@, dtype),
        ensures
            empty.wf(),
            empty.shape() == shape@,
            empty.dtype() == dtype,
            empty.device() == device,
    {
        let strides: Vec<i64> = checked_strides(shape).unwrap();
        let tensor: Tensor = Tensor {
            shape: slice_to_vec(shape),
            strides,
            dtype,
            device,
            data: 0,
        };
        let prototype: DLTensor = tensor.dltensor();
        let mut allocator: DeviceNDAlloc = DeviceNDAlloc {  };
        let storage: DeviceAlloc = allocator.alloc_data(&prototype);
        EmptyTensor { tensor, storage }
    }

    /// A new tensor of the extents and the element type of `other`, on `device`.
    pub fn empty_like(other: &Tensor, device: DLDevice) -> (empty: EmptyTensor)
        requires
            other.wf(),
            creatable(other@.shape, other@.dtype),
        ensures
            empty.wf(),
            empty.shape() == other@.shape,
            empty.dtype() == other@.dtype,
            empty.device() == device,
    {
        Self::empty(other.shape(), other.dtype(), device)
    }

    /// The extents.
    pub fn shape(&self) -> (shape: &[i64])
        ensures
            shape@ == self@.shape,
    {
        self.shape.as_slice()
    }

    /// The element type.
    pub fn dtype(&self) -> (dtype: DLDataType)
        ensures
            dtype == self@.dtype,
    {
        self.dtype
    }

    /// The device that holds the storage.
    pub fn device(&self) -> (device: DLDevice)
        ensures
            device == self@.device,
    {
        self.device
    }

    /// The DLPack description.
    pub fn dltensor(&self) -> (described: DLTensor)
        requires
            self.wf(),
        ensures
            described@ == self@.dltensor(),
            described.data == self@.data,
            described.byte_offset == 0,
            described.device == self@.device,
            described.dtype == self@.dtype,
            described.ndim == self@.shape.len(),
            described.shape@ == self@.shape,
            described.strides is Some <==> self@.shape.len() > 0,
            described.strides matches Some(strides) ==> strides@ == self@.strides,
    {
        DLTensor {
            data: self.data,
            device: self.device,
            ndim: self.shape.len() as i32,
            dtype: self.dtype,
            shape: slice_to_vec(self.shape.as_slice()),
            strides: if self.strides.len() == 0 {
                None
            } else {
                Some(slice_to_vec(self.strides.as_slice()))
            },
            byte_offset: 0,
        }
    }

    /// The DLPack description, for a callee that writes to the storage.
    pub fn dltensor_mut(&mut self) -> (described: DLTensor)
        requires
            old(self).wf(),
        ensures
            *final(self) == *old(self),
            described@ == old(self)@.dltensor(),
            described.data == old(self)@.data,
            described.byte_offset == 0,
            described.device == old(self)@.device,
            described.dtype == old(self)@.dtype,
            described.ndim == old(self)@.shape.len(),
            described.shape@ == old(self)@.shape,
            described.strides is Some <==> old(self)@.shape.len() > 0,
            described.strides matches Some(strides) ==> strides@ == old(self)@.strides,
    {
        self.dltensor()
    }

    /// The address of the first element.
    pub fn data_ptr(&self) -> (data: usize)
        ensures
            data == self@.data,
    {
        self.data
    }

    /// The address of the first element, to write to.
    pub fn data_ptr_mut(&mut self) -> (data: usize)
        ensures
            *final(self) == *old(self),
            data == old(self)@.data,
    {
        self.data
    }

    /// The elements as a slice of `element`s.
    pub fn data_as_slice(&self, element: DLDataType) -> (slice: Result<DataSlice, SliceError>)
        requires
            self.wf(),
            self@.slice_computable(element),
        ensures
            slice == self@.slice_of(element),
            slice is Ok <==> self@.dtype == element && self@.device.device_type
                == DLDeviceType::kDLCPU && is_row_major(self@.shape, self@.strides),
            slice matches Ok(slice) ==> slice.data == self@.data && slice.len == element_count(
                self@.shape,
            ),
    {
        if self.dtype != element {
            return Err(SliceError::TypeMismatch { actual: self.dtype, expected: element });
        }
        if self.device.device_type != DLDeviceType::kDLCPU {
            return Err(SliceError::NotOnCpu);
        }
        if !self.is_contiguous() {
            return Err(SliceError::NotContiguous);
        }
        Ok(DataSlice { data: self.data, len: self.numel() })
    }

    /// The elements as a slice of `element`s, to write to.
    pub fn data_as_slice_mut(&mut self, element: DLDataType) -> (slice: Result<
        DataSlice,
        SliceError,
    >)
        requires
            old(self).wf(),
            old(self)@.slice_computable(element),
        ensures
            *final(self) == *old(self),
            slice == old(self)@.slice_of(element),
            slice is Ok <==> old(self)@.dtype == element && old(self)@.device.device_type
                == DLDeviceType::kDLCPU && is_row_major(old(self)@.shape, old(self)@.strides),
            slice matches Ok(slice) ==> slice.data == old(self)@.data && slice.len
                == element_count(old(self)@.shape),
    {
        self.data_as_slice(element)
    }

    /// Whether the elements are in row-major order without gaps.
    pub fn is_contiguous(&self) -> (contiguous: bool)
        requires
            self.wf(),
            self@.contiguity_computable(),
        ensures
            contiguous == self@.is_contiguous(),
            contiguous == is_row_major(self@.shape, self@.strides),
    {
        checked_row_major(self.shape.as_slice(), self.strides.as_slice()).unwrap()
    }

    /// How many dimensions there are.
    pub fn ndim(&self) -> (ndim: usize)
        ensures
            ndim == self@.shape.len(),
    {
        self.shape.len()
    }

    /// How many elements there are.
    pub fn numel(&self) -> (numel: usize)
        requires
            self@.countable(),
        ensures
            numel == self@.numel(),
            0 <= product(self@.shape) <= usize::MAX ==> numel == product(self@.shape),
    {
        checked_product(self.shape.as_slice()).unwrap() as usize
    }

    /// The strides, counted in elements.
    pub fn strides(&self) -> (strides: &[i64])
        ensures
            strides@ == self@.strides,
    {
        self.strides.as_slice()
    }

    /// The bytes that a host copy to the tensor moves, or `None` where they
    /// cannot be counted.
    pub fn copy_size(&self) -> (size: Option<usize>)
        ensures
            size is Some <==> self@.countable() && self@.copy_size() <= usize::MAX,
            size matches Some(n) ==> n == self@.copy_size(),
    {
        if checked_product(self.shape.as_slice()).is_none() {
            return None;
        }
        self.numel().checked_mul(self.dtype.lane_bytes())
    }

    /// Whether [`Tensor::copy_from`] can be asked for the elements of `src`.
    pub fn can_copy_from(&self, src: &Tensor) -> (can: bool)
        requires
            self.wf(),
            src.wf(),
        ensures
            can == copy_sizes_agree(self@, src@),
    {
        if !is_host(self.device()) || !is_host(src.device()) {
            return true;
        }
        let nbytes: usize = match self.copy_size() {
            Some(nbytes) => nbytes,
            None => {
                return false;
            },
        };
        if !src.can_slice(DLDataType::byte()) {
            return false;
        }
        match src.data_as_slice(DLDataType::byte()) {
            Ok(from) => nbytes == from.len && self.can_slice(DLDataType::byte()),
            Err(_) => true,
        }
    }

    /// Plans the copy of the elements of `src` to the tensor.
    pub fn copy_from(&mut self, src: &Tensor) -> (plan: Result<CopyPlan, SliceError>)
        requires
            old(self).wf(),
            src.wf(),
            copy_sizes_agree(old(self)@, src@),
        ensures
            *final(self) == *old(self),
            plan_model(plan) == copy_plan(old(self)@, src@),
            plan matches Ok(CopyPlan::Device(copy)) ==> {
                &&& describes(copy.from, src@)
                &&& describes(copy.to, old(self)@)
                &&& !is_host_type(old(self)@.device.device_type) ==> copy.device
                    == old(self)@.device
                &&& is_host_type(old(self)@.device.device_type) ==> copy.device == src@.device
            },
            plan matches Ok(CopyPlan::Host(copy)) ==> {
                &&& copy.from.data == src@.data
                &&& copy.to.data == old(self)@.data
                &&& copy.nbytes == copy.from.len == copy.to.len
            },
    {
        if is_host(self.device()) && is_host(src.device()) {
            let nbytes: usize = self.copy_size().unwrap();
            let from: DataSlice = match src.data_as_slice(DLDataType::byte()) {
                Ok(from) => from,
                Err(error) => {
                    return Err(error);
                },
            };
            let to: DataSlice = match self.data_as_slice_mut(DLDataType::byte()) {
                Ok(to) => to,
                Err(error) => {
                    return Err(error);
                },
            };
            Ok(CopyPlan::Host(HostCopy { from, to, nbytes }))
        } else {
            let device: DLDevice = if is_host(self.device()) {
                src.device()
            } else {
                self.device()
            };
            let from: DLTensor = src.dltensor();
            let to: DLTensor = self.dltensor_mut();
            Ok(CopyPlan::Device(DeviceCopy { device, from, to }))
        }
    }

    /// Whether [`Tensor::copy_from_slice`] can be asked for the bytes of `src`.
    pub fn can_copy_from_slice(&self, src: DataSlice) -> (can: bool)
        requires
            self.wf(),
        ensures
            can == slice_sizes_agree(self@, src),
    {
        if !is_host(self.device()) {
            return true;
        }
        match self.copy_size() {
            Some(nbytes) => nbytes == src.len && self.can_slice(DLDataType::byte()),
            None => false,
        }
    }

    /// Plans the copy of the bytes of `src` to the tensor.
    pub fn copy_from_slice(&mut self, src: DataSlice) -> (plan: Result<CopyPlan, SliceError>)
        requires
            old(self).wf(),
            slice_sizes_agree(old(self)@, src),
        ensures
            *final(self) == *old(self),
            plan_model(plan) == slice_copy_plan(old(self)@, src),
            plan matches Ok(CopyPlan::Device(copy)) ==> {
                &&& copy.from.data == src.data
                &&& copy.from.byte_offset == 0
                &&& copy.from.device.device_id == 0
                &&& Some(copy.from.device.device_type) == matching_host(
                    old(self)@.device.device_type,
                )
                &&& describes(copy.to, old(self)@)
                &&& copy.device == old(self)@.device
            },
            plan matches Ok(CopyPlan::Host(copy)) ==> {
                &&& copy.from == src
                &&& copy.to.data == old(self)@.data
                &&& copy.nbytes == copy.from.len == copy.to.len
            },
    {
        if is_host(self.device()) {
            let nbytes: usize = self.copy_size().unwrap();
            let to: DataSlice = match self.data_as_slice_mut(DLDataType::byte()) {
                Ok(to) => to,
                Err(error) => {
                    return Err(error);
                },
            };
            Ok(CopyPlan::Host(HostCopy { from: src, to, nbytes }))
        } else {
            let layout: DLTensor = self.dltensor();
            let from: DLTensor = DLTensor {
                data: src.data,
                device: DLDevice {
                    device_type: host_of_device(self.device()).unwrap(),
                    device_id: 0,
                },
                ndim: layout.ndim,
                dtype: layout.dtype,
                shape: layout.shape,
                strides: layout.strides,
                byte_offset: layout.byte_offset,
            };
            let to: DLTensor = self.dltensor_mut();
            Ok(CopyPlan::Device(DeviceCopy { device: self.device(), from, to }))
        }
    }

    /// Whether [`Tensor::reshape`] can be asked for `shape`.
    pub fn can_reshape(&self, shape: &[i64]) -> (can: bool)
        requires
            self.wf(),
        ensures
            can == reshape_computable(self@, shape@),
    {
        let before: i64 = match checked_product(self.shape()) {
            Some(before) => before,
            None => {
                return false;
            },
        };
        let after: i64 = match checked_product(shape) {
            Some(after) => after,
            None => {
                return false;
            },
        };
        if before != after {
            return true;
        }
        if !Self::can_create(shape, self.dtype()) {
            return false;
        }
        if !is_host(self.device()) {
            return true;
        }
        self.can_slice(DLDataType::byte()) && self.data_as_slice(DLDataType::byte()).is_ok()
    }

    /// Starts a reshape: a new tensor over `shape`, of the same element type and
    /// on the same device, to be filled with the elements of this one.
    pub fn reshape(&self, shape: &[i64]) -> (reshape: Result<Reshape, ReshapeError>)
        requires
            self.wf(),
            reshape_computable(self@, shape@),
        ensures
            reshape is Ok <==> product(shape@) == product(self@.shape),
            reshape matches Ok(reshape) ==> {
                &&& reshape.wf()
                &&& reshape.source() == self@
                &&& reshape.shape() == shape@
            },
            reshape matches Err(error) ==> {
                &&& error.from@ == self@.shape
                &&& error.to@ == shape@
            },
    {
        let before: i64 = checked_product(self.shape()).unwrap();
        let after: i64 = checked_product(shape).unwrap();
        if before != after {
            return Err(
                ReshapeError { from: slice_to_vec(self.shape()), to: slice_to_vec(shape) },
            );
        }
        let target: EmptyTensor = Self::empty(shape, self.dtype(), self.device());
        Ok(Reshape { source: self.clone(), target })
    }
}

/// The model of a plan, and of the result of planning, is the plan itself.
pub proof fn law_plan_model_is_exact(plan: CopyPlan, error: SliceError)
    ensures
        plan matches CopyPlan::Host(copy) ==> plan@ == CopyPlanModel::Host(copy),
        plan matches CopyPlan::Device(copy) ==> plan@ == CopyPlanModel::Device(copy@),
        plan_model(Ok(plan)) == Ok::<CopyPlanModel, SliceError>(plan@),
        plan_model(Err(error)) == Err::<CopyPlanModel, SliceError>(error),
{
}

/// A refused reshape is reported with the extents of both tensors.
pub proof fn law_reshape_message_names_both_shapes(error: ReshapeError)
    ensures
        error.spec_message() == "Cannot reshape from "@ + list_text(error.from@) + " to "@
            + list_text(error.to@),
{
}

} // verus!
