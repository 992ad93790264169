//! The calls that the library asks of the device API, and their order.
//!
//! Every operation first gets the API of a device. What comes back is the
//! handle that the remaining calls of the operation are made on.

use crate::dlpack::{DLDataType, DLDevice, DLTensor, DLTensorModel};
use vstd::prelude::*;

verus! {

/// The stream handle that stands for the default stream.
pub const DEFAULT_STREAM: usize = 0;

/// The flag of [`DeviceCall::Get`] that makes a missing device API an error.
pub const REQUIRE_PRESENT: i32 = 0;

/// One call of the device API.
#[derive(Debug, PartialEq, Eq)]
pub enum DeviceCall {
    /// Gets the API of `device`. Answered with a handle.
    Get { device: DLDevice, allow_missing: i32 },
    /// Allocates `size` bytes. Answered with their address.
    AllocDataSpace {
        handle: usize,
        device: DLDevice,
        size: usize,
        align: usize,
        dtype: DLDataType,
    },
    /// Frees what was allocated at `data`.
    FreeDataSpace { handle: usize, device: DLDevice, data: usize },
    /// Copies the elements of `from` to `to`.
    CopyDataFromTo { handle: usize, from: DLTensor, to: DLTensor, stream: usize },
    /// Waits until `stream` of `device` has done what it was given.
    StreamSync { handle: usize, device: DLDevice, stream: usize },
    /// Gives the handle back.
    Destroy { handle: usize },
}

/// What a [`DeviceCall`] holds.
#[verifier::ext_equal]
pub enum DeviceCallModel {
    Get { device: DLDevice, allow_missing: i32 },
    AllocDataSpace {
        handle: usize,
        device: DLDevice,
        size: usize,
        align: usize,
        dtype: DLDataType,
    },
    FreeDataSpace { handle: usize, device: DLDevice, data: usize },
    CopyDataFromTo { handle: usize, from: DLTensorModel, to: DLTensorModel, stream: usize },
    StreamSync { handle: usize, device: DLDevice, stream: usize },
    Destroy { handle: usize },
}

impl View for DeviceCall {
    type V = DeviceCallModel;

    open spec fn view(&self) -> DeviceCallModel {
        match *self {
            DeviceCall::Get { device, allow_missing } => DeviceCallModel::Get {
                device,
                allow_missing,
            },
            DeviceCall::AllocDataSpace { handle, device, size, align, dtype } =>
                DeviceCallModel::AllocDataSpace { handle, device, size, align, dtype },
            DeviceCall::FreeDataSpace { handle, device, data } =>
                DeviceCallModel::FreeDataSpace { handle, device, data },
            DeviceCall::CopyDataFromTo { handle, from, to, stream } =>
                DeviceCallModel::CopyDataFromTo { handle, from: from@, to: to@, stream },
            DeviceCall::StreamSync { handle, device, stream } => DeviceCallModel::StreamSync {
                handle,
                device,
                stream,
            },
            DeviceCall::Destroy { handle } => DeviceCallModel::Destroy { handle },
        }
    }
}

/// The call with which every operation on `device` starts.
pub open spec fn get_call(device: DLDevice) -> DeviceCallModel {
    DeviceCallModel::Get { device, allow_missing: REQUIRE_PRESENT }
}

/// The call with which every operation on `device` starts.
pub fn get_device_api(device: DLDevice) -> (call: DeviceCall)
    ensures
        call@ == get_call(device),
{
    DeviceCall::Get { device, allow_missing: REQUIRE_PRESENT }
}

/// A request for storage on `device`.
#[derive(Debug, Clone, Copy, PartialEq, Eq, Structural)]
pub struct DeviceAlloc {
    pub device: DLDevice,
    pub size: usize,
    pub align: usize,
    pub dtype: DLDataType,
}

impl DeviceAlloc {
    /// The call that allocates, on `handle`.
    pub open spec fn spec_call_on(self, handle: usize) -> DeviceCallModel {
        DeviceCallModel::AllocDataSpace {
            handle,
            device: self.device,
            size: self.size,
            align: self.align,
            dtype: self.dtype,
        }
    }

    /// All calls of an allocation, in their order, where the API comes back as
    /// `handle`. The handle is kept.
    pub open spec fn calls(self, handle: usize) -> Seq<DeviceCallModel> {
        seq![get_call(self.device), self.spec_call_on(handle)]
    }

    /// The call that gets the API.
    pub fn first_call(&self) -> (call: DeviceCall)
        ensures
            call@ == get_call(self.device),
    {
        get_device_api(self.device)
    }

    /// The call that allocates, once the API has come back as `handle`. It is
    /// the only one that is left.
    pub fn call_on(&self, handle: usize) -> (call: DeviceCall)
        ensures
            call@ == self.spec_call_on(handle),
            self.calls(handle) == seq![get_call(self.device), call@],
    {
        DeviceCall::AllocDataSpace {
            handle,
            device: self.device,
            size: self.size,
            align: self.align,
            dtype: self.dtype,
        }
    }
}

/// A request to free the storage at `data`.
#[derive(Debug, Clone, Copy, PartialEq, Eq, Structural)]
pub struct DeviceFree {
    pub device: DLDevice,
    pub data: usize,
}

impl DeviceFree {
    /// The call that frees, on `handle`.
    pub open spec fn spec_call_on(self, handle: usize) -> DeviceCallModel {
        DeviceCallModel::FreeDataSpace { handle, device: self.device, data: self.data }
    }

    /// All calls of freeing storage, in their order, where the API comes back as
    /// `handle`. The handle is kept.
    pub open spec fn calls(self, handle: usize) -> Seq<DeviceCallModel> {
        seq![get_call(self.device), self.spec_call_on(handle)]
    }

    /// The call that gets the API.
    pub fn first_call(&self) -> (call: DeviceCall)
        ensures
            call@ == get_call(self.device),
    {
        get_device_api(self.device)
    }

    /// The call that frees, once the API has come back as `handle`. It is the
    /// only one that is left.
    pub fn call_on(&self, handle: usize) -> (call: DeviceCall)
        ensures
            call@ == self.spec_call_on(handle),
            self.calls(handle) == seq![get_call(self.device), call@],
    {
        DeviceCall::FreeDataSpace { handle, device: self.device, data: self.data }
    }
}

/// A copy that the API of `device` carries out.
#[derive(Debug, PartialEq, Eq)]
pub struct DeviceCopy {
    pub device: DLDevice,
    pub from: DLTensor,
    pub to: DLTensor,
}

/// What a [`DeviceCopy`] holds.
#[verifier::ext_equal]
pub struct DeviceCopyModel {
    pub device: DLDevice,
    pub from: DLTensorModel,
    pub to: DLTensorModel,
}

impl View for DeviceCopy {
    type V = DeviceCopyModel;

    open spec fn view(&self) -> DeviceCopyModel {
        DeviceCopyModel { device: self.device, from: self.from@, to: self.to@ }
    }
}

impl DeviceCopyModel {
    /// The calls made on `handle`, in their order: the copy, the wait until it
    /// is done, and giving the handle back.
    pub open spec fn calls_on(self, handle: usize) -> Seq<DeviceCallModel> {
        seq![
            DeviceCallModel::CopyDataFromTo {
                handle,
                from: self.from,
                to: self.to,
                stream: DEFAULT_STREAM,
            },
            DeviceCallModel::StreamSync { handle, device: self.device, stream: DEFAULT_STREAM },
            DeviceCallModel::Destroy { handle },
        ]
    }

    /// All calls of a copy, in their order, where the API comes back as `handle`.
    pub open spec fn calls(self, handle: usize) -> Seq<DeviceCallModel> {
        seq![get_call(self.device)] + self.calls_on(handle)
    }
}

/// What the calls of a list are.
pub open spec fn call_models(calls: Seq<DeviceCall>) -> Seq<DeviceCallModel> {
    calls.map_values(|call: DeviceCall| call@)
}

impl DeviceCopy {
    /// The call that gets the API.
    pub fn first_call(&self) -> (call: DeviceCall)
        ensures
            call@ == get_call(self.device),
    {
        get_device_api(self.device)
    }

    /// The calls that are left, once the API has come back as `handle`.
    pub fn calls_on(self, handle: usize) -> (calls: Vec<DeviceCall>)
        ensures
            call_models(calls@) == self@.calls_on(handle),
    {
        let ghost copy = self@;
        let device: DLDevice = self.device;
        let mut calls: Vec<DeviceCall> = Vec::new();
        calls.push(
            DeviceCall::CopyDataFromTo {
                handle,
                from: self.from,
                to: self.to,
                stream: DEFAULT_STREAM,
            },
        );
        calls.push(DeviceCall::StreamSync { handle, device, stream: DEFAULT_STREAM });
        calls.push(DeviceCall::Destroy { handle });
        assert(call_models(calls@) =~= copy.calls_on(handle));
        calls
    }
}

/// A copy gives its handle back exactly once, and only after every other call
/// that is made on it.
pub proof fn law_copy_returns_its_handle(copy: DeviceCopyModel, handle: usize, i: int)
    requires
        0 <= i < copy.calls_on(handle).len(),
    ensures
        copy.calls_on(handle)[i] == (DeviceCallModel::Destroy { handle }) <==> i == copy.calls_on(
            handle,
        ).len() - 1,
        copy.calls_on(handle)[i] is Destroy ==> i == copy.calls_on(handle).len() - 1,
{
}

/// A copy is waited for on the device whose API was asked for it: the wait
/// comes after the copy, and before the handle is given back.
pub proof fn law_copy_is_waited_for(copy: DeviceCopyModel, handle: usize, i: int, j: int)
    requires
        0 <= i < copy.calls_on(handle).len(),
        0 <= j < copy.calls_on(handle).len(),
        copy.calls_on(handle)[i] is CopyDataFromTo,
        copy.calls_on(handle)[j] is Destroy,
    ensures
        exists|k: int|
            i < k < j && #[trigger] copy.calls_on(handle)[k] == (DeviceCallModel::StreamSync {
                handle,
                device: copy.device,
                stream: DEFAULT_STREAM,
            }),
{
    assert(copy.calls_on(handle)[1] is StreamSync);
}

/// The model of a call is the same call, with the very values of its fields.
pub proof fn law_call_model_is_exact(call: DeviceCall)
    ensures
        match call {
            DeviceCall::Get { device, allow_missing } => call@ == (DeviceCallModel::Get {
                device,
                allow_missing,
            }),
            DeviceCall::AllocDataSpace { handle, device, size, align, dtype } => call@ == (
            DeviceCallModel::AllocDataSpace { handle, device, size, align, dtype }),
            DeviceCall::FreeDataSpace { handle, device, data } => call@ == (
            DeviceCallModel::FreeDataSpace { handle, device, data }),
            DeviceCall::CopyDataFromTo { handle, from, to, stream } => call@ == (
            DeviceCallModel::CopyDataFromTo { handle, from: from@, to: to@, stream }),
            DeviceCall::StreamSync { handle, device, stream } => call@ == (
            DeviceCallModel::StreamSync { handle, device, stream }),
            DeviceCall::Destroy { handle } => call@ == (DeviceCallModel::Destroy { handle }),
        },
{
}

/// The model of a list of calls has the model of each call in its place.
pub proof fn law_call_list_model_is_exact(calls: Seq<DeviceCall>, i: int)
    ensures
        call_models(calls).len() == calls.len(),
        0 <= i < calls.len() ==> call_models(calls)[i] == calls[i]@,
{
}

/// The model of a copy has its device, its source and its destination.
pub proof fn law_copy_model_is_exact(copy: DeviceCopy)
    ensures
        copy@.device == copy.device,
        copy@.from == copy.from@,
        copy@.to == copy.to@,
{
}

/// A copy gets the API of its device, and on the handle copies from its source
/// to its destination, waits for its device, and gives the handle back; all on
/// the default stream.
pub proof fn law_calls_of_a_copy(copy: DeviceCopyModel, handle: usize)
    ensures
        copy.calls(handle).len() == 4,
        copy.calls(handle)[0] == (DeviceCallModel::Get {
            device: copy.device,
            allow_missing: 0,
        }),
        copy.calls(handle)[1] == (DeviceCallModel::CopyDataFromTo {
            handle,
            from: copy.from,
            to: copy.to,
            stream: 0,
        }),
        copy.calls(handle)[2] == (DeviceCallModel::StreamSync {
            handle,
            device: copy.device,
            stream: 0,
        }),
        copy.calls(handle)[3] == (DeviceCallModel::Destroy { handle }),
        copy.calls_on(handle) == copy.calls(handle).skip(1),
{
    assert(copy.calls_on(handle) =~= copy.calls(handle).skip(1));
}

/// A request for storage, and one to free it, gets the API of its device, and
/// makes one call on the handle, with the values of the request.
pub proof fn law_calls_of_requests(alloc_for: DeviceAlloc, free: DeviceFree, handle: usize)
    ensures
        alloc_for.calls(handle).len() == 2,
        alloc_for.calls(handle)[0] == (DeviceCallModel::Get {
            device: alloc_for.device,
            allow_missing: 0,
        }),
        alloc_for.calls(handle)[1] == (DeviceCallModel::AllocDataSpace {
            handle,
            device: alloc_for.device,
            size: alloc_for.size,
            align: alloc_for.align,
            dtype: alloc_for.dtype,
        }),
        alloc_for.spec_call_on(handle) == alloc_for.calls(handle)[1],
        free.calls(handle).len() == 2,
        free.calls(handle)[0] == (DeviceCallModel::Get {
            device: free.device,
            allow_missing: 0,
        }),
        free.calls(handle)[1] == (DeviceCallModel::FreeDataSpace {
            handle,
            device: free.device,
            data: free.data,
        }),
        free.spec_call_on(handle) == free.calls(handle)[1],
        get_call(free.device) == free.calls(handle)[0],
{
}

} // verus!
