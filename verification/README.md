# tvm_runtime

Tensors over memory that a device API owns, with their decisions verified.

- `src/dlpack.rs`, `src/extents.rs`: the DLPack description of a tensor as plain
  values, element counts and row-major strides.
- `src/device.rs`, `src/device_api.rs`, `src/nd_alloc.rs`: which devices are
  hosts, the calls asked of the device API and their order, allocation sizes.
- `src/host_copy.rs`, `src/tensor.rs`: byte copies, and the tensor with its
  copies and reshapes. An operation that needs the device API returns the
  request, and takes the answer as an argument of the next step.
- `src/any_array.rs`, `src/text.rs`: one element of a mixed array, and the texts
  of errors.
- `src/laws.rs`: what holds across operations.
- `app/`: carries the requests out with `tvm_ffi` and the device API.
