//! The guest-side interface schema: the types a guest program hands to the
//! adaptor and receives back. Handles are opaque `u32` values owned by the
//! host; this layer never interprets them.

use vstd::prelude::*;

verus! {

/// Element type of a tensor, as the guest interface declares it.
///
/// The host wire schema lists the same variants in a different order, so
/// translation goes by variant name, never by position.
#[derive(Clone, Copy, PartialEq, Eq, Structural, Debug)]
pub enum TensorType {
    Fp16,
    U8,
    Fp32,
    Fp64,
    Bf16,
    I32,
    I64,
}

/// Where the host should run a loaded graph.
#[derive(Clone, Copy, PartialEq, Eq, Structural, Debug)]
pub enum ExecutionTarget {
    Cpu,
    Gpu,
    Tpu,
}

/// Serialization format of a graph handed to `load`.
///
/// The host schema is a strict superset: it also accepts an open-ended
/// `Other` encoding that the guest interface cannot express.
#[derive(Clone, Copy, PartialEq, Eq, Structural, Debug)]
pub enum GraphEncoding {
    Onnx,
    Openvino,
    Tensorflow,
    Tensorflowlite,
    Pytorch,
    Autodetect,
}

/// The two-variant error signal the guest receives.
///
/// `InvalidArgument` stands for any host-side rejection or transport failure;
/// `InvalidEncoding` stands for a local failure to build or read an envelope.
#[derive(Clone, Copy, PartialEq, Eq, Structural, Debug)]
pub enum Error {
    InvalidArgument,
    InvalidEncoding,
}

/// A tensor as the guest supplies it: declared dimensions and element type,
/// plus the raw bytes. Nothing here is validated; the adaptor only carries
/// the value to the host.
pub struct Tensor {
    pub dimensions: Vec<u32>,
    pub tensor_type: TensorType,
    pub data: Vec<u8>,
}

} // verus!
