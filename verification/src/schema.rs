//! The host-side wire schema: the shapes that are encoded into request
//! payloads and decoded out of response payloads. It mirrors the guest
//! schema but is not identical to it — variant order differs, the encoding
//! set is wider, and the error taxonomy is richer.

use vstd::prelude::*;

verus! {

/// Element type of a tensor in the host schema. Same variant set as the
/// guest's, listed in the host's own order.
#[derive(Clone, Copy, PartialEq, Eq, Structural, Debug)]
pub enum TensorType {
    Fp16,
    Fp32,
    Fp64,
    Bf16,
    U8,
    I32,
    I64,
}

/// Execution target in the host schema.
#[derive(Clone, Copy, PartialEq, Eq, Structural, Debug)]
pub enum ExecutionTarget {
    Cpu,
    Gpu,
    Tpu,
}

/// Graph encoding in the host schema: a strict superset of the guest set.
/// `Other` carries a free-form encoding name the guest interface cannot ask
/// for; it exists so the wire schema stays total.
#[derive(Debug)]
pub enum GraphEncoding {
    Openvino,
    Onnx,
    Tensorflow,
    Pytorch,
    Tensorflowlite,
    Autodetect,
    Other(String),
}

/// The host's error taxonomy. Every variant the guest cannot represent is
/// collapsed to the guest's `InvalidArgument` at the boundary.
#[derive(Clone, Copy, PartialEq, Eq, Structural, Debug)]
pub enum ErrorCode {
    Success,
    InvalidArgument,
    InvalidEncoding,
    Timeout,
    RuntimeError,
    UnsupportedOperation,
    TooLarge,
    NotFound,
}

/// A tensor in the host schema; the element-type field is named `ty` on the
/// wire.
pub struct Tensor {
    pub dimensions: Vec<u32>,
    pub ty: TensorType,
    pub data: Vec<u8>,
}

/// Request envelope of the load operation.
pub struct LoadRequest {
    pub builder: Vec<Vec<u8>>,
    pub encoding: GraphEncoding,
    pub target: ExecutionTarget,
}

/// Request envelope of the set-input operation.
pub struct SetInputRequest {
    pub context: u32,
    pub index: u32,
    pub tensor: Tensor,
}

/// Request envelope of the get-output operation.
pub struct GetOutputRequest {
    pub context: u32,
    pub index: u32,
}

impl PartialEq for GraphEncoding {
    fn eq(&self, other: &GraphEncoding) -> (r: bool) {
        match (self, other) {
            (GraphEncoding::Openvino, GraphEncoding::Openvino) => true,
            (GraphEncoding::Onnx, GraphEncoding::Onnx) => true,
            (GraphEncoding::Tensorflow, GraphEncoding::Tensorflow) => true,
            (GraphEncoding::Pytorch, GraphEncoding::Pytorch) => true,
            (GraphEncoding::Tensorflowlite, GraphEncoding::Tensorflowlite) => true,
            (GraphEncoding::Autodetect, GraphEncoding::Autodetect) => true,
            (GraphEncoding::Other(a), GraphEncoding::Other(b)) => *a == *b,
            _ => false,
        }
    }
}

impl vstd::std_specs::cmp::PartialEqSpecImpl for GraphEncoding {
    open spec fn obeys_eq_spec() -> bool {
        true
    }

    open spec fn eq_spec(&self, other: &GraphEncoding) -> bool {
        match (self, other) {
            (GraphEncoding::Openvino, GraphEncoding::Openvino) => true,
            (GraphEncoding::Onnx, GraphEncoding::Onnx) => true,
            (GraphEncoding::Tensorflow, GraphEncoding::Tensorflow) => true,
            (GraphEncoding::Pytorch, GraphEncoding::Pytorch) => true,
            (GraphEncoding::Tensorflowlite, GraphEncoding::Tensorflowlite) => true,
            (GraphEncoding::Autodetect, GraphEncoding::Autodetect) => true,
            (GraphEncoding::Other(a), GraphEncoding::Other(b)) => a@ == b@,
            _ => false,
        }
    }
}

} // verus!
