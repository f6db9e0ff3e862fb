//! Pure, total translators between the guest schema and the host wire
//! schema. Every mapping matches variants by name: the two schemas list
//! their variants in different orders, so positional casts would silently
//! re-label values.

use vstd::prelude::*;
use crate::guest;
use crate::schema;

verus! {

pub open spec fn spec_tensor_type_to_host(t: guest::TensorType) -> schema::TensorType {
    match t {
        guest::TensorType::Fp16 => schema::TensorType::Fp16,
        guest::TensorType::U8 => schema::TensorType::U8,
        guest::TensorType::Fp32 => schema::TensorType::Fp32,
        guest::TensorType::Fp64 => schema::TensorType::Fp64,
        guest::TensorType::Bf16 => schema::TensorType::Bf16,
        guest::TensorType::I32 => schema::TensorType::I32,
        guest::TensorType::I64 => schema::TensorType::I64,
    }
}

pub open spec fn spec_tensor_type_to_guest(t: schema::TensorType) -> guest::TensorType {
    match t {
        schema::TensorType::Fp16 => guest::TensorType::Fp16,
        schema::TensorType::Fp32 => guest::TensorType::Fp32,
        schema::TensorType::Fp64 => guest::TensorType::Fp64,
        schema::TensorType::Bf16 => guest::TensorType::Bf16,
        schema::TensorType::U8 => guest::TensorType::U8,
        schema::TensorType::I32 => guest::TensorType::I32,
        schema::TensorType::I64 => guest::TensorType::I64,
    }
}

pub open spec fn spec_execution_target_to_host(t: guest::ExecutionTarget) -> schema::ExecutionTarget {
    match t {
        guest::ExecutionTarget::Cpu => schema::ExecutionTarget::Cpu,
        guest::ExecutionTarget::Gpu => schema::ExecutionTarget::Gpu,
        guest::ExecutionTarget::Tpu => schema::ExecutionTarget::Tpu,
    }
}

pub open spec fn spec_execution_target_to_guest(t: schema::ExecutionTarget) -> guest::ExecutionTarget {
    match t {
        schema::ExecutionTarget::Cpu => guest::ExecutionTarget::Cpu,
        schema::ExecutionTarget::Gpu => guest::ExecutionTarget::Gpu,
        schema::ExecutionTarget::Tpu => guest::ExecutionTarget::Tpu,
    }
}

pub open spec fn spec_graph_encoding_to_host(e: guest::GraphEncoding) -> schema::GraphEncoding {
    match e {
        guest::GraphEncoding::Onnx => schema::GraphEncoding::Onnx,
        guest::GraphEncoding::Openvino => schema::GraphEncoding::Openvino,
        guest::GraphEncoding::Tensorflow => schema::GraphEncoding::Tensorflow,
        guest::GraphEncoding::Tensorflowlite => schema::GraphEncoding::Tensorflowlite,
        guest::GraphEncoding::Pytorch => schema::GraphEncoding::Pytorch,
        guest::GraphEncoding::Autodetect => schema::GraphEncoding::Autodetect,
    }
}

/// The reverse encoding map is partial: the host's `Other` variant has no
/// guest-side counterpart.
pub open spec fn spec_graph_encoding_to_guest(e: schema::GraphEncoding) -> Option<guest::GraphEncoding> {
    match e {
        schema::GraphEncoding::Onnx => Some(guest::GraphEncoding::Onnx),
        schema::GraphEncoding::Openvino => Some(guest::GraphEncoding::Openvino),
        schema::GraphEncoding::Tensorflow => Some(guest::GraphEncoding::Tensorflow),
        schema::GraphEncoding::Tensorflowlite => Some(guest::GraphEncoding::Tensorflowlite),
        schema::GraphEncoding::Pytorch => Some(guest::GraphEncoding::Pytorch),
        schema::GraphEncoding::Autodetect => Some(guest::GraphEncoding::Autodetect),
        schema::GraphEncoding::Other(_) => None,
    }
}

pub fn tensor_type_to_host(t: guest::TensorType) -> (r: schema::TensorType)
    ensures
        r == spec_tensor_type_to_host(t),
{
    match t {
        guest::TensorType::Fp16 => schema::TensorType::Fp16,
        guest::TensorType::U8 => schema::TensorType::U8,
        guest::TensorType::Fp32 => schema::TensorType::Fp32,
        guest::TensorType::Fp64 => schema::TensorType::Fp64,
        guest::TensorType::Bf16 => schema::TensorType::Bf16,
        guest::TensorType::I32 => schema::TensorType::I32,
        guest::TensorType::I64 => schema::TensorType::I64,
    }
}

pub fn tensor_type_to_guest(t: schema::TensorType) -> (r: guest::TensorType)
    ensures
        r == spec_tensor_type_to_guest(t),
{
    match t {
        schema::TensorType::Fp16 => guest::TensorType::Fp16,
        schema::TensorType::Fp32 => guest::TensorType::Fp32,
        schema::TensorType::Fp64 => guest::TensorType::Fp64,
        schema::TensorType::Bf16 => guest::TensorType::Bf16,
        schema::TensorType::U8 => guest::TensorType::U8,
        schema::TensorType::I32 => guest::TensorType::I32,
        schema::TensorType::I64 => guest::TensorType::I64,
    }
}

pub fn execution_target_to_host(t: guest::ExecutionTarget) -> (r: schema::ExecutionTarget)
    ensures
        r == spec_execution_target_to_host(t),
{
    match t {
        guest::ExecutionTarget::Cpu => schema::ExecutionTarget::Cpu,
        guest::ExecutionTarget::Gpu => schema::ExecutionTarget::Gpu,
        guest::ExecutionTarget::Tpu => schema::ExecutionTarget::Tpu,
    }
}

pub fn execution_target_to_guest(t: schema::ExecutionTarget) -> (r: guest::ExecutionTarget)
    ensures
        r == spec_execution_target_to_guest(t),
{
    match t {
        schema::ExecutionTarget::Cpu => guest::ExecutionTarget::Cpu,
        schema::ExecutionTarget::Gpu => guest::ExecutionTarget::Gpu,
        schema::ExecutionTarget::Tpu => guest::ExecutionTarget::Tpu,
    }
}

pub fn graph_encoding_to_host(e: guest::GraphEncoding) -> (r: schema::GraphEncoding)
    ensures
        r == spec_graph_encoding_to_host(e),
{
    match e {
        guest::GraphEncoding::Onnx => schema::GraphEncoding::Onnx,
        guest::GraphEncoding::Openvino => schema::GraphEncoding::Openvino,
        guest::GraphEncoding::Tensorflow => schema::GraphEncoding::Tensorflow,
        guest::GraphEncoding::Tensorflowlite => schema::GraphEncoding::Tensorflowlite,
        guest::GraphEncoding::Pytorch => schema::GraphEncoding::Pytorch,
        guest::GraphEncoding::Autodetect => schema::GraphEncoding::Autodetect,
    }
}

pub fn graph_encoding_to_guest(e: &schema::GraphEncoding) -> (r: Option<guest::GraphEncoding>)
    ensures
        r == spec_graph_encoding_to_guest(*e),
{
    match e {
        schema::GraphEncoding::Onnx => Some(guest::GraphEncoding::Onnx),
        schema::GraphEncoding::Openvino => Some(guest::GraphEncoding::Openvino),
        schema::GraphEncoding::Tensorflow => Some(guest::GraphEncoding::Tensorflow),
        schema::GraphEncoding::Tensorflowlite => Some(guest::GraphEncoding::Tensorflowlite),
        schema::GraphEncoding::Pytorch => Some(guest::GraphEncoding::Pytorch),
        schema::GraphEncoding::Autodetect => Some(guest::GraphEncoding::Autodetect),
        schema::GraphEncoding::Other(_) => None,
    }
}

/// A guest tensor crosses the boundary by translating only its element
/// type; dimensions and data move over unchanged.
pub fn tensor_to_host(t: guest::Tensor) -> (r: schema::Tensor)
    ensures
        r.dimensions@ == t.dimensions@,
        r.ty == spec_tensor_type_to_host(t.tensor_type),
        r.data@ == t.data@,
{
    let ty = tensor_type_to_host(t.tensor_type);
    schema::Tensor { dimensions: t.dimensions, ty, data: t.data }
}

/// Law: translating a guest tensor type into the host schema and back
/// yields the original variant.
pub proof fn tensor_type_round_trip(t: guest::TensorType)
    ensures
        spec_tensor_type_to_guest(spec_tensor_type_to_host(t)) == t,
{
}

/// Law: translating a guest execution target into the host schema and back
/// yields the original variant.
pub proof fn execution_target_round_trip(t: guest::ExecutionTarget)
    ensures
        spec_execution_target_to_guest(spec_execution_target_to_host(t)) == t,
{
}

/// Law: translating a guest graph encoding into the host schema and back
/// yields the original variant; the reverse map is defined on everything
/// the forward map produces.
pub proof fn graph_encoding_round_trip(e: guest::GraphEncoding)
    ensures
        spec_graph_encoding_to_guest(spec_graph_encoding_to_host(e)) == Some(e),
{
}

} // verus!
