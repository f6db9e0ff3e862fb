//! The per-operation envelopes: how each request struct of the host schema
//! is laid out as bytes, and how each response payload is read back.
//!
//! Requests with several fields travel as maps keyed by field name; bare
//! values (a graph name, a handle) travel without a wrapping structure.
//! Enum values travel as their variant name, so the two schemas may list
//! variants in any order. Every response is a one-entry map whose key,
//! `Ok` or `Err`, is the host's success discriminant; an `Err` carries the
//! name of a host error code.

use vstd::prelude::*;
use vstd::utf8::encode_utf8;
use vstd::slice::slice_subrange;
use crate::schema;
use crate::msgpack::{
    MAX_WIRE_LEN, map_header, str_value, uint_value, nil_value, bins_array_value, bins_elems,
    bytes_array_value, u32_array_value, parse_uint, parse_array_header, parse_u8_elems,
    push_map_header, push_str_header, push_str_value, push_uint, push_array_header,
    push_bytes_array, push_u32_array, decode_uint, decode_array_header, decode_u8_elems,
};

verus! {

pub open spec fn key_builder() -> Seq<u8> {
    seq!['b' as u8, 'u' as u8, 'i' as u8, 'l' as u8, 'd' as u8, 'e' as u8, 'r' as u8]
}

pub open spec fn key_encoding() -> Seq<u8> {
    seq!['e' as u8, 'n' as u8, 'c' as u8, 'o' as u8, 'd' as u8, 'i' as u8, 'n' as u8, 'g' as u8]
}

pub open spec fn key_target() -> Seq<u8> {
    seq!['t' as u8, 'a' as u8, 'r' as u8, 'g' as u8, 'e' as u8, 't' as u8]
}

pub open spec fn key_context() -> Seq<u8> {
    seq!['c' as u8, 'o' as u8, 'n' as u8, 't' as u8, 'e' as u8, 'x' as u8, 't' as u8]
}

pub open spec fn key_index() -> Seq<u8> {
    seq!['i' as u8, 'n' as u8, 'd' as u8, 'e' as u8, 'x' as u8]
}

pub open spec fn key_tensor() -> Seq<u8> {
    seq!['t' as u8, 'e' as u8, 'n' as u8, 's' as u8, 'o' as u8, 'r' as u8]
}

pub open spec fn key_dimensions() -> Seq<u8> {
    seq!['d' as u8, 'i' as u8, 'm' as u8, 'e' as u8, 'n' as u8, 's' as u8, 'i' as u8, 'o' as u8, 'n' as u8, 's' as u8]
}

pub open spec fn key_ty() -> Seq<u8> {
    seq!['t' as u8, 'y' as u8]
}

pub open spec fn key_data() -> Seq<u8> {
    seq!['d' as u8, 'a' as u8, 't' as u8, 'a' as u8]
}

fn push_key_builder(out: &mut Vec<u8>)
    ensures
        final(out)@ == old(out)@ + str_value(key_builder()),
{
    push_str_header(out, 7);
    out.push('b' as u8);
    out.push('u' as u8);
    out.push('i' as u8);
    out.push('l' as u8);
    out.push('d' as u8);
    out.push('e' as u8);
    out.push('r' as u8);
    assert(out@ =~= old(out)@ + str_value(key_builder()));
}

fn push_key_encoding(out: &mut Vec<u8>)
    ensures
        final(out)@ == old(out)@ + str_value(key_encoding()),
{
    push_str_header(out, 8);
    out.push('e' as u8);
    out.push('n' as u8);
    out.push('c' as u8);
    out.push('o' as u8);
    out.push('d' as u8);
    out.push('i' as u8);
    out.push('n' as u8);
    out.push('g' as u8);
    assert(out@ =~= old(out)@ + str_value(key_encoding()));
}

fn push_key_target(out: &mut Vec<u8>)
    ensures
        final(out)@ == old(out)@ + str_value(key_target()),
{
    push_str_header(out, 6);
    out.push('t' as u8);
    out.push('a' as u8);
    out.push('r' as u8);
    out.push('g' as u8);
    out.push('e' as u8);
    out.push('t' as u8);
    assert(out@ =~= old(out)@ + str_value(key_target()));
}

fn push_key_context(out: &mut Vec<u8>)
    ensures
        final(out)@ == old(out)@ + str_value(key_context()),
{
    push_str_header(out, 7);
    out.push('c' as u8);
    out.push('o' as u8);
    out.push('n' as u8);
    out.push('t' as u8);
    out.push('e' as u8);
    out.push('x' as u8);
    out.push('t' as u8);
    assert(out@ =~= old(out)@ + str_value(key_context()));
}

fn push_key_index(out: &mut Vec<u8>)
    ensures
        final(out)@ == old(out)@ + str_value(key_index()),
{
    push_str_header(out, 5);
    out.push('i' as u8);
    out.push('n' as u8);
    out.push('d' as u8);
    out.push('e' as u8);
    out.push('x' as u8);
    assert(out@ =~= old(out)@ + str_value(key_index()));
}

fn push_key_tensor(out: &mut Vec<u8>)
    ensures
        final(out)@ == old(out)@ + str_value(key_tensor()),
{
    push_str_header(out, 6);
    out.push('t' as u8);
    out.push('e' as u8);
    out.push('n' as u8);
    out.push('s' as u8);
    out.push('o' as u8);
    out.push('r' as u8);
    assert(out@ =~= old(out)@ + str_value(key_tensor()));
}

fn push_key_dimensions(out: &mut Vec<u8>)
    ensures
        final(out)@ == old(out)@ + str_value(key_dimensions()),
{
    push_str_header(out, 10);
    out.push('d' as u8);
    out.push('i' as u8);
    out.push('m' as u8);
    out.push('e' as u8);
    out.push('n' as u8);
    out.push('s' as u8);
    out.push('i' as u8);
    out.push('o' as u8);
    out.push('n' as u8);
    out.push('s' as u8);
    assert(out@ =~= old(out)@ + str_value(key_dimensions()));
}

fn push_key_ty(out: &mut Vec<u8>)
    ensures
        final(out)@ == old(out)@ + str_value(key_ty()),
{
    push_str_header(out, 2);
    out.push('t' as u8);
    out.push('y' as u8);
    assert(out@ =~= old(out)@ + str_value(key_ty()));
}

fn push_key_data(out: &mut Vec<u8>)
    ensures
        final(out)@ == old(out)@ + str_value(key_data()),
{
    push_str_header(out, 4);
    out.push('d' as u8);
    out.push('a' as u8);
    out.push('t' as u8);
    out.push('a' as u8);
    assert(out@ =~= old(out)@ + str_value(key_data()));
}

/// Wire name of a host tensor type.
pub open spec fn tensor_type_name(t: schema::TensorType) -> Seq<u8> {
    match t {
        schema::TensorType::Fp16 => seq!['F' as u8, 'p' as u8, '1' as u8, '6' as u8],
        schema::TensorType::Fp32 => seq!['F' as u8, 'p' as u8, '3' as u8, '2' as u8],
        schema::TensorType::Fp64 => seq!['F' as u8, 'p' as u8, '6' as u8, '4' as u8],
        schema::TensorType::Bf16 => seq!['B' as u8, 'f' as u8, '1' as u8, '6' as u8],
        schema::TensorType::U8 => seq!['U' as u8, '8' as u8],
        schema::TensorType::I32 => seq!['I' as u8, '3' as u8, '2' as u8],
        schema::TensorType::I64 => seq!['I' as u8, '6' as u8, '4' as u8],
    }
}

/// Wire name of a host execution target.
pub open spec fn execution_target_name(t: schema::ExecutionTarget) -> Seq<u8> {
    match t {
        schema::ExecutionTarget::Cpu => seq!['C' as u8, 'p' as u8, 'u' as u8],
        schema::ExecutionTarget::Gpu => seq!['G' as u8, 'p' as u8, 'u' as u8],
        schema::ExecutionTarget::Tpu => seq!['T' as u8, 'p' as u8, 'u' as u8],
    }
}

pub open spec fn other_variant_name() -> Seq<u8> {
    seq!['O' as u8, 't' as u8, 'h' as u8, 'e' as u8, 'r' as u8]
}

/// Byte image of a host graph encoding. Fixed variants travel as their
/// name; the open-ended `Other` variant travels as a one-entry map from
/// its variant name to the carried string.
pub open spec fn graph_encoding_value(e: schema::GraphEncoding) -> Seq<u8> {
    match e {
        schema::GraphEncoding::Openvino => str_value(
            seq!['O' as u8, 'p' as u8, 'e' as u8, 'n' as u8, 'v' as u8, 'i' as u8, 'n' as u8, 'o' as u8],
        ),
        schema::GraphEncoding::Onnx => str_value(seq!['O' as u8, 'n' as u8, 'n' as u8, 'x' as u8]),
        schema::GraphEncoding::Tensorflow => str_value(
            seq!['T' as u8, 'e' as u8, 'n' as u8, 's' as u8, 'o' as u8, 'r' as u8, 'f' as u8, 'l' as u8, 'o' as u8, 'w' as u8],
        ),
        schema::GraphEncoding::Pytorch => str_value(seq!['P' as u8, 'y' as u8, 't' as u8, 'o' as u8, 'r' as u8, 'c' as u8, 'h' as u8]),
        schema::GraphEncoding::Tensorflowlite => str_value(
            seq!['T' as u8, 'e' as u8, 'n' as u8, 's' as u8, 'o' as u8, 'r' as u8, 'f' as u8, 'l' as u8, 'o' as u8, 'w' as u8, 'l' as u8, 'i' as u8, 't' as u8, 'e' as u8],
        ),
        schema::GraphEncoding::Autodetect => str_value(
            seq!['A' as u8, 'u' as u8, 't' as u8, 'o' as u8, 'd' as u8, 'e' as u8, 't' as u8, 'e' as u8, 'c' as u8, 't' as u8],
        ),
        schema::GraphEncoding::Other(s) => map_header(1) + str_value(other_variant_name())
            + str_value(encode_utf8(s@)),
    }
}

/// Whether a graph encoding has an image at all: only an `Other` string
/// too long for a 32-bit header has none.
pub open spec fn graph_encoding_encodable(e: schema::GraphEncoding) -> bool {
    match e {
        schema::GraphEncoding::Other(s) => encode_utf8(s@).len() <= MAX_WIRE_LEN,
        _ => true,
    }
}

/// Writes a tensor type as its wire name.
pub fn push_tensor_type(out: &mut Vec<u8>, t: &schema::TensorType)
    ensures
        final(out)@ == old(out)@ + str_value(tensor_type_name(*t)),
{
    match t {
        schema::TensorType::Fp16 => {
            push_str_header(out, 4);
            out.push('F' as u8);
            out.push('p' as u8);
            out.push('1' as u8);
            out.push('6' as u8);
        },
        schema::TensorType::Fp32 => {
            push_str_header(out, 4);
            out.push('F' as u8);
            out.push('p' as u8);
            out.push('3' as u8);
            out.push('2' as u8);
        },
        schema::TensorType::Fp64 => {
            push_str_header(out, 4);
            out.push('F' as u8);
            out.push('p' as u8);
            out.push('6' as u8);
            out.push('4' as u8);
        },
        schema::TensorType::Bf16 => {
            push_str_header(out, 4);
            out.push('B' as u8);
            out.push('f' as u8);
            out.push('1' as u8);
            out.push('6' as u8);
        },
        schema::TensorType::U8 => {
            push_str_header(out, 2);
            out.push('U' as u8);
            out.push('8' as u8);
        },
        schema::TensorType::I32 => {
            push_str_header(out, 3);
            out.push('I' as u8);
            out.push('3' as u8);
            out.push('2' as u8);
        },
        schema::TensorType::I64 => {
            push_str_header(out, 3);
            out.push('I' as u8);
            out.push('6' as u8);
            out.push('4' as u8);
        },
    }
    assert(out@ =~= old(out)@ + str_value(tensor_type_name(*t)));
}

/// Writes an execution target as its wire name.
pub fn push_execution_target(out: &mut Vec<u8>, t: &schema::ExecutionTarget)
    ensures
        final(out)@ == old(out)@ + str_value(execution_target_name(*t)),
{
    match t {
        schema::ExecutionTarget::Cpu => {
            push_str_header(out, 3);
            out.push('C' as u8);
        },
        schema::ExecutionTarget::Gpu => {
            push_str_header(out, 3);
            out.push('G' as u8);
        },
        schema::ExecutionTarget::Tpu => {
            push_str_header(out, 3);
            out.push('T' as u8);
        },
    }
    out.push('p' as u8);
    out.push('u' as u8);
    assert(out@ =~= old(out)@ + str_value(execution_target_name(*t)));
}

/// Writes a graph encoding; reports `false`, writing nothing, when the
/// value has no image.
pub fn push_graph_encoding(out: &mut Vec<u8>, e: &schema::GraphEncoding) -> (ok: bool)
    ensures
        ok == graph_encoding_encodable(*e),
        ok ==> final(out)@ == old(out)@ + graph_encoding_value(*e),
        !ok ==> final(out)@ == old(out)@,
{
    match e {
        schema::GraphEncoding::Openvino => {
            push_str_header(out, 8);
            out.push('O' as u8);
            out.push('p' as u8);
            out.push('e' as u8);
            out.push('n' as u8);
            out.push('v' as u8);
            out.push('i' as u8);
            out.push('n' as u8);
            out.push('o' as u8);
        },
        schema::GraphEncoding::Onnx => {
            push_str_header(out, 4);
            out.push('O' as u8);
            out.push('n' as u8);
            out.push('n' as u8);
            out.push('x' as u8);
        },
        schema::GraphEncoding::Tensorflow => {
            push_str_header(out, 10);
            out.push('T' as u8);
            out.push('e' as u8);
            out.push('n' as u8);
            out.push('s' as u8);
            out.push('o' as u8);
            out.push('r' as u8);
            out.push('f' as u8);
            out.push('l' as u8);
            out.push('o' as u8);
            out.push('w' as u8);
        },
        schema::GraphEncoding::Pytorch => {
            push_str_header(out, 7);
            out.push('P' as u8);
            out.push('y' as u8);
            out.push('t' as u8);
            out.push('o' as u8);
            out.push('r' as u8);
            out.push('c' as u8);
            out.push('h' as u8);
        },
        schema::GraphEncoding::Tensorflowlite => {
            push_str_header(out, 14);
            out.push('T' as u8);
            out.push('e' as u8);
            out.push('n' as u8);
            out.push('s' as u8);
            out.push('o' as u8);
            out.push('r' as u8);
            out.push('f' as u8);
            out.push('l' as u8);
            out.push('o' as u8);
            out.push('w' as u8);
            out.push('l' as u8);
            out.push('i' as u8);
            out.push('t' as u8);
            out.push('e' as u8);
        },
        schema::GraphEncoding::Autodetect => {
            push_str_header(out, 10);
            out.push('A' as u8);
            out.push('u' as u8);
            out.push('t' as u8);
            out.push('o' as u8);
            out.push('d' as u8);
            out.push('e' as u8);
            out.push('t' as u8);
            out.push('e' as u8);
            out.push('c' as u8);
            out.push('t' as u8);
        },
        schema::GraphEncoding::Other(s) => {
            let bytes = s.as_str().as_bytes();
            if bytes.len() > MAX_WIRE_LEN {
                return false;
            }
            push_map_header(out, 1);
            push_str_header(out, 5);
            out.push('O' as u8);
            out.push('t' as u8);
            out.push('h' as u8);
            out.push('e' as u8);
            out.push('r' as u8);
            push_str_value(out, bytes);
        },
    }
    assert(out@ =~= old(out)@ + graph_encoding_value(*e));
    true
}

/// Whether a load request has a byte image: the builder list and each of
/// its entries must fit a 32-bit length.
pub open spec fn load_encodable(builders: Seq<Seq<u8>>, e: schema::GraphEncoding) -> bool {
    &&& builders.len() <= MAX_WIRE_LEN
    &&& forall|i: int| 0 <= i < builders.len() ==> (#[trigger] builders[i]).len() <= MAX_WIRE_LEN
    &&& graph_encoding_encodable(e)
}

/// Byte image of a load request: a three-entry map, field name then value.
pub open spec fn load_payload(
    builders: Seq<Seq<u8>>,
    e: schema::GraphEncoding,
    t: schema::ExecutionTarget,
) -> Seq<u8> {
    map_header(3) + str_value(key_builder()) + bins_array_value(builders) + str_value(
        key_encoding(),
    ) + graph_encoding_value(e) + str_value(key_target()) + str_value(execution_target_name(t))
}

/// The byte images of a list of builders, entry by entry.
pub open spec fn views_of(b: Seq<Vec<u8>>) -> Seq<Seq<u8>> {
    Seq::new(b.len(), |i: int| b[i]@)
}

proof fn lemma_bins_elems_snoc(bs: Seq<Seq<u8>>, i: int)
    requires
        0 <= i < bs.len(),
    ensures
        bins_elems(bs.take(i + 1)) == bins_elems(bs.take(i)) + bytes_array_value(bs[i]),
{
    assert(bs.take(i + 1).drop_last() =~= bs.take(i));
    assert(bs.take(i + 1).last() == bs[i]);
}

/// Encodes a load request, or reports that it has no image.
pub fn encode_load(req: &schema::LoadRequest) -> (r: Option<Vec<u8>>)
    ensures
        match r {
            Some(p) => load_encodable(views_of(req.builder@), req.encoding) && p@ == load_payload(
                views_of(req.builder@),
                req.encoding,
                req.target,
            ),
            None => !load_encodable(views_of(req.builder@), req.encoding),
        },
{
    if req.builder.len() > MAX_WIRE_LEN {
        return None;
    }
    let mut i: usize = 0;
    while i < req.builder.len()
        invariant
            i <= views_of(req.builder@).len(),
            views_of(req.builder@).len() == req.builder@.len(),
            forall|j: int| 0 <= j < views_of(req.builder@).len() ==> #[trigger] views_of(req.builder@)[j] == req.builder@[j]@,
            forall|j: int| 0 <= j < i ==> #[trigger] views_of(req.builder@)[j].len() <= MAX_WIRE_LEN,
        decreases views_of(req.builder@).len() - i,
    {
        if req.builder[i].len() > MAX_WIRE_LEN {
            proof {
                assert(views_of(req.builder@)[i as int].len() > MAX_WIRE_LEN);
            }
            return None;
        }
        i = i + 1;
    }
    let mut out: Vec<u8> = Vec::new();
    push_map_header(&mut out, 3);
    push_key_builder(&mut out);
    push_array_header(&mut out, req.builder.len() as u32);
    let ghost base = out@;
    let mut i: usize = 0;
    while i < req.builder.len()
        invariant
            i <= views_of(req.builder@).len(),
            views_of(req.builder@).len() == req.builder@.len(),
            forall|j: int| 0 <= j < views_of(req.builder@).len() ==> #[trigger] views_of(req.builder@)[j] == req.builder@[j]@,
            forall|j: int| 0 <= j < views_of(req.builder@).len() ==> #[trigger] views_of(req.builder@)[j].len() <= MAX_WIRE_LEN,
            out@ == base + bins_elems(views_of(req.builder@).take(i as int)),
        decreases views_of(req.builder@).len() - i,
    {
        proof {
            lemma_bins_elems_snoc(views_of(req.builder@), i as int);
        }
        push_bytes_array(&mut out, req.builder[i].as_slice());
        i = i + 1;
    }
    proof {
        assert(views_of(req.builder@).take(views_of(req.builder@).len() as int) =~= views_of(req.builder@));
    }
    push_key_encoding(&mut out);
    let ok = push_graph_encoding(&mut out, &req.encoding);
    if !ok {
        return None;
    }
    push_key_target(&mut out);
    push_execution_target(&mut out, &req.target);
    assert(out@ =~= load_payload(views_of(req.builder@), req.encoding, req.target));
    Some(out)
}

/// Whether a graph name has a byte image: its encoded characters must fit
/// a 32-bit length.
pub open spec fn name_encodable(name: Seq<char>) -> bool {
    encode_utf8(name).len() <= MAX_WIRE_LEN
}

/// Byte image of a load-by-name request: the bare name.
pub open spec fn load_by_name_payload(name: Seq<char>) -> Seq<u8> {
    str_value(encode_utf8(name))
}

/// Encodes a load-by-name request, or reports that it has no image.
pub fn encode_load_by_name(name: &String) -> (r: Option<Vec<u8>>)
    ensures
        match r {
            Some(p) => name_encodable(name@) && p@ == load_by_name_payload(name@),
            None => !name_encodable(name@),
        },
{
    let bytes = name.as_str().as_bytes();
    if bytes.len() > MAX_WIRE_LEN {
        return None;
    }
    let mut out: Vec<u8> = Vec::new();
    push_str_value(&mut out, bytes);
    Some(out)
}

/// Byte image of a bare handle: contexts and graphs travel without a
/// wrapping structure.
pub fn encode_handle(h: u32) -> (r: Vec<u8>)
    ensures
        r@ == uint_value(h),
{
    let mut out: Vec<u8> = Vec::new();
    push_uint(&mut out, h);
    out
}

/// Whether a tensor has a byte image: dimensions and data must each fit a
/// 32-bit length.
pub open spec fn tensor_encodable(dims: Seq<u32>, data: Seq<u8>) -> bool {
    dims.len() <= MAX_WIRE_LEN && data.len() <= MAX_WIRE_LEN
}

/// Byte image of a host tensor: a three-entry map.
pub open spec fn tensor_value(dims: Seq<u32>, ty: schema::TensorType, data: Seq<u8>) -> Seq<u8> {
    map_header(3) + str_value(key_dimensions()) + u32_array_value(dims) + str_value(key_ty())
        + str_value(tensor_type_name(ty)) + str_value(key_data()) + bytes_array_value(data)
}

/// Byte image of a set-input request: a three-entry map holding the
/// context handle, the input index and the tensor.
pub open spec fn set_input_payload(
    context: u32,
    index: u32,
    dims: Seq<u32>,
    ty: schema::TensorType,
    data: Seq<u8>,
) -> Seq<u8> {
    map_header(3) + str_value(key_context()) + uint_value(context) + str_value(key_index())
        + uint_value(index) + str_value(key_tensor()) + tensor_value(dims, ty, data)
}

/// Encodes a set-input request, or reports that it has no image.
pub fn encode_set_input(req: &schema::SetInputRequest) -> (r: Option<Vec<u8>>)
    ensures
        match r {
            Some(p) => tensor_encodable(req.tensor.dimensions@, req.tensor.data@) && p@
                == set_input_payload(
                req.context,
                req.index,
                req.tensor.dimensions@,
                req.tensor.ty,
                req.tensor.data@,
            ),
            None => !tensor_encodable(req.tensor.dimensions@, req.tensor.data@),
        },
{
    if req.tensor.dimensions.len() > MAX_WIRE_LEN || req.tensor.data.len() > MAX_WIRE_LEN {
        return None;
    }
    let mut out: Vec<u8> = Vec::new();
    push_map_header(&mut out, 3);
    push_key_context(&mut out);
    push_uint(&mut out, req.context);
    push_key_index(&mut out);
    push_uint(&mut out, req.index);
    push_key_tensor(&mut out);
    push_map_header(&mut out, 3);
    push_key_dimensions(&mut out);
    push_u32_array(&mut out, req.tensor.dimensions.as_slice());
    push_key_ty(&mut out);
    push_tensor_type(&mut out, &req.tensor.ty);
    push_key_data(&mut out);
    push_bytes_array(&mut out, req.tensor.data.as_slice());
    assert(out@ =~= set_input_payload(
        req.context,
        req.index,
        req.tensor.dimensions@,
        req.tensor.ty,
        req.tensor.data@,
    ));
    Some(out)
}

/// Byte image of a get-output request: a two-entry map. Every get-output
/// request has an image.
pub open spec fn get_output_payload(context: u32, index: u32) -> Seq<u8> {
    map_header(2) + str_value(key_context()) + uint_value(context) + str_value(key_index())
        + uint_value(index)
}

/// Encodes a get-output request.
pub fn encode_get_output(req: &schema::GetOutputRequest) -> (r: Vec<u8>)
    ensures
        r@ == get_output_payload(req.context, req.index),
{
    let mut out: Vec<u8> = Vec::new();
    push_map_header(&mut out, 2);
    push_key_context(&mut out);
    push_uint(&mut out, req.context);
    push_key_index(&mut out);
    push_uint(&mut out, req.index);
    assert(out@ =~= get_output_payload(req.context, req.index));
    out
}

/// Wire name of a host error code.
pub open spec fn error_code_name(c: schema::ErrorCode) -> Seq<u8> {
    match c {
        schema::ErrorCode::Success => seq!['S' as u8, 'u' as u8, 'c' as u8, 'c' as u8, 'e' as u8, 's' as u8, 's' as u8],
        schema::ErrorCode::InvalidArgument => seq![
            'I' as u8, 'n' as u8, 'v' as u8, 'a' as u8, 'l' as u8, 'i' as u8, 'd' as u8, 'A' as u8, 'r' as u8, 'g' as u8, 'u' as u8, 'm' as u8, 'e' as u8, 'n' as u8,
            't' as u8,
        ],
        schema::ErrorCode::InvalidEncoding => seq![
            'I' as u8, 'n' as u8, 'v' as u8, 'a' as u8, 'l' as u8, 'i' as u8, 'd' as u8, 'E' as u8, 'n' as u8, 'c' as u8, 'o' as u8, 'd' as u8, 'i' as u8, 'n' as u8,
            'g' as u8,
        ],
        schema::ErrorCode::Timeout => seq!['T' as u8, 'i' as u8, 'm' as u8, 'e' as u8, 'o' as u8, 'u' as u8, 't' as u8],
        schema::ErrorCode::RuntimeError => seq![
            'R' as u8, 'u' as u8, 'n' as u8, 't' as u8, 'i' as u8, 'm' as u8, 'e' as u8, 'E' as u8, 'r' as u8, 'r' as u8, 'o' as u8, 'r' as u8,
        ],
        schema::ErrorCode::UnsupportedOperation => seq![
            'U' as u8, 'n' as u8, 's' as u8, 'u' as u8, 'p' as u8, 'p' as u8, 'o' as u8, 'r' as u8, 't' as u8, 'e' as u8, 'd' as u8, 'O' as u8, 'p' as u8, 'e' as u8,
            'r' as u8, 'a' as u8, 't' as u8, 'i' as u8, 'o' as u8, 'n' as u8,
        ],
        schema::ErrorCode::TooLarge => seq!['T' as u8, 'o' as u8, 'o' as u8, 'L' as u8, 'a' as u8, 'r' as u8, 'g' as u8, 'e' as u8],
        schema::ErrorCode::NotFound => seq!['N' as u8, 'o' as u8, 't' as u8, 'F' as u8, 'o' as u8, 'u' as u8, 'n' as u8, 'd' as u8],
    }
}

/// Builds the full byte image of an error code: a string value holding its
/// wire name.
pub fn error_code_wire(c: &schema::ErrorCode) -> (r: Vec<u8>)
    ensures
        r@ == str_value(error_code_name(*c)),
{
    let mut out: Vec<u8> = Vec::new();
    match c {
        schema::ErrorCode::Success => {
            push_str_header(&mut out, 7);
            out.push('S' as u8);
            out.push('u' as u8);
            out.push('c' as u8);
            out.push('c' as u8);
            out.push('e' as u8);
            out.push('s' as u8);
            out.push('s' as u8);
        },
        schema::ErrorCode::InvalidArgument => {
            push_str_header(&mut out, 15);
            out.push('I' as u8);
            out.push('n' as u8);
            out.push('v' as u8);
            out.push('a' as u8);
            out.push('l' as u8);
            out.push('i' as u8);
            out.push('d' as u8);
            out.push('A' as u8);
            out.push('r' as u8);
            out.push('g' as u8);
            out.push('u' as u8);
            out.push('m' as u8);
            out.push('e' as u8);
            out.push('n' as u8);
            out.push('t' as u8);
        },
        schema::ErrorCode::InvalidEncoding => {
            push_str_header(&mut out, 15);
            out.push('I' as u8);
            out.push('n' as u8);
            out.push('v' as u8);
            out.push('a' as u8);
            out.push('l' as u8);
            out.push('i' as u8);
            out.push('d' as u8);
            out.push('E' as u8);
            out.push('n' as u8);
            out.push('c' as u8);
            out.push('o' as u8);
            out.push('d' as u8);
            out.push('i' as u8);
            out.push('n' as u8);
            out.push('g' as u8);
        },
        schema::ErrorCode::Timeout => {
            push_str_header(&mut out, 7);
            out.push('T' as u8);
            out.push('i' as u8);
            out.push('m' as u8);
            out.push('e' as u8);
            out.push('o' as u8);
            out.push('u' as u8);
            out.push('t' as u8);
        },
        schema::ErrorCode::RuntimeError => {
            push_str_header(&mut out, 12);
            out.push('R' as u8);
            out.push('u' as u8);
            out.push('n' as u8);
            out.push('t' as u8);
            out.push('i' as u8);
            out.push('m' as u8);
            out.push('e' as u8);
            out.push('E' as u8);
            out.push('r' as u8);
            out.push('r' as u8);
            out.push('o' as u8);
            out.push('r' as u8);
        },
        schema::ErrorCode::UnsupportedOperation => {
            push_str_header(&mut out, 20);
            out.push('U' as u8);
            out.push('n' as u8);
            out.push('s' as u8);
            out.push('u' as u8);
            out.push('p' as u8);
            out.push('p' as u8);
            out.push('o' as u8);
            out.push('r' as u8);
            out.push('t' as u8);
            out.push('e' as u8);
            out.push('d' as u8);
            out.push('O' as u8);
            out.push('p' as u8);
            out.push('e' as u8);
            out.push('r' as u8);
            out.push('a' as u8);
            out.push('t' as u8);
            out.push('i' as u8);
            out.push('o' as u8);
            out.push('n' as u8);
        },
        schema::ErrorCode::TooLarge => {
            push_str_header(&mut out, 8);
            out.push('T' as u8);
            out.push('o' as u8);
            out.push('o' as u8);
            out.push('L' as u8);
            out.push('a' as u8);
            out.push('r' as u8);
            out.push('g' as u8);
            out.push('e' as u8);
        },
        schema::ErrorCode::NotFound => {
            push_str_header(&mut out, 8);
            out.push('N' as u8);
            out.push('o' as u8);
            out.push('t' as u8);
            out.push('F' as u8);
            out.push('o' as u8);
            out.push('u' as u8);
            out.push('n' as u8);
            out.push('d' as u8);
        },
    }
    assert(out@ =~= str_value(error_code_name(*c)));
    out
}

/// Reads an error code: the bytes must be exactly the string value of one
/// code's wire name.
pub open spec fn parse_error_code(s: Seq<u8>) -> Option<schema::ErrorCode> {
    if s == str_value(error_code_name(schema::ErrorCode::Success)) {
        Some(schema::ErrorCode::Success)
    } else if s == str_value(error_code_name(schema::ErrorCode::InvalidArgument)) {
        Some(schema::ErrorCode::InvalidArgument)
    } else if s == str_value(error_code_name(schema::ErrorCode::InvalidEncoding)) {
        Some(schema::ErrorCode::InvalidEncoding)
    } else if s == str_value(error_code_name(schema::ErrorCode::Timeout)) {
        Some(schema::ErrorCode::Timeout)
    } else if s == str_value(error_code_name(schema::ErrorCode::RuntimeError)) {
        Some(schema::ErrorCode::RuntimeError)
    } else if s == str_value(error_code_name(schema::ErrorCode::UnsupportedOperation)) {
        Some(schema::ErrorCode::UnsupportedOperation)
    } else if s == str_value(error_code_name(schema::ErrorCode::TooLarge)) {
        Some(schema::ErrorCode::TooLarge)
    } else if s == str_value(error_code_name(schema::ErrorCode::NotFound)) {
        Some(schema::ErrorCode::NotFound)
    } else {
        None
    }
}

fn bytes_eq(a: &[u8], b: &[u8]) -> (r: bool)
    ensures
        r == (a@ == b@),
{
    if a.len() != b.len() {
        assert(a@ != b@);
        return false;
    }
    let mut i: usize = 0;
    while i < a.len()
        invariant
            i <= a@.len(),
            a@.len() == b@.len(),
            forall|j: int| 0 <= j < i ==> a@[j] == b@[j],
        decreases a@.len() - i,
    {
        if a[i] != b[i] {
            assert(a@ != b@);
            return false;
        }
        i = i + 1;
    }
    assert(a@ =~= b@);
    true
}

/// Reads an error code out of `s`.
pub fn decode_error_code(s: &[u8]) -> (r: Option<schema::ErrorCode>)
    ensures
        r == parse_error_code(s@),
{
    let candidates = [
        schema::ErrorCode::Success,
        schema::ErrorCode::InvalidArgument,
        schema::ErrorCode::InvalidEncoding,
        schema::ErrorCode::Timeout,
        schema::ErrorCode::RuntimeError,
        schema::ErrorCode::UnsupportedOperation,
        schema::ErrorCode::TooLarge,
        schema::ErrorCode::NotFound,
    ];
    let mut i: usize = 0;
    while i < 8
        invariant
            i <= 8,
            candidates@.len() == 8,
            candidates@[0] == schema::ErrorCode::Success,
            candidates@[1] == schema::ErrorCode::InvalidArgument,
            candidates@[2] == schema::ErrorCode::InvalidEncoding,
            candidates@[3] == schema::ErrorCode::Timeout,
            candidates@[4] == schema::ErrorCode::RuntimeError,
            candidates@[5] == schema::ErrorCode::UnsupportedOperation,
            candidates@[6] == schema::ErrorCode::TooLarge,
            candidates@[7] == schema::ErrorCode::NotFound,
            forall|j: int|
                0 <= j < i ==> s@ != str_value(error_code_name(#[trigger] candidates@[j])),
        decreases 8 - i,
    {
        let wire = error_code_wire(&candidates[i]);
        if bytes_eq(s, wire.as_slice()) {
            return Some(candidates[i]);
        }
        i = i + 1;
    }
    None
}

/// The opening bytes of a success response: a one-entry map keyed `Ok`.
pub open spec fn ok_prefix() -> Seq<u8> {
    seq![0x81u8, 0xa2u8, 'O' as u8, 'k' as u8]
}

/// The opening bytes of a failure response: a one-entry map keyed `Err`.
pub open spec fn err_prefix() -> Seq<u8> {
    seq![0x81u8, 0xa3u8, 'E' as u8, 'r' as u8, 'r' as u8]
}

/// Reads a response whose success payload is a handle.
pub open spec fn parse_handle_response(b: Seq<u8>) -> Option<Result<u32, schema::ErrorCode>> {
    if b.len() > 4 && b.take(4) == ok_prefix() {
        match parse_uint(b.skip(4)) {
            Some((v, used)) => if 4 + used == b.len() {
                Some(Ok(v))
            } else {
                None
            },
            None => None,
        }
    } else if b.len() > 5 && b.take(5) == err_prefix() {
        match parse_error_code(b.skip(5)) {
            Some(c) => Some(Err(c)),
            None => None,
        }
    } else {
        None
    }
}

/// Reads a response whose success payload is the unit value.
pub open spec fn parse_unit_response(b: Seq<u8>) -> Option<Result<(), schema::ErrorCode>> {
    if b == ok_prefix() + nil_value() {
        Some(Ok(()))
    } else if b.len() > 5 && b.take(5) == err_prefix() {
        match parse_error_code(b.skip(5)) {
            Some(c) => Some(Err(c)),
            None => None,
        }
    } else {
        None
    }
}

/// Reads a response whose success payload is tensor data: an array of
/// bytes.
pub open spec fn parse_bytes_response(b: Seq<u8>) -> Option<Result<Seq<u8>, schema::ErrorCode>> {
    if b.len() > 4 && b.take(4) == ok_prefix() {
        match parse_array_header(b.skip(4)) {
            Some((n, h)) => match parse_u8_elems(b.skip(4 + h), n as nat) {
                Some((data, used)) => if 4 + h + used == b.len() {
                    Some(Ok(data))
                } else {
                    None
                },
                None => None,
            },
            None => None,
        }
    } else if b.len() > 5 && b.take(5) == err_prefix() {
        match parse_error_code(b.skip(5)) {
            Some(c) => Some(Err(c)),
            None => None,
        }
    } else {
        None
    }
}

fn starts_with_ok(b: &[u8]) -> (r: bool)
    ensures
        r == (b@.len() > 4 && b@.take(4) == ok_prefix()),
{
    let r = b.len() > 4 && b[0] == 0x81 && b[1] == 0xa2 && b[2] == 'O' as u8 && b[3] == 'k' as u8;
    proof {
        if r {
            assert(b@.take(4) =~= ok_prefix());
        } else if b@.len() > 4 && b@.take(4) == ok_prefix() {
            assert(b@[0] == ok_prefix()[0]);
            assert(b@[1] == ok_prefix()[1]);
            assert(b@[2] == ok_prefix()[2]);
            assert(b@[3] == ok_prefix()[3]);
        }
    }
    r
}

fn starts_with_err(b: &[u8]) -> (r: bool)
    ensures
        r == (b@.len() > 5 && b@.take(5) == err_prefix()),
{
    let r = b.len() > 5 && b[0] == 0x81 && b[1] == 0xa3 && b[2] == 'E' as u8 && b[3] == 'r' as u8 && b[4]
        == 'r' as u8;
    proof {
        if r {
            assert(b@.take(5) =~= err_prefix());
        } else if b@.len() > 5 && b@.take(5) == err_prefix() {
            assert(b@[0] == err_prefix()[0]);
            assert(b@[1] == err_prefix()[1]);
            assert(b@[2] == err_prefix()[2]);
            assert(b@[3] == err_prefix()[3]);
            assert(b@[4] == err_prefix()[4]);
        }
    }
    r
}

/// Decodes a handle response.
pub fn decode_handle_response(b: &[u8]) -> (r: Option<Result<u32, schema::ErrorCode>>)
    ensures
        r == parse_handle_response(b@),
{
    if starts_with_ok(b) {
        match decode_uint(b, 4) {
            Some((v, used)) => if 4 + used == b.len() {
                Some(Ok(v))
            } else {
                None
            },
            None => None,
        }
    } else if starts_with_err(b) {
        let tail = slice_subrange(b, 5, b.len());
        proof {
            assert(tail@ =~= b@.skip(5));
        }
        match decode_error_code(tail) {
            Some(c) => Some(Err(c)),
            None => None,
        }
    } else {
        None
    }
}

/// Decodes a unit response.
pub fn decode_unit_response(b: &[u8]) -> (r: Option<Result<(), schema::ErrorCode>>)
    ensures
        r == parse_unit_response(b@),
{
    let is_ok = b.len() == 5 && b[0] == 0x81 && b[1] == 0xa2 && b[2] == 'O' as u8 && b[3] == 'k' as u8
        && b[4] == 0xc0;
    proof {
        if is_ok {
            assert(b@ =~= ok_prefix() + nil_value());
        } else if b@ == ok_prefix() + nil_value() {
            assert(b@[0] == 0x81u8);
            assert(b@[1] == 0xa2u8);
            assert(b@[2] == 'O' as u8);
            assert(b@[3] == 'k' as u8);
            assert(b@[4] == 0xc0u8);
        }
    }
    if is_ok {
        Some(Ok(()))
    } else if starts_with_err(b) {
        let tail = slice_subrange(b, 5, b.len());
        proof {
            assert(tail@ =~= b@.skip(5));
        }
        match decode_error_code(tail) {
            Some(c) => Some(Err(c)),
            None => None,
        }
    } else {
        None
    }
}

/// Decodes a tensor-data response.
pub fn decode_bytes_response(b: &[u8]) -> (r: Option<Result<Vec<u8>, schema::ErrorCode>>)
    ensures
        match r {
            Some(Ok(v)) => parse_bytes_response(b@) == Some(Ok::<Seq<u8>, schema::ErrorCode>(v@)),
            Some(Err(c)) => parse_bytes_response(b@) == Some(
                Err::<Seq<u8>, schema::ErrorCode>(c),
            ),
            None => parse_bytes_response(b@) is None,
        },
{
    if starts_with_ok(b) {
        match decode_array_header(b, 4) {
            Some((n, h)) => {
                proof {
                    assert(b@.skip(4).skip(h as int) =~= b@.skip(4 + h as int));
                }
                match decode_u8_elems(b, 4 + h, n) {
                    Some((data, end)) => if end == b.len() {
                        Some(Ok(data))
                    } else {
                        None
                    },
                    None => None,
                }
            },
            None => None,
        }
    } else if starts_with_err(b) {
        let tail = slice_subrange(b, 5, b.len());
        proof {
            assert(tail@ =~= b@.skip(5));
        }
        match decode_error_code(tail) {
            Some(c) => Some(Err(c)),
            None => None,
        }
    } else {
        None
    }
}

} // verus!
