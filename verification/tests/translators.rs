use wasi_nn_adaptor::guest;
use wasi_nn_adaptor::schema;
use wasi_nn_adaptor::translate::{
    execution_target_to_guest, execution_target_to_host, graph_encoding_to_guest,
    graph_encoding_to_host, tensor_to_host, tensor_type_to_guest, tensor_type_to_host,
};

#[test]
fn tensor_type_round_trips_for_every_variant() {
    let all = [
        guest::TensorType::Fp16,
        guest::TensorType::U8,
        guest::TensorType::Fp32,
        guest::TensorType::Fp64,
        guest::TensorType::Bf16,
        guest::TensorType::I32,
        guest::TensorType::I64,
    ];
    for t in all {
        assert_eq!(tensor_type_to_guest(tensor_type_to_host(t)), t);
    }
}

#[test]
fn execution_target_round_trips_for_every_variant() {
    let all = [
        guest::ExecutionTarget::Cpu,
        guest::ExecutionTarget::Gpu,
        guest::ExecutionTarget::Tpu,
    ];
    for t in all {
        assert_eq!(execution_target_to_guest(execution_target_to_host(t)), t);
    }
}

#[test]
fn graph_encoding_round_trips_for_every_variant() {
    let all = [
        guest::GraphEncoding::Onnx,
        guest::GraphEncoding::Openvino,
        guest::GraphEncoding::Tensorflow,
        guest::GraphEncoding::Tensorflowlite,
        guest::GraphEncoding::Pytorch,
        guest::GraphEncoding::Autodetect,
    ];
    for e in all {
        assert_eq!(graph_encoding_to_guest(&graph_encoding_to_host(e)), Some(e));
    }
}

#[test]
fn host_other_encoding_has_no_guest_counterpart() {
    let other = schema::GraphEncoding::Other("custom".to_string());
    assert_eq!(graph_encoding_to_guest(&other), None);
}

#[test]
fn translation_maps_by_name_not_by_position() {
    // The two schemas list tensor types in different orders: position one
    // is U8 on the guest side but Fp32 on the host side. Name-keyed
    // translation must ignore that.
    assert_eq!(tensor_type_to_host(guest::TensorType::U8), schema::TensorType::U8);
    assert_eq!(tensor_type_to_host(guest::TensorType::Bf16), schema::TensorType::Bf16);
    assert_eq!(tensor_type_to_host(guest::TensorType::Fp32), schema::TensorType::Fp32);
}

#[test]
fn tensor_translation_keeps_dimensions_and_data() {
    let t = guest::Tensor {
        dimensions: vec![2, 3],
        tensor_type: guest::TensorType::I64,
        data: vec![9, 8, 7],
    };
    let h = tensor_to_host(t);
    assert_eq!(h.dimensions, vec![2, 3]);
    assert_eq!(h.ty, schema::TensorType::I64);
    assert_eq!(h.data, vec![9, 8, 7]);
}
