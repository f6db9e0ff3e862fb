use std::collections::BTreeMap;

use wasi_nn_adaptor::codec::{
    decode_bytes_response, decode_error_code, decode_handle_response, decode_unit_response,
    encode_get_output, encode_load, encode_set_input,
};
use wasi_nn_adaptor::ops::{prepare_get_output, prepare_handle, prepare_load_by_name};
use wasi_nn_adaptor::schema;

/// The adaptor's bare-handle image must be byte-for-byte what the host's
/// own codec produces, across every width class of the format.
#[test]
fn handle_image_matches_reference_codec() {
    let samples: [u32; 9] = [0, 7, 0x7f, 0x80, 0xff, 0x100, 0xffff, 0x10000, 0xffffffff];
    for v in samples {
        assert_eq!(prepare_handle(v), rmp_serde::to_vec(&v).unwrap());
    }
}

#[test]
fn name_image_matches_reference_codec() {
    for name in ["", "abc", "na\u{ef}ve", "a-rather-long-graph-name-beyond-the-short-form"] {
        let owned = name.to_string();
        assert_eq!(
            prepare_load_by_name(&owned).unwrap(),
            rmp_serde::to_vec(&owned).unwrap()
        );
    }
}

/// The get-output request is a map of two u32 fields, so the reference
/// codec can build the very same value from a plain map.
#[test]
fn get_output_image_matches_reference_codec() {
    let mut fields: BTreeMap<String, u32> = BTreeMap::new();
    fields.insert("context".to_string(), 7);
    fields.insert("index".to_string(), 0);
    assert_eq!(
        prepare_get_output(7, 0),
        rmp_serde::to_vec(&fields).unwrap()
    );
    assert_eq!(
        prepare_get_output(7, 0),
        vec![0x82, 0xa7, b'c', b'o', b'n', b't', b'e', b'x', b't', 7, 0xa5, b'i', b'n', b'd', b'e', b'x', 0]
    );
}

/// The load request image, field by field, against the low-level writer
/// the host's codec rests on.
#[test]
fn load_image_matches_reference_writer() {
    let req = schema::LoadRequest {
        builder: vec![b"abc".to_vec()],
        encoding: schema::GraphEncoding::Onnx,
        target: schema::ExecutionTarget::Cpu,
    };
    let got = encode_load(&req).unwrap();

    let mut want: Vec<u8> = Vec::new();
    rmp::encode::write_map_len(&mut want, 3).unwrap();
    rmp::encode::write_str(&mut want, "builder").unwrap();
    rmp::encode::write_array_len(&mut want, 1).unwrap();
    rmp::encode::write_array_len(&mut want, 3).unwrap();
    for b in b"abc" {
        rmp::encode::write_uint(&mut want, u64::from(*b)).unwrap();
    }
    rmp::encode::write_str(&mut want, "encoding").unwrap();
    rmp::encode::write_str(&mut want, "Onnx").unwrap();
    rmp::encode::write_str(&mut want, "target").unwrap();
    rmp::encode::write_str(&mut want, "Cpu").unwrap();
    assert_eq!(got, want);
}

/// The set-input request image, against the low-level writer; the tensor
/// type must appear under the `ty` key as the host schema's variant name.
#[test]
fn set_input_image_matches_reference_writer() {
    let req = schema::SetInputRequest {
        context: 7,
        index: 1,
        tensor: schema::Tensor {
            dimensions: vec![1, 300],
            ty: schema::TensorType::Bf16,
            data: vec![0x80, 2],
        },
    };
    let got = encode_set_input(&req).unwrap();

    let mut want: Vec<u8> = Vec::new();
    rmp::encode::write_map_len(&mut want, 3).unwrap();
    rmp::encode::write_str(&mut want, "context").unwrap();
    rmp::encode::write_uint(&mut want, 7).unwrap();
    rmp::encode::write_str(&mut want, "index").unwrap();
    rmp::encode::write_uint(&mut want, 1).unwrap();
    rmp::encode::write_str(&mut want, "tensor").unwrap();
    rmp::encode::write_map_len(&mut want, 3).unwrap();
    rmp::encode::write_str(&mut want, "dimensions").unwrap();
    rmp::encode::write_array_len(&mut want, 2).unwrap();
    rmp::encode::write_uint(&mut want, 1).unwrap();
    rmp::encode::write_uint(&mut want, 300).unwrap();
    rmp::encode::write_str(&mut want, "ty").unwrap();
    rmp::encode::write_str(&mut want, "Bf16").unwrap();
    rmp::encode::write_str(&mut want, "data").unwrap();
    rmp::encode::write_array_len(&mut want, 2).unwrap();
    rmp::encode::write_uint(&mut want, 0x80).unwrap();
    rmp::encode::write_uint(&mut want, 2).unwrap();
    assert_eq!(got, want);
}

#[test]
fn get_output_encoding_never_fails() {
    let req = schema::GetOutputRequest { context: u32::MAX, index: u32::MAX };
    let p = encode_get_output(&req);
    assert!(!p.is_empty());
}

/// A handle response the reference codec wrote decodes to the same value.
#[test]
fn handle_response_decodes_reference_success() {
    let ok7 = rmp_serde::to_vec(&Ok::<u32, String>(7)).unwrap();
    assert_eq!(ok7, vec![0x81, 0xa2, b'O', b'k', 7]);
    assert_eq!(decode_handle_response(&ok7), Some(Ok(7)));

    let big = rmp_serde::to_vec(&Ok::<u32, String>(0x12345678)).unwrap();
    assert_eq!(decode_handle_response(&big), Some(Ok(0x12345678)));
}

/// Every host error code the reference codec writes is read back as the
/// same code.
#[test]
fn error_responses_decode_for_every_code() {
    let codes = [
        (schema::ErrorCode::Success, "Success"),
        (schema::ErrorCode::InvalidArgument, "InvalidArgument"),
        (schema::ErrorCode::InvalidEncoding, "InvalidEncoding"),
        (schema::ErrorCode::Timeout, "Timeout"),
        (schema::ErrorCode::RuntimeError, "RuntimeError"),
        (schema::ErrorCode::UnsupportedOperation, "UnsupportedOperation"),
        (schema::ErrorCode::TooLarge, "TooLarge"),
        (schema::ErrorCode::NotFound, "NotFound"),
    ];
    for (code, name) in codes {
        // A unit enum variant travels as its name, so an error string with
        // the same characters produces the identical bytes.
        let wire = rmp_serde::to_vec(&Err::<u32, String>(name.to_string())).unwrap();
        assert_eq!(decode_handle_response(&wire), Some(Err(code)));
        assert_eq!(decode_unit_response(&wire), Some(Err(code)));
        assert_eq!(decode_bytes_response(&wire), Some(Err(code)));
    }
}

#[test]
fn unknown_error_name_is_refused() {
    let wire = rmp_serde::to_vec(&Err::<u32, String>("NoSuchCode".to_string())).unwrap();
    assert_eq!(decode_handle_response(&wire), None);
    assert_eq!(decode_error_code(&wire[5..]), None);
}

#[test]
fn unit_response_decodes_reference_success() {
    let ok = rmp_serde::to_vec(&Ok::<(), String>(())).unwrap();
    assert_eq!(ok, vec![0x81, 0xa2, b'O', b'k', 0xc0]);
    assert_eq!(decode_unit_response(&ok), Some(Ok(())));
}

#[test]
fn bytes_response_decodes_reference_success() {
    let ok = rmp_serde::to_vec(&Ok::<Vec<u8>, String>(vec![1, 0x80, 255])).unwrap();
    assert_eq!(decode_bytes_response(&ok), Some(Ok(vec![1, 0x80, 255])));

    let empty = rmp_serde::to_vec(&Ok::<Vec<u8>, String>(Vec::new())).unwrap();
    assert_eq!(decode_bytes_response(&empty), Some(Ok(Vec::new())));
}

#[test]
fn malformed_responses_are_refused() {
    assert_eq!(decode_handle_response(&[]), None);
    assert_eq!(decode_handle_response(&[0xff, 0x00]), None);
    // Truncated: the map and key announce a value that never comes.
    assert_eq!(decode_handle_response(&[0x81, 0xa2, b'O', b'k']), None);
    // Trailing garbage after a well-formed success.
    assert_eq!(decode_handle_response(&[0x81, 0xa2, b'O', b'k', 7, 0]), None);
    assert_eq!(decode_unit_response(&[0x81, 0xa2, b'O', b'k', 7]), None);
    assert_eq!(decode_bytes_response(&[0x81, 0xa2, b'O', b'k', 0x91]), None);
}
