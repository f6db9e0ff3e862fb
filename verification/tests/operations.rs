use wasi_nn_adaptor::guest;
use wasi_nn_adaptor::ops::{
    compute, get_output, init_execution_context, load, load_by_name, set_input, CallBus,
    DiagnosticStage,
};

/// A recording call-bus: remembers every invocation and answers each one
/// with a fixed, preset reply.
struct StubBus {
    reply: Result<Vec<u8>, String>,
    calls: Vec<(&'static str, Vec<u8>)>,
}

impl StubBus {
    fn replying(reply: Result<Vec<u8>, String>) -> StubBus {
        StubBus { reply, calls: Vec::new() }
    }
}

impl CallBus for StubBus {
    fn call(&mut self, operation: &'static str, payload: &[u8]) -> Result<Vec<u8>, String> {
        self.calls.push((operation, payload.to_vec()));
        self.reply.clone()
    }
}

fn bf16_tensor() -> guest::Tensor {
    guest::Tensor {
        dimensions: vec![1],
        tensor_type: guest::TensorType::Bf16,
        data: vec![1, 2],
    }
}

/// Loading with a host that answers an encoded `Ok(7)` hands the guest
/// `Ok(7)`, and exactly one invocation went out, under the load operation
/// name, carrying the expected envelope.
#[test]
fn load_success_scenario() {
    let reply = rmp_serde::to_vec(&Ok::<u32, String>(7)).unwrap();
    let mut bus = StubBus::replying(Ok(reply));
    let (result, diag) = load(
        &mut bus,
        vec![b"abc".to_vec()],
        guest::GraphEncoding::Onnx,
        guest::ExecutionTarget::Cpu,
    );
    assert_eq!(result, Ok(7));
    assert!(diag.is_none());
    assert_eq!(bus.calls.len(), 1);
    assert_eq!(bus.calls[0].0, "wasmcloud:nn/Nn.Load");
    let want_payload: Vec<u8> = vec![
        0x83, // three fields
        0xa7, b'b', b'u', b'i', b'l', b'd', b'e', b'r', 0x91, 0x93, 97, 98, 99,
        0xa8, b'e', b'n', b'c', b'o', b'd', b'i', b'n', b'g', 0xa4, b'O', b'n', b'n', b'x',
        0xa6, b't', b'a', b'r', b'g', b'e', b't', 0xa3, b'C', b'p', b'u',
    ];
    assert_eq!(bus.calls[0].1, want_payload);
}

/// Reading an output from a host that answers an encoded `Err(NotFound)`
/// hands the guest `Err(InvalidArgument)` and leaves exactly one
/// diagnostic entry, which preserves the discarded code.
#[test]
fn get_output_not_found_scenario() {
    let reply = rmp_serde::to_vec(&Err::<Vec<u8>, String>("NotFound".to_string())).unwrap();
    let mut bus = StubBus::replying(Ok(reply));
    let (result, diag) = get_output(&mut bus, 7, 0);
    assert_eq!(result, Err(guest::Error::InvalidArgument));
    let entry = diag.expect("one diagnostic entry is owed");
    assert_eq!(entry.operation, "wasmcloud:nn/Nn.GetOutput");
    assert_eq!(entry.stage, DiagnosticStage::HostError);
    assert_eq!(entry.detail, Some("NotFound".to_string()));
    assert_eq!(bus.calls.len(), 1);
    assert_eq!(
        bus.calls[0].1,
        vec![0x82, 0xa7, b'c', b'o', b'n', b't', b'e', b'x', b't', 7, 0xa5, b'i', b'n', b'd', b'e', b'x', 0]
    );
}

/// A set-input request carrying a `Bf16` tensor writes the `ty` field as
/// the host schema's `Bf16` variant name, not as a position.
#[test]
fn set_input_bf16_travels_by_name() {
    let ok = rmp_serde::to_vec(&Ok::<(), String>(())).unwrap();
    let mut bus = StubBus::replying(Ok(ok));
    let (result, diag) = set_input(&mut bus, 9, 0, bf16_tensor());
    assert_eq!(result, Ok(()));
    assert!(diag.is_none());
    assert_eq!(bus.calls.len(), 1);
    assert_eq!(bus.calls[0].0, "wasmcloud:nn/Nn.SetInput");
    let payload = &bus.calls[0].1;
    let ty_field: Vec<u8> = vec![0xa2, b't', b'y', 0xa4, b'B', b'f', b'1', b'6'];
    assert!(payload.windows(ty_field.len()).any(|w| w == ty_field));
    let want_payload: Vec<u8> = vec![
        0x83,
        0xa7, b'c', b'o', b'n', b't', b'e', b'x', b't', 9,
        0xa5, b'i', b'n', b'd', b'e', b'x', 0,
        0xa6, b't', b'e', b'n', b's', b'o', b'r',
        0x83,
        0xaa, b'd', b'i', b'm', b'e', b'n', b's', b'i', b'o', b'n', b's', 0x91, 1,
        0xa2, b't', b'y', 0xa4, b'B', b'f', b'1', b'6',
        0xa4, b'd', b'a', b't', b'a', 0x92, 1, 2,
    ];
    assert_eq!(payload, &want_payload);
}

/// A transport failure yields `InvalidArgument` — never `InvalidEncoding`
/// — for every operation, and the failure message is preserved in the
/// diagnostic.
#[test]
fn transport_failure_yields_invalid_argument_everywhere() {
    let failing = || StubBus::replying(Err("boom".to_string()));

    let mut bus = failing();
    let (r, d) = load(
        &mut bus,
        vec![b"abc".to_vec()],
        guest::GraphEncoding::Autodetect,
        guest::ExecutionTarget::Gpu,
    );
    assert_eq!(r, Err(guest::Error::InvalidArgument));
    let entry = d.unwrap();
    assert_eq!(entry.stage, DiagnosticStage::Transport);
    assert_eq!(entry.detail, Some("boom".to_string()));

    let mut bus = failing();
    let (r, d) = load_by_name(&mut bus, "mobilenet".to_string());
    assert_eq!(r, Err(guest::Error::InvalidArgument));
    assert_eq!(d.unwrap().stage, DiagnosticStage::Transport);
    assert_eq!(bus.calls[0].0, "wasmcloud:nn/Nn.LoadByName");
    assert_eq!(
        bus.calls[0].1,
        rmp_serde::to_vec(&"mobilenet".to_string()).unwrap()
    );

    let mut bus = failing();
    let (r, d) = init_execution_context(&mut bus, 3);
    assert_eq!(r, Err(guest::Error::InvalidArgument));
    assert_eq!(d.unwrap().stage, DiagnosticStage::Transport);
    assert_eq!(bus.calls[0].0, "wasmcloud:nn/Nn.InitExecutionContext");
    assert_eq!(bus.calls[0].1, vec![3]);

    let mut bus = failing();
    let (r, d) = set_input(&mut bus, 3, 0, bf16_tensor());
    assert_eq!(r, Err(guest::Error::InvalidArgument));
    assert_eq!(d.unwrap().stage, DiagnosticStage::Transport);

    let mut bus = failing();
    let (r, d) = compute(&mut bus, 3);
    assert_eq!(r, Err(guest::Error::InvalidArgument));
    assert_eq!(d.unwrap().stage, DiagnosticStage::Transport);
    assert_eq!(bus.calls[0].0, "wasmcloud:nn/Nn.Compute");

    let mut bus = failing();
    let (r, d) = get_output(&mut bus, 3, 1);
    assert_eq!(r, Err(guest::Error::InvalidArgument));
    assert_eq!(d.unwrap().stage, DiagnosticStage::Transport);
}

/// Compute succeeds on any transport success at all: its reply payload is
/// never decoded, be it garbage or even an encoded host error.
#[test]
fn compute_ignores_reply_payload() {
    let mut bus = StubBus::replying(Ok(vec![0xff, 0x00, 0x13]));
    let (r, d) = compute(&mut bus, 5);
    assert_eq!(r, Ok(()));
    assert!(d.is_none());
    assert_eq!(bus.calls, vec![("wasmcloud:nn/Nn.Compute", vec![5])]);

    let err_reply = rmp_serde::to_vec(&Err::<(), String>("RuntimeError".to_string())).unwrap();
    let mut bus = StubBus::replying(Ok(err_reply));
    let (r, d) = compute(&mut bus, 5);
    assert_eq!(r, Ok(()));
    assert!(d.is_none());
}

/// Every host error code collapses to the guest's `InvalidArgument`, and
/// its name survives in the diagnostic detail.
#[test]
fn every_host_error_code_collapses_to_invalid_argument() {
    for name in [
        "Success", "InvalidArgument", "InvalidEncoding", "Timeout", "RuntimeError",
        "UnsupportedOperation", "TooLarge", "NotFound",
    ] {
        let reply = rmp_serde::to_vec(&Err::<u32, String>(name.to_string())).unwrap();
        let mut bus = StubBus::replying(Ok(reply));
        let (r, d) = load_by_name(&mut bus, "m".to_string());
        assert_eq!(r, Err(guest::Error::InvalidArgument));
        let entry = d.unwrap();
        assert_eq!(entry.stage, DiagnosticStage::HostError);
        assert_eq!(entry.detail, Some(name.to_string()));
    }
}

/// An unreadable response wrapper also yields `InvalidArgument`, with a
/// diagnostic naming the wrapper stage.
#[test]
fn unreadable_wrapper_yields_invalid_argument() {
    let mut bus = StubBus::replying(Ok(vec![0xde, 0xad]));
    let (r, d) = init_execution_context(&mut bus, 1);
    assert_eq!(r, Err(guest::Error::InvalidArgument));
    let entry = d.unwrap();
    assert_eq!(entry.stage, DiagnosticStage::ResponseWrapper);
    assert_eq!(entry.detail, None);
}

/// A successful round trip of every remaining operation.
#[test]
fn remaining_operations_succeed_on_well_formed_replies() {
    let ok9 = rmp_serde::to_vec(&Ok::<u32, String>(9)).unwrap();
    let mut bus = StubBus::replying(Ok(ok9.clone()));
    assert_eq!(load_by_name(&mut bus, "mobilenet".to_string()).0, Ok(9));

    let mut bus = StubBus::replying(Ok(ok9));
    assert_eq!(init_execution_context(&mut bus, 4).0, Ok(9));
    assert_eq!(bus.calls[0].1, vec![4]);

    let data = rmp_serde::to_vec(&Ok::<Vec<u8>, String>(vec![1, 2, 3])).unwrap();
    let mut bus = StubBus::replying(Ok(data));
    let (r, d) = get_output(&mut bus, 4, 2);
    assert_eq!(r, Ok(vec![1, 2, 3]));
    assert!(d.is_none());
}
