//! The guest-facing operations. Each one is a stateless, one-shot
//! pipeline: translate the guest arguments into the host schema, encode
//! the request envelope, dispatch one blocking call over the call-bus, and
//! read the response back into the guest's own types and error set.
//!
//! The call-bus is whatever the embedder supplies through [`CallBus`]; its
//! answer is taken as-is, so everything after the call is specified for
//! every byte sequence and every failure the bus can produce. Failures are
//! reported to the caller only as [`guest::Error`]; the richer detail goes
//! into a [`Diagnostic`] the caller may forward to a logging sink.

use vstd::prelude::*;
use crate::guest;
use crate::schema;
use crate::translate::{
    spec_graph_encoding_to_host, spec_execution_target_to_host, spec_tensor_type_to_host,
    graph_encoding_to_host, execution_target_to_host, tensor_to_host,
};
use crate::codec::{
    views_of, load_payload, name_encodable, load_by_name_payload, ok_prefix, err_prefix,
    error_code_name, parse_error_code,
    tensor_encodable, set_input_payload, get_output_payload, parse_handle_response,
    parse_unit_response, parse_bytes_response, encode_load, encode_load_by_name, encode_handle,
    encode_set_input, encode_get_output, decode_handle_response, decode_unit_response,
    decode_bytes_response,
};
use crate::msgpack::{MAX_WIRE_LEN, uint_value, str_value, nil_value};

verus! {

/// The host call surface: one synchronous invocation, named by an
/// operation string, carrying an encoded payload, answering with either
/// the raw response bytes or a transport failure described by a message.
/// There is no target selector: routing is entirely the bus's affair.
///
/// The embedder implements this; nothing is assumed about its behaviour,
/// so every operation below is verified for every possible answer.
pub trait CallBus {
    fn call(&mut self, operation: &'static str, payload: &[u8]) -> Result<Vec<u8>, String>;
}

/// Which stage of an operation's pipeline a diagnostic comes from.
#[derive(Clone, Copy, PartialEq, Eq, Structural, Debug)]
pub enum DiagnosticStage {
    /// The request could not be encoded locally; nothing was dispatched.
    Encode,
    /// The call-bus itself reported failure.
    Transport,
    /// The response payload was not a readable success/failure wrapper.
    ResponseWrapper,
    /// The host answered with an error code of its own.
    HostError,
}

/// One entry for the diagnostic sink: which operation, which stage, and
/// whatever detail was discarded when the failure was collapsed into the
/// guest's two-variant error set.
pub struct Diagnostic {
    pub operation: &'static str,
    pub stage: DiagnosticStage,
    pub detail: Option<String>,
}

pub open spec fn op_load_name() -> Seq<char> {
    "wasmcloud:nn/Nn.Load"@
}

pub open spec fn op_load_by_name_name() -> Seq<char> {
    "wasmcloud:nn/Nn.LoadByName"@
}

pub open spec fn op_init_execution_context_name() -> Seq<char> {
    "wasmcloud:nn/Nn.InitExecutionContext"@
}

pub open spec fn op_set_input_name() -> Seq<char> {
    "wasmcloud:nn/Nn.SetInput"@
}

pub open spec fn op_compute_name() -> Seq<char> {
    "wasmcloud:nn/Nn.Compute"@
}

pub open spec fn op_get_output_name() -> Seq<char> {
    "wasmcloud:nn/Nn.GetOutput"@
}

pub fn op_load() -> (r: &'static str)
    ensures
        r@ == op_load_name(),
{
    "wasmcloud:nn/Nn.Load"
}

pub fn op_load_by_name() -> (r: &'static str)
    ensures
        r@ == op_load_by_name_name(),
{
    "wasmcloud:nn/Nn.LoadByName"
}

pub fn op_init_execution_context() -> (r: &'static str)
    ensures
        r@ == op_init_execution_context_name(),
{
    "wasmcloud:nn/Nn.InitExecutionContext"
}

pub fn op_set_input() -> (r: &'static str)
    ensures
        r@ == op_set_input_name(),
{
    "wasmcloud:nn/Nn.SetInput"
}

pub fn op_compute() -> (r: &'static str)
    ensures
        r@ == op_compute_name(),
{
    "wasmcloud:nn/Nn.Compute"
}

pub fn op_get_output() -> (r: &'static str)
    ensures
        r@ == op_get_output_name(),
{
    "wasmcloud:nn/Nn.GetOutput"
}

/// Readable label of a host error code, for the diagnostic side channel.
pub open spec fn error_code_label(c: schema::ErrorCode) -> Seq<char> {
    match c {
        schema::ErrorCode::Success => "Success"@,
        schema::ErrorCode::InvalidArgument => "InvalidArgument"@,
        schema::ErrorCode::InvalidEncoding => "InvalidEncoding"@,
        schema::ErrorCode::Timeout => "Timeout"@,
        schema::ErrorCode::RuntimeError => "RuntimeError"@,
        schema::ErrorCode::UnsupportedOperation => "UnsupportedOperation"@,
        schema::ErrorCode::TooLarge => "TooLarge"@,
        schema::ErrorCode::NotFound => "NotFound"@,
    }
}

/// Readable label of a host error code.
pub fn error_code_text(c: &schema::ErrorCode) -> (r: &'static str)
    ensures
        r@ == error_code_label(*c),
{
    match c {
        schema::ErrorCode::Success => "Success",
        schema::ErrorCode::InvalidArgument => "InvalidArgument",
        schema::ErrorCode::InvalidEncoding => "InvalidEncoding",
        schema::ErrorCode::Timeout => "Timeout",
        schema::ErrorCode::RuntimeError => "RuntimeError",
        schema::ErrorCode::UnsupportedOperation => "UnsupportedOperation",
        schema::ErrorCode::TooLarge => "TooLarge",
        schema::ErrorCode::NotFound => "NotFound",
    }
}

/// What the call-bus answered, as the contracts see it: the response bytes
/// on transport success, the failure message otherwise.
pub open spec fn response_view(r: Result<Vec<u8>, String>) -> Result<Seq<u8>, Seq<char>> {
    match r {
        Ok(b) => Ok(b@),
        Err(m) => Err(m@),
    }
}

/// The guest outcome of an operation whose success payload is a handle:
/// the handle on a well-formed success, the invalid-argument error on a
/// transport failure, an unreadable response, or a host error code.
pub open spec fn handle_outcome(resp: Result<Seq<u8>, Seq<char>>) -> Result<u32, guest::Error> {
    match resp {
        Err(_) => Err(guest::Error::InvalidArgument),
        Ok(b) => match parse_handle_response(b) {
            None => Err(guest::Error::InvalidArgument),
            Some(Err(_)) => Err(guest::Error::InvalidArgument),
            Some(Ok(h)) => Ok(h),
        },
    }
}

/// The guest outcome of an operation whose success payload is unit.
pub open spec fn unit_outcome(resp: Result<Seq<u8>, Seq<char>>) -> Result<(), guest::Error> {
    match resp {
        Err(_) => Err(guest::Error::InvalidArgument),
        Ok(b) => match parse_unit_response(b) {
            None => Err(guest::Error::InvalidArgument),
            Some(Err(_)) => Err(guest::Error::InvalidArgument),
            Some(Ok(_)) => Ok(()),
        },
    }
}

/// The guest outcome of an operation whose success payload is tensor
/// data.
pub open spec fn bytes_outcome(resp: Result<Seq<u8>, Seq<char>>) -> Result<Seq<u8>, guest::Error> {
    match resp {
        Err(_) => Err(guest::Error::InvalidArgument),
        Ok(b) => match parse_bytes_response(b) {
            None => Err(guest::Error::InvalidArgument),
            Some(Err(_)) => Err(guest::Error::InvalidArgument),
            Some(Ok(data)) => Ok(data),
        },
    }
}

/// The guest outcome of the compute operation: nothing of a successful
/// response's payload is read, only the transport outcome counts.
pub open spec fn compute_outcome(resp: Result<Seq<u8>, Seq<char>>) -> Result<(), guest::Error> {
    match resp {
        Err(_) => Err(guest::Error::InvalidArgument),
        Ok(_) => Ok(()),
    }
}

/// Whether `d` is exactly one diagnostic with the given operation, stage
/// and detail.
pub open spec fn is_diagnostic(
    d: Option<Diagnostic>,
    op: Seq<char>,
    stage: DiagnosticStage,
    detail: Option<Seq<char>>,
) -> bool {
    match d {
        Some(dd) => dd.operation@ == op && dd.stage == stage && (match (dd.detail, detail) {
            (Some(have), Some(want)) => have@ == want,
            (None, None) => true,
            _ => false,
        }),
        None => false,
    }
}

/// The diagnostic policy of a handle-returning operation: every failure
/// leaves exactly one entry naming its stage, a success leaves none, and
/// a host error code's name is preserved as the detail.
pub open spec fn handle_diagnostic(
    op: Seq<char>,
    resp: Result<Seq<u8>, Seq<char>>,
    d: Option<Diagnostic>,
) -> bool {
    match resp {
        Err(m) => is_diagnostic(d, op, DiagnosticStage::Transport, Some(m)),
        Ok(b) => match parse_handle_response(b) {
            None => is_diagnostic(d, op, DiagnosticStage::ResponseWrapper, None),
            Some(Err(c)) => is_diagnostic(d, op, DiagnosticStage::HostError, Some(
                error_code_label(c),
            )),
            Some(Ok(_)) => d is None,
        },
    }
}

/// The diagnostic policy of a unit-returning operation.
pub open spec fn unit_diagnostic(
    op: Seq<char>,
    resp: Result<Seq<u8>, Seq<char>>,
    d: Option<Diagnostic>,
) -> bool {
    match resp {
        Err(m) => is_diagnostic(d, op, DiagnosticStage::Transport, Some(m)),
        Ok(b) => match parse_unit_response(b) {
            None => is_diagnostic(d, op, DiagnosticStage::ResponseWrapper, None),
            Some(Err(c)) => is_diagnostic(d, op, DiagnosticStage::HostError, Some(
                error_code_label(c),
            )),
            Some(Ok(_)) => d is None,
        },
    }
}

/// The diagnostic policy of the tensor-data operation.
pub open spec fn bytes_diagnostic(
    op: Seq<char>,
    resp: Result<Seq<u8>, Seq<char>>,
    d: Option<Diagnostic>,
) -> bool {
    match resp {
        Err(m) => is_diagnostic(d, op, DiagnosticStage::Transport, Some(m)),
        Ok(b) => match parse_bytes_response(b) {
            None => is_diagnostic(d, op, DiagnosticStage::ResponseWrapper, None),
            Some(Err(c)) => is_diagnostic(d, op, DiagnosticStage::HostError, Some(
                error_code_label(c),
            )),
            Some(Ok(_)) => d is None,
        },
    }
}

/// The diagnostic policy of the compute operation: only a transport
/// failure leaves an entry; no payload is ever inspected.
pub open spec fn compute_diagnostic(
    op: Seq<char>,
    resp: Result<Seq<u8>, Seq<char>>,
    d: Option<Diagnostic>,
) -> bool {
    match resp {
        Err(m) => is_diagnostic(d, op, DiagnosticStage::Transport, Some(m)),
        Ok(_) => d is None,
    }
}

/// Turns a call-bus answer to a handle-returning operation into the guest
/// outcome and the diagnostic the failure, if any, leaves behind.
pub fn finish_handle_call(operation: &'static str, response: Result<Vec<u8>, String>) -> (r: (
    Result<u32, guest::Error>,
    Option<Diagnostic>,
))
    ensures
        r.0 == handle_outcome(response_view(response)),
        handle_diagnostic(operation@, response_view(response), r.1),
{
    match response {
        Err(m) => (
            Err(guest::Error::InvalidArgument),
            Some(Diagnostic { operation, stage: DiagnosticStage::Transport, detail: Some(m) }),
        ),
        Ok(bytes) => match decode_handle_response(bytes.as_slice()) {
            None => (
                Err(guest::Error::InvalidArgument),
                Some(
                    Diagnostic {
                        operation,
                        stage: DiagnosticStage::ResponseWrapper,
                        detail: None,
                    },
                ),
            ),
            Some(Err(c)) => (
                Err(guest::Error::InvalidArgument),
                Some(
                    Diagnostic {
                        operation,
                        stage: DiagnosticStage::HostError,
                        detail: Some(error_code_text(&c).to_owned()),
                    },
                ),
            ),
            Some(Ok(h)) => (Ok(h), None),
        },
    }
}

/// Turns a call-bus answer to a unit-returning operation into the guest
/// outcome and its diagnostic.
pub fn finish_unit_call(operation: &'static str, response: Result<Vec<u8>, String>) -> (r: (
    Result<(), guest::Error>,
    Option<Diagnostic>,
))
    ensures
        r.0 == unit_outcome(response_view(response)),
        unit_diagnostic(operation@, response_view(response), r.1),
{
    match response {
        Err(m) => (
            Err(guest::Error::InvalidArgument),
            Some(Diagnostic { operation, stage: DiagnosticStage::Transport, detail: Some(m) }),
        ),
        Ok(bytes) => match decode_unit_response(bytes.as_slice()) {
            None => (
                Err(guest::Error::InvalidArgument),
                Some(
                    Diagnostic {
                        operation,
                        stage: DiagnosticStage::ResponseWrapper,
                        detail: None,
                    },
                ),
            ),
            Some(Err(c)) => (
                Err(guest::Error::InvalidArgument),
                Some(
                    Diagnostic {
                        operation,
                        stage: DiagnosticStage::HostError,
                        detail: Some(error_code_text(&c).to_owned()),
                    },
                ),
            ),
            Some(Ok(_)) => (Ok(()), None),
        },
    }
}

/// Whether an executable tensor-data result carries exactly the value of
/// a specification-level one.
pub open spec fn bytes_result_matches(
    r: Result<Vec<u8>, guest::Error>,
    s: Result<Seq<u8>, guest::Error>,
) -> bool {
    match (r, s) {
        (Ok(v), Ok(sv)) => v@ == sv,
        (Err(a), Err(b)) => a == b,
        _ => false,
    }
}

/// Turns a call-bus answer to the tensor-data operation into the guest
/// outcome and its diagnostic.
pub fn finish_bytes_call(operation: &'static str, response: Result<Vec<u8>, String>) -> (r: (
    Result<Vec<u8>, guest::Error>,
    Option<Diagnostic>,
))
    ensures
        bytes_result_matches(r.0, bytes_outcome(response_view(response))),
        bytes_diagnostic(operation@, response_view(response), r.1),
{
    match response {
        Err(m) => (
            Err(guest::Error::InvalidArgument),
            Some(Diagnostic { operation, stage: DiagnosticStage::Transport, detail: Some(m) }),
        ),
        Ok(bytes) => match decode_bytes_response(bytes.as_slice()) {
            None => (
                Err(guest::Error::InvalidArgument),
                Some(
                    Diagnostic {
                        operation,
                        stage: DiagnosticStage::ResponseWrapper,
                        detail: None,
                    },
                ),
            ),
            Some(Err(c)) => (
                Err(guest::Error::InvalidArgument),
                Some(
                    Diagnostic {
                        operation,
                        stage: DiagnosticStage::HostError,
                        detail: Some(error_code_text(&c).to_owned()),
                    },
                ),
            ),
            Some(Ok(data)) => (Ok(data), None),
        },
    }
}

/// Turns a call-bus answer to the compute operation into the guest
/// outcome: the payload of a successful response is never decoded.
pub fn finish_compute_call(operation: &'static str, response: Result<Vec<u8>, String>) -> (r: (
    Result<(), guest::Error>,
    Option<Diagnostic>,
))
    ensures
        r.0 == compute_outcome(response_view(response)),
        compute_diagnostic(operation@, response_view(response), r.1),
{
    match response {
        Err(m) => (
            Err(guest::Error::InvalidArgument),
            Some(Diagnostic { operation, stage: DiagnosticStage::Transport, detail: Some(m) }),
        ),
        Ok(_) => (Ok(()), None),
    }
}

/// Whether a load request can be encoded at all: the builder list and each
/// builder must fit a 32-bit length. A guest encoding or target never
/// fails to encode.
pub open spec fn load_request_encodable(builders: Seq<Seq<u8>>) -> bool {
    &&& builders.len() <= MAX_WIRE_LEN
    &&& forall|i: int| 0 <= i < builders.len() ==> (#[trigger] builders[i]).len() <= MAX_WIRE_LEN
}

/// Byte image of a guest load request after translation into the host
/// schema.
pub open spec fn load_request_payload(
    builders: Seq<Seq<u8>>,
    encoding: guest::GraphEncoding,
    target: guest::ExecutionTarget,
) -> Seq<u8> {
    load_payload(
        builders,
        spec_graph_encoding_to_host(encoding),
        spec_execution_target_to_host(target),
    )
}

/// Translates and encodes a load request; fails, with the guest's
/// encoding error, exactly when the request has no byte image.
pub fn prepare_load(
    builder: Vec<Vec<u8>>,
    encoding: guest::GraphEncoding,
    target: guest::ExecutionTarget,
) -> (r: Result<Vec<u8>, guest::Error>)
    ensures
        match r {
            Ok(p) => load_request_encodable(views_of(builder@)) && p@ == load_request_payload(
                views_of(builder@),
                encoding,
                target,
            ),
            Err(e) => !load_request_encodable(views_of(builder@)) && e
                == guest::Error::InvalidEncoding,
        },
{
    let host_encoding = graph_encoding_to_host(encoding);
    let host_target = execution_target_to_host(target);
    let request = schema::LoadRequest { builder, encoding: host_encoding, target: host_target };
    match encode_load(&request) {
        Some(p) => Ok(p),
        None => Err(guest::Error::InvalidEncoding),
    }
}

/// Byte image of a guest load-by-name request.
pub open spec fn load_by_name_request_payload(name: Seq<char>) -> Seq<u8> {
    load_by_name_payload(name)
}

/// Encodes a load-by-name request; fails, with the guest's encoding
/// error, exactly when the name has no byte image.
pub fn prepare_load_by_name(name: &String) -> (r: Result<Vec<u8>, guest::Error>)
    ensures
        match r {
            Ok(p) => name_encodable(name@) && p@ == load_by_name_request_payload(name@),
            Err(e) => !name_encodable(name@) && e == guest::Error::InvalidEncoding,
        },
{
    match encode_load_by_name(name) {
        Some(p) => Ok(p),
        None => Err(guest::Error::InvalidEncoding),
    }
}

/// Encodes a bare handle; a handle always has a byte image.
pub fn prepare_handle(handle: u32) -> (r: Vec<u8>)
    ensures
        r@ == uint_value(handle),
{
    encode_handle(handle)
}

/// Byte image of a guest set-input request after translation into the
/// host schema.
pub open spec fn set_input_request_payload(
    context: u32,
    index: u32,
    dims: Seq<u32>,
    ty: guest::TensorType,
    data: Seq<u8>,
) -> Seq<u8> {
    set_input_payload(context, index, dims, spec_tensor_type_to_host(ty), data)
}

/// Translates and encodes a set-input request; fails, with the guest's
/// encoding error, exactly when the tensor has no byte image.
pub fn prepare_set_input(context: u32, index: u32, tensor: guest::Tensor) -> (r: Result<
    Vec<u8>,
    guest::Error,
>)
    ensures
        match r {
            Ok(p) => tensor_encodable(tensor.dimensions@, tensor.data@) && p@
                == set_input_request_payload(
                context,
                index,
                tensor.dimensions@,
                tensor.tensor_type,
                tensor.data@,
            ),
            Err(e) => !tensor_encodable(tensor.dimensions@, tensor.data@) && e
                == guest::Error::InvalidEncoding,
        },
{
    let host_tensor = tensor_to_host(tensor);
    let request = schema::SetInputRequest { context, index, tensor: host_tensor };
    match encode_set_input(&request) {
        Some(p) => Ok(p),
        None => Err(guest::Error::InvalidEncoding),
    }
}

/// Encodes a get-output request; it always has a byte image.
pub fn prepare_get_output(context: u32, index: u32) -> (r: Vec<u8>)
    ensures
        r@ == get_output_payload(context, index),
{
    let request = schema::GetOutputRequest { context, index };
    encode_get_output(&request)
}

/// Loads a graph: one blocking round trip carrying the builders, the
/// encoding and the target; answers the host's graph handle.
pub fn load<B: CallBus>(
    bus: &mut B,
    builder: Vec<Vec<u8>>,
    encoding: guest::GraphEncoding,
    target: guest::ExecutionTarget,
) -> (r: (Result<u32, guest::Error>, Option<Diagnostic>))
    ensures
        !load_request_encodable(views_of(builder@)) ==> r.0 == Err::<u32, guest::Error>(
            guest::Error::InvalidEncoding,
        ) && is_diagnostic(r.1, op_load_name(), DiagnosticStage::Encode, None),
        load_request_encodable(views_of(builder@)) ==> exists|resp: Result<Seq<u8>, Seq<char>>|
            r.0 == #[trigger] handle_outcome(resp) && handle_diagnostic(op_load_name(), resp, r.1),
{
    let payload = match prepare_load(builder, encoding, target) {
        Ok(p) => p,
        Err(e) => {
            return (
                Err(e),
                Some(
                    Diagnostic {
                        operation: op_load(),
                        stage: DiagnosticStage::Encode,
                        detail: None,
                    },
                ),
            );
        },
    };
    let response = bus.call(op_load(), payload.as_slice());
    finish_handle_call(op_load(), response)
}

/// Loads a graph the host already knows by name; answers its handle.
pub fn load_by_name<B: CallBus>(bus: &mut B, name: String) -> (r: (
    Result<u32, guest::Error>,
    Option<Diagnostic>,
))
    ensures
        !name_encodable(name@) ==> r.0 == Err::<u32, guest::Error>(guest::Error::InvalidEncoding)
            && is_diagnostic(r.1, op_load_by_name_name(), DiagnosticStage::Encode, None),
        name_encodable(name@) ==> exists|resp: Result<Seq<u8>, Seq<char>>|
            r.0 == #[trigger] handle_outcome(resp) && handle_diagnostic(
                op_load_by_name_name(),
                resp,
                r.1,
            ),
{
    let payload = match prepare_load_by_name(&name) {
        Ok(p) => p,
        Err(e) => {
            return (
                Err(e),
                Some(
                    Diagnostic {
                        operation: op_load_by_name(),
                        stage: DiagnosticStage::Encode,
                        detail: None,
                    },
                ),
            );
        },
    };
    let response = bus.call(op_load_by_name(), payload.as_slice());
    finish_handle_call(op_load_by_name(), response)
}

/// Opens an execution context scoping later input, compute and output
/// calls on a loaded graph; answers the context handle.
pub fn init_execution_context<B: CallBus>(bus: &mut B, graph: u32) -> (r: (
    Result<u32, guest::Error>,
    Option<Diagnostic>,
))
    ensures
        exists|resp: Result<Seq<u8>, Seq<char>>|
            r.0 == #[trigger] handle_outcome(resp) && handle_diagnostic(
                op_init_execution_context_name(),
                resp,
                r.1,
            ),
{
    let payload = prepare_handle(graph);
    let response = bus.call(op_init_execution_context(), payload.as_slice());
    finish_handle_call(op_init_execution_context(), response)
}

/// Binds a tensor to an input slot of an execution context.
pub fn set_input<B: CallBus>(bus: &mut B, context: u32, index: u32, tensor: guest::Tensor) -> (r: (
    Result<(), guest::Error>,
    Option<Diagnostic>,
))
    ensures
        !tensor_encodable(tensor.dimensions@, tensor.data@) ==> r.0 == Err::<(), guest::Error>(
            guest::Error::InvalidEncoding,
        ) && is_diagnostic(r.1, op_set_input_name(), DiagnosticStage::Encode, None),
        tensor_encodable(tensor.dimensions@, tensor.data@) ==> exists|
            resp: Result<Seq<u8>, Seq<char>>,
        |
            r.0 == #[trigger] unit_outcome(resp) && unit_diagnostic(op_set_input_name(), resp, r.1),
{
    let payload = match prepare_set_input(context, index, tensor) {
        Ok(p) => p,
        Err(e) => {
            return (
                Err(e),
                Some(
                    Diagnostic {
                        operation: op_set_input(),
                        stage: DiagnosticStage::Encode,
                        detail: None,
                    },
                ),
            );
        },
    };
    let response = bus.call(op_set_input(), payload.as_slice());
    finish_unit_call(op_set_input(), response)
}

/// Runs the computation of an execution context. Success is purely the
/// absence of transport failure; no business-level result is decoded.
pub fn compute<B: CallBus>(bus: &mut B, context: u32) -> (r: (
    Result<(), guest::Error>,
    Option<Diagnostic>,
))
    ensures
        exists|resp: Result<Seq<u8>, Seq<char>>|
            r.0 == #[trigger] compute_outcome(resp) && compute_diagnostic(
                op_compute_name(),
                resp,
                r.1,
            ),
{
    let payload = prepare_handle(context);
    let response = bus.call(op_compute(), payload.as_slice());
    finish_compute_call(op_compute(), response)
}

/// Reads the bytes of an output slot of an execution context.
pub fn get_output<B: CallBus>(bus: &mut B, context: u32, index: u32) -> (r: (
    Result<Vec<u8>, guest::Error>,
    Option<Diagnostic>,
))
    ensures
        exists|resp: Result<Seq<u8>, Seq<char>>|
            bytes_result_matches(r.0, #[trigger] bytes_outcome(resp)) && bytes_diagnostic(
                op_get_output_name(),
                resp,
                r.1,
            ),
{
    let payload = prepare_get_output(context, index);
    let response = bus.call(op_get_output(), payload.as_slice());
    finish_bytes_call(op_get_output(), response)
}

/// Law: a transport failure from the call-bus yields the guest's
/// invalid-argument error — never its encoding error — for every
/// operation: the handle-returning ones, set-input, get-output and
/// compute alike.
pub proof fn transport_failure_yields_invalid_argument(m: Seq<char>)
    ensures
        handle_outcome(Err(m)) == Err::<u32, guest::Error>(guest::Error::InvalidArgument),
        unit_outcome(Err(m)) == Err::<(), guest::Error>(guest::Error::InvalidArgument),
        bytes_outcome(Err(m)) == Err::<Seq<u8>, guest::Error>(guest::Error::InvalidArgument),
        compute_outcome(Err(m)) == Err::<(), guest::Error>(guest::Error::InvalidArgument),
{
}

/// Law: compute never reads a business-level result; any transport
/// success at all, whatever its payload holds, is success for the guest.
pub proof fn compute_ignores_response_payload(b: Seq<u8>)
    ensures
        compute_outcome(Ok(b)) == Ok::<(), guest::Error>(()),
        compute_diagnostic(op_compute_name(), Ok(b), None),
{
}

/// Law: every host error code — whatever its own meaning — collapses to
/// the guest's invalid-argument error, for each response shape.
pub proof fn host_error_collapses_to_invalid_argument(c: schema::ErrorCode, b: Seq<u8>)
    ensures
        parse_handle_response(b) == Some(Err::<u32, schema::ErrorCode>(c)) ==> handle_outcome(
            Ok(b),
        ) == Err::<u32, guest::Error>(guest::Error::InvalidArgument),
        parse_unit_response(b) == Some(Err::<(), schema::ErrorCode>(c)) ==> unit_outcome(Ok(b))
            == Err::<(), guest::Error>(guest::Error::InvalidArgument),
        parse_bytes_response(b) == Some(Err::<Seq<u8>, schema::ErrorCode>(c)) ==> bytes_outcome(
            Ok(b),
        ) == Err::<Seq<u8>, guest::Error>(guest::Error::InvalidArgument),
{
}

/// Law: a well-formed success response is returned as exactly the value
/// the host sent — the handle for the handle-returning operations, unit
/// for set-input — for every handle value.
pub proof fn well_formed_success_is_returned(h: u32)
    ensures
        handle_outcome(Ok(ok_prefix() + uint_value(h))) == Ok::<u32, guest::Error>(h),
        unit_outcome(Ok(ok_prefix() + nil_value())) == Ok::<(), guest::Error>(()),
{
    let b = ok_prefix() + uint_value(h);
    assert(b.take(4) =~= ok_prefix());
    assert(b.skip(4) =~= uint_value(h));
    if h >= 0x10000 {
        assert(h as int / 0x100 == (h as int / 0x10000) * 0x100 + (h as int / 0x100) % 0x100);
        assert(h as int / 0x10000 == (h as int / 0x1000000) * 0x100 + (h as int / 0x10000) % 0x100);
    }
}

/// Law: a well-formed failure response carrying any host error code is
/// collapsed to the guest's invalid-argument error, whichever response
/// shape reads it.
pub proof fn well_formed_error_is_collapsed(c: schema::ErrorCode)
    ensures
        handle_outcome(Ok(err_prefix() + str_value(error_code_name(c)))) == Err::<u32, guest::Error>(
            guest::Error::InvalidArgument,
        ),
        unit_outcome(Ok(err_prefix() + str_value(error_code_name(c)))) == Err::<(), guest::Error>(
            guest::Error::InvalidArgument,
        ),
        bytes_outcome(Ok(err_prefix() + str_value(error_code_name(c)))) == Err::<
            Seq<u8>,
            guest::Error,
        >(guest::Error::InvalidArgument),
{
    let b = err_prefix() + str_value(error_code_name(c));
    assert(b.take(5) =~= err_prefix());
    assert(b.skip(5) =~= str_value(error_code_name(c)));
    // A failure response never reads as a success: the map keys differ.
    assert(b.take(4)[1] != ok_prefix()[1]);
    assert(b[1] != (ok_prefix() + nil_value())[1]);
    // The code is read back unambiguously: names of equal length differ at
    // a known byte, and all other pairs differ in length already.
    assert(parse_error_code(str_value(error_code_name(c))) == Some(c)) by {
        assert(str_value(error_code_name(schema::ErrorCode::Success))[1] != str_value(
            error_code_name(schema::ErrorCode::Timeout),
        )[1]);
        assert(str_value(error_code_name(schema::ErrorCode::InvalidArgument))[8] != str_value(
            error_code_name(schema::ErrorCode::InvalidEncoding),
        )[8]);
        assert(str_value(error_code_name(schema::ErrorCode::TooLarge))[1] != str_value(
            error_code_name(schema::ErrorCode::NotFound),
        )[1]);
    }
}

} // verus!
