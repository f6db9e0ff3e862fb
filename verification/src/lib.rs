//! Guest-facing neural-network inference adaptor.
//!
//! The crate re-shapes calls of a guest inference interface (graph loading,
//! execution contexts, tensor input/output, compute) into single synchronous
//! invocations of a host call-bus: it translates the guest's enums into the
//! host's wire schema, encodes a request envelope in a compact binary format,
//! and normalizes the host's wide error taxonomy into the guest's narrow one.
//! The call-bus itself is supplied by the embedder through [`ops::CallBus`].

pub mod guest;
pub mod schema;
pub mod translate;
pub mod msgpack;
pub mod codec;
pub mod ops;
