//! Message vocabulary for a JSON-RPC 2.0 client talking to a Language Server
//! Protocol server: the closed set of supported method identifiers with their
//! wire strings, and the request/response/error envelope shapes that carry
//! them.

pub mod decode;
pub mod envelope;
pub mod method;

pub use envelope::DecodeError;
pub use envelope::JsonRpcError;
pub use envelope::JsonRpcRequest;
pub use envelope::JsonRpcResponse;
pub use method::LspMethod;
