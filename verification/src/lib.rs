//! Client-side JSON-RPC 2.0 transport core: request identifiers, call
//! construction, credentials and the description of the HTTP POST that carries
//! a request. Sending is left to the caller's asynchronous runtime.

pub mod allocator;
pub mod credentials;
pub mod failure;
pub mod laws;
pub mod request;
pub mod transport;
pub mod types;

pub use allocator::RequestIdAllocator;
pub use credentials::Credentials;
pub use failure::Failure;
pub use failure::FailureKind;
pub use failure::Stage;
pub use request::Header;
pub use request::HttpRequest;
pub use request::Method;
pub use transport::HttpTransport;
pub use transport::Transport;
pub use types::Call;
pub use types::MethodCall;
pub use types::Notification;
pub use types::Params;
pub use types::RequestId;
pub use types::Version;
