//! Client-side model of the JSON-RPC dialect spoken by WiZ smart lights:
//! building requests and their exact bytes, interpreting replies, and keeping
//! track of the devices a client talks to.

pub mod error;
pub mod json;
pub mod mac;
pub mod method;
pub mod model;
pub mod params;
pub mod registry;

pub use method::Method;
pub use model::Fingerprint;
pub use model::Target;
pub use model::WizRPCRequest as Request;
pub use model::WizRPCResponse as Response;
pub use params::RequestParamsFieldType as Param;
