//! Signed webhook notifications: the message model, the request signature,
//! the JSON wire format and the interpretation of the remote reply.

pub mod decimal;
pub mod msg_type;
pub mod request;
pub mod response;
pub mod sign;
pub mod text;
pub mod wire;

pub use request::{Credentials, Message, WebHookInput};
pub use response::{SendError, WebHookOutput};
