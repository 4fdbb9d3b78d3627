//! What the gateway and an acquirer bank share: the message that carries
//! an authorisation.

pub mod codec;
pub mod gw_error;
pub mod transaction;
