pub mod addr;
pub mod attrs;
pub mod client;
pub mod constants;
pub mod error;
pub mod header;
pub mod packet;
pub mod stun;
pub mod util;
pub mod wire;
