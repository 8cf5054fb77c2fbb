//! Runtime core of a networked hardware controller: the register-level
//! protocol for a chain of I2C port expanders, the bit-level mapping between
//! raw port bytes and named boolean fields, the JSON codec for the wire
//! records, the single-slot concurrency bridge between the polling task and
//! the network handler, and the decision logic of the WebSocket protocol
//! handler and its supervisory retry loop.

pub mod bridge;
pub mod http;
pub mod json;
pub mod json_dec;
pub mod json_enc;
pub mod logic;
pub mod mcp23017;
pub mod rats_nest;
pub mod records;
pub mod scan;
pub mod ws;
