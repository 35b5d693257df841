//! Transport layer for DMX512 / RDM: the Enttec widget message envelope, the
//! decisions of the widget driver, and the break-framing decisions of the two
//! raw UART drivers, each stated and proved as a contract.

pub mod message;
pub mod enttec;
pub mod uart;
