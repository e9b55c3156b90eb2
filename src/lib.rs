//! Serial link cable of a Game Boy emulator: the register bus it talks to,
//! the transfer protocol two linked emulators run over a shared state record,
//! and the port adapters the emulator steps once per machine step.

pub mod gpu;
pub mod joypad;
pub mod link;
pub mod mmu;
pub mod port;
pub mod serial;
pub mod transfer;

pub use mmu::{Interrupt, Memory};
pub use transfer::{ByteTransfer, Unlinked};
pub use gpu::GPU;
pub use joypad::Joypad;
pub use port::{LinkPort, LinkTransport};
