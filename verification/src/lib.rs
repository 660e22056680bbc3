//! Process-wide identifiers of 24, 32, 64, 128 and 256 bits, packed from a
//! timestamp, a node, a shard, a thread and a sequence number, and rendered
//! as fixed-width text in base 36, 58, 91 or 16.
//!
//! The state that the generators share is a value of its own,
//! [`SharedState`]: a program makes one and hands it to every generator it
//! makes. The calling thread's identifier is handed to each call;
//! [`ThreadSlot`] derives and keeps it.

pub mod alphabet;
pub mod clock;
pub mod decode;
pub mod encode;
pub mod generator;
pub mod ids;
pub mod layout;
pub mod order;
pub mod state;
pub mod thread;

pub use crate::generator::IdGenerator;
pub use crate::ids::x128;
pub use crate::ids::x24;
pub use crate::ids::x256;
pub use crate::ids::x32;
pub use crate::ids::x64;
pub use crate::ids::AtomicId;
pub use crate::state::AtomicOption;
pub use crate::state::SharedState;
pub use crate::thread::ThreadSlot;
