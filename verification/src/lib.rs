//! A fixed-capacity bump arena over one owned, zero-initialised byte buffer.
//!
//! Room for a value or an array of values is carved by advancing a single
//! offset, and is released only in bulk: by rewinding the offset (`reset`),
//! by zeroing the buffer and rewinding (`clear`), or by giving the buffer
//! back (`dealloc`).
//!
//! A carve returns a [`Region`], a handle that names the carved bytes; the
//! arena reads and writes them on its behalf. Handles are not invalidated
//! by a rewind: one issued earlier then names bytes that a later carve may
//! be issued again.

pub mod arena;
pub mod error;
pub mod laws;
pub mod model;
pub mod region;

pub use arena::MemArena;
pub use error::ArenaError;
pub use model::{total, zeros, ArenaView, RegionView, Step};
pub use region::Region;
