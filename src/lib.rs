//! Ownership-checked handles for packet processing: environment bring-up,
//! fixed-capacity buffer pools, and packet buffers with bounded byte views.
pub mod cstring;
pub mod eal;
pub mod error;
pub mod mbuf;
pub mod mempool;

pub use eal::Eal;
pub use error::Error;
pub use mbuf::Mbuf;
pub use mempool::Mempool;
