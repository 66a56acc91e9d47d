//! Boundary-marshaling layer for sandboxed guest code: a fixed-layout
//! descriptor record shared with the host, a read-only view over the call's
//! input bytes, and a single-use sink that yields the exact bytes the host's
//! terminal hand-off primitive must receive.

pub mod wrapped;

pub use wrapped::Descriptor;
pub use wrapped::WrappedArgs;
pub use wrapped::WrappedResult;
pub use wrapped::parse_args;
