//! Guest-side verification shim: the ownership bookkeeping behind the
//! memory bridge, the decoding of host-supplied terminated byte views, and
//! the decision logic of the signature-verification adapter.
pub mod crypto;
pub mod boundary;
pub mod memory;
