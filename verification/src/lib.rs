//! An append-only log of byte-buffer messages with validated insertion and
//! bounds-checked retrieval.
//!
//! The store owns an ordered sequence of messages (opaque byte buffers of at
//! most [`MAX_MESSAGE_SIZE_BYTES`] bytes each), preserves insertion order
//! permanently, and exposes three operations: append, fetch by index, and
//! fetch of a contiguous range. Every violation of the guard conditions is
//! reported as a [`StoreError`] and leaves the store unchanged; the hosting
//! layer is expected to surface such an error as a whole-invocation abort.

mod laws;
mod messenger;

pub use laws::lemma_add_then_get;
pub use laws::lemma_empty_store_reads_fail;
pub use laws::lemma_get_multiple_matches_get;
pub use laws::lemma_oversize_add_rejected;
pub use laws::lemma_repeated_reads_agree;
pub use messenger::BlockchainMessenger;
pub use messenger::StoreError;
pub use messenger::MAX_MESSAGE_SIZE_BYTES;
pub use messenger::spec_add;
pub use messenger::spec_get;
pub use messenger::spec_get_multiple;
