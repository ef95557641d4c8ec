//! The epoch core of a Honey Badger style asynchronous BFT atomic broadcast:
//! per-ciphertext share accumulation and the order-independent assembly of a
//! block, together with the small field and container helpers that accompany it.

pub mod accumulator;
pub mod capability;
pub mod container;
pub mod epoch;
pub mod field;
pub mod modular;

pub use accumulator::{BadCiphertext, ChannelEvent, ShareAccumulator};
pub use capability::{Protocol, ThresholdDecryption, ThresholdDecryptionError, ThresholdEncryption};
pub use container::{Engine, Server};
pub use epoch::{collect_block, local_vote};
pub use field::{Field, NativeField, Value};
pub use modular::{ModAdd, ModInv, ModMul, ModNeg, MulReduce};
