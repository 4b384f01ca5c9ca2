//! Protected containers for secrets held in process memory.
//!
//! A [`SecretVec`](secret_vec::SecretVec) owns one protected
//! [`Region`](region::Region): a memory area bracketed by guard pages,
//! fronted by a random canary, locked into resident memory, and kept
//! inaccessible except for the exact span of an outstanding borrow. Scoped
//! guards hand out read-only or read-write views, comparison runs in
//! constant time, and formatting never shows element content.

pub mod region;
mod rng;
pub mod secret_vec;
pub mod traits;

pub use region::Prot;
pub use region::Region;
pub use secret_vec::Ref;
pub use secret_vec::RefMut;
pub use secret_vec::SecretVec;
pub use traits::Bytes;
pub use traits::ConstantEq;
pub use traits::Randomizable;
pub use traits::Zeroable;
