//! Extensible integer enumerations for a virtualization-management binding.
//!
//! The native library this binding talks to stores its enumerations as plain
//! integers and adds new codes in later versions without changing that
//! storage type.  A client built against an older declaration set must be
//! able to receive codes it does not recognize without crashing, without
//! coercing them to a known variant, and without losing the raw value.
//!
//! The [`enumutil`] module holds the core: the per-enumeration conversion
//! contract [`enumutil::RawEnum`], the container [`enumutil::Enum`] that
//! keeps an unrecognized code representable and round-trippable, and the
//! error [`enumutil::UnknownEnumError`] for callers who demand strictness.
//! [`example`] writes one enumeration out in full against that contract.

pub mod enumutil;
pub mod example;
pub mod storage_pool;
pub mod storage_vol;
pub mod util;
