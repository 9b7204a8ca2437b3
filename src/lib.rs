//! A page-aligned buffer of machine code: its sizing rules, the protocol that
//! acquires an executable region from the operating system, and the byte
//! contents that callers read and write before invoking the region.

pub mod layout;
pub mod acquire;
pub mod buffer;
