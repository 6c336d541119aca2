//! Verified interface layer for the N64 homebrew SDK "libdragon".
//!
//! The SDK itself is native code reached over a C ABI; everything the
//! interface layer contributes on its own — the mapping between native
//! return codes and named result variants, the bit layout of controller
//! state words, tick and timer arithmetic, and address-space conversions —
//! lives here with proved contracts. The thin shims that actually cross
//! the C ABI live outside the library and hand plain values in and out.
#![allow(non_snake_case)]
#![allow(non_camel_case_types)]

pub mod COP0;
pub mod COP1;
pub mod Console;
pub mod Controller;
pub mod Directory;
pub mod Display;
pub mod DragonFS;
pub mod Exceptions;
pub mod Interrupt;
pub mod MemoryPak;
pub mod N64System;
pub mod RDP;
pub mod Timer;
pub mod TransferPak;
