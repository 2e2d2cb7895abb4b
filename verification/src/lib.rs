//! Verified core of a TDX shim and payload: page arithmetic, the memory-acceptance plan,
//! RTMR measurement, the TDCALL/TDVMCALL interface and the payload's heap layout.
use vstd::prelude::*;

pub mod ipl;
pub mod mp;
pub mod payload;
pub mod tcg;
pub mod tdx;
