//! Services that a component can use besides rendering.

pub mod storage;
