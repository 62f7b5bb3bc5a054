//! Reconciliation of virtual components against a render target.

pub mod effect;
pub mod props;
pub mod scope;
pub mod services;
pub mod target;
pub mod virtual_dom;
