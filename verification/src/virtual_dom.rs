//! The virtual tree: placeholders for child components and references to
//! nodes that are rendered already.

pub mod lemmas;
pub mod vcomp;
pub mod vnode;
