//! The nodes of a virtual tree that a placeholder can meet in its place, and
//! what the reconciler decides to do about the node it met.

use vstd::prelude::*;
use crate::target::{lemma_sibling_survives, RenderTarget, TargetView};
use crate::virtual_dom::vcomp::{VComp, VCompView};

verus! {

/// What happens to the node of the previous render.
#[derive(Clone, Copy, PartialEq, Eq, Structural, Debug)]
pub enum Reform {
    /// It stays, and the running instance behind it is used again.
    Keep,
    /// It is gone, and the new node goes before the given node, or to the
    /// end where none is given.
    Before(Option<u64>),
}

/// A node of a virtual tree, as contracts see it.
pub enum NodeView {
    /// A placeholder for a child component.
    VComp(VCompView),
    /// A node that is rendered already.
    VRef(u64),
}

impl NodeView {
    /// Whether what the node occupies under the parent element is a child
    /// of it.
    pub open spec fn attached_to(self, target: TargetView) -> bool {
        match self {
            NodeView::VComp(vcomp) => vcomp.attached_to(target),
            NodeView::VRef(node) => target.children.contains(node),
        }
    }

    /// Whether `child` is what the node occupies under the parent element.
    pub open spec fn occupies(self, child: u64) -> bool {
        match self {
            NodeView::VComp(vcomp) => vcomp.cell == Some(child),
            NodeView::VRef(node) => node == child,
        }
    }

    /// The target after the node was removed from it, and the child that
    /// followed what the node occupied.
    pub open spec fn removed(self, target: TargetView) -> (TargetView, Option<u64>) {
        match self {
            NodeView::VComp(vcomp) => vcomp.removed(target),
            NodeView::VRef(node) => (target.remove_child(node), target.sibling_after(node)),
        }
    }
}

/// A node of a virtual tree.
#[derive(Debug)]
pub enum VNode {
    /// A placeholder for a child component.
    VComp(VComp),
    /// A node that is rendered already.
    VRef(u64),
}

impl View for VNode {
    type V = NodeView;

    open spec fn view(&self) -> NodeView {
        match *self {
            VNode::VComp(vcomp) => NodeView::VComp(vcomp@),
            VNode::VRef(node) => NodeView::VRef(node),
        }
    }
}

/// The node that stood in a place after the previous render, if one did, as
/// contracts see it.
pub open spec fn seen(opposite: Option<VNode>) -> Option<NodeView> {
    match opposite {
        Some(node) => Some(node@),
        None => None,
    }
}

impl VNode {
    /// Removes the node from the parent element and returns the child that
    /// followed what it occupied.
    pub fn remove(self, parent: &mut RenderTarget) -> (sibling: Option<u64>)
        requires
            old(parent)@.well_formed(),
            self@.attached_to(old(parent)@),
        ensures
            (final(parent)@, sibling) == self@.removed(old(parent)@),
            final(parent)@.well_formed(),
            sibling matches Some(next) ==> final(parent)@.children.contains(next),
    {
        match self {
            VNode::VComp(vcomp) => vcomp.remove(parent),
            VNode::VRef(node) => {
                proof {
                    lemma_sibling_survives(parent@, node);
                }
                let sibling = parent.next_sibling(node);
                parent.remove_child(node);
                sibling
            },
        }
    }
}

} // verus!
