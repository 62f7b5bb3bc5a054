//! What the reconciler asks of the outside: updates for running scopes and
//! changes of the render target, as plain values in the order of issue.

use vstd::prelude::*;

verus! {

/// An update for a running scope, as contracts see it.
pub enum UpdateView {
    /// The scope's properties changed to the given value.
    Properties(Seq<u8>),
    /// A message for the scope's component.
    Message(Seq<u8>),
}

/// An update for a running scope.
#[derive(PartialEq, Eq, Debug)]
pub enum Update {
    /// The scope's properties changed to the given value.
    Properties(Vec<u8>),
    /// A message for the scope's component.
    Message(Vec<u8>),
}

impl View for Update {
    type V = UpdateView;

    open spec fn view(&self) -> UpdateView {
        match *self {
            Update::Properties(payload) => UpdateView::Properties(payload@),
            Update::Message(payload) => UpdateView::Message(payload@),
        }
    }
}

/// One request to the outside, as contracts see it.
pub enum EffectView {
    /// Stop the scope.
    Destroy { scope: u64 },
    /// Put the update into the scope's channel.
    Send { scope: u64, update: UpdateView },
    /// Detach the node from the parent.
    RemoveChild { node: u64 },
    /// Create an empty text node and know it as `node`.
    CreateText { node: u64 },
    /// Put `node` into the parent, directly before `reference`.
    InsertBefore { node: u64, reference: u64 },
    /// Start the scope with the given properties in the given context, let it
    /// render in place of `obsolete`, or at the end of the parent where there
    /// is none, and know what it rendered as `root`.
    Mount { scope: u64, context: u64, root: u64, obsolete: Option<u64>, props: Seq<u8> },
}

/// One request to the outside.
#[derive(PartialEq, Eq, Debug)]
pub enum Effect {
    /// Stop the scope.
    Destroy { scope: u64 },
    /// Put the update into the scope's channel.
    Send { scope: u64, update: Update },
    /// Detach the node from the parent.
    RemoveChild { node: u64 },
    /// Create an empty text node and know it as `node`.
    CreateText { node: u64 },
    /// Put `node` into the parent, directly before `reference`.
    InsertBefore { node: u64, reference: u64 },
    /// Start the scope with the given properties in the given context, let it
    /// render in place of `obsolete`, or at the end of the parent where there
    /// is none, and know what it rendered as `root`.
    Mount { scope: u64, context: u64, root: u64, obsolete: Option<u64>, props: Vec<u8> },
}

impl View for Effect {
    type V = EffectView;

    open spec fn view(&self) -> EffectView {
        match *self {
            Effect::Destroy { scope } => EffectView::Destroy { scope },
            Effect::Send { scope, update } => EffectView::Send { scope, update: update@ },
            Effect::RemoveChild { node } => EffectView::RemoveChild { node },
            Effect::CreateText { node } => EffectView::CreateText { node },
            Effect::InsertBefore { node, reference } => EffectView::InsertBefore { node, reference },
            Effect::Mount { scope, context, root, obsolete, props } => EffectView::Mount {
                scope,
                context,
                root,
                obsolete,
                props: props@,
            },
        }
    }
}

/// The effects of a journal, each by its view.
pub open spec fn views(journal: Seq<Effect>) -> Seq<EffectView> {
    journal.map_values(|effect: Effect| effect@)
}

/// Recording one more effect adds its view at the end.
pub proof fn lemma_views_push(journal: Seq<Effect>, effect: Effect)
    ensures
        views(journal.push(effect)) == views(journal).push(effect@),
{
    assert(views(journal.push(effect)) =~= views(journal).push(effect@));
}

/// How many scopes the effects start.
pub open spec fn mounts(effects: Seq<EffectView>) -> nat
    decreases effects.len(),
{
    if effects.len() == 0 {
        0
    } else {
        mounts(effects.drop_last()) + if effects.last() is Mount {
            1nat
        } else {
            0nat
        }
    }
}

/// How many times the effects tell the scope `scope` to stop.
pub open spec fn stops(effects: Seq<EffectView>, scope: u64) -> nat
    decreases effects.len(),
{
    if effects.len() == 0 {
        0
    } else {
        stops(effects.drop_last(), scope) + if effects.last() == (EffectView::Destroy { scope }) {
            1nat
        } else {
            0nat
        }
    }
}

/// How many updates the effects put into channels.
pub open spec fn sends(effects: Seq<EffectView>) -> nat
    decreases effects.len(),
{
    if effects.len() == 0 {
        0
    } else {
        sends(effects.drop_last()) + if effects.last() is Send {
            1nat
        } else {
            0nat
        }
    }
}

/// One more effect adds one to the count of what it is, and nothing to the
/// other counts.
pub proof fn lemma_counts_push(effects: Seq<EffectView>, effect: EffectView, scope: u64)
    ensures
        stops(effects.push(effect), scope) == stops(effects, scope) + if effect
            == (EffectView::Destroy { scope }) {
            1nat
        } else {
            0nat
        },
        sends(effects.push(effect)) == sends(effects) + if effect is Send {
            1nat
        } else {
            0nat
        },
{
    assert(effects.push(effect).drop_last() =~= effects);
}

/// One more effect starts one more scope if it is a mount, and none if not.
pub proof fn lemma_mounts_push(effects: Seq<EffectView>, effect: EffectView)
    ensures
        mounts(effects.push(effect)) == mounts(effects) + if effect is Mount {
            1nat
        } else {
            0nat
        },
{
    assert(effects.push(effect).drop_last() =~= effects);
}

} // verus!
