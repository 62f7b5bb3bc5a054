//! What holds of every reconciliation, whatever the placeholders, the render
//! target and the properties are.

use vstd::prelude::*;
use crate::effect::{lemma_counts_push, lemma_mounts_push, mounts, sends, stops, EffectView, UpdateView};
use crate::props::{unpacked, Capsule};
use crate::scope::{ScopeEnv, ScopeSender};
use crate::target::{
    lemma_insert_before_well_formed, lemma_mount_well_formed, lemma_remove_child_well_formed,
    lemma_sibling_survives, TargetView,
};
use crate::virtual_dom::vcomp::{SenderView, VCompView};
use crate::virtual_dom::vnode::{NodeView, Reform};

verus! {

/// A placeholder applied against a placeholder for the same component type
/// uses the running instance again: the deferred constructor does not run and
/// no scope is started or stopped, the children of the parent element stay as
/// they are, and the placeholder has the anchor cell and the handle of the
/// other.
pub proof fn lemma_same_component_is_kept(
    this: VCompView,
    target: TargetView,
    other: VCompView,
    env: ScopeEnv,
    scope: u64,
)
    requires
        this.same_component(other),
    ensures
        this.reform(target, Some(NodeView::VComp(other))) == Reform::Keep,
        this.applied(target, Some(NodeView::VComp(other)), env).0.generator == this.generator,
        mounts(this.applied(target, Some(NodeView::VComp(other)), env).1.journal) == mounts(
            target.journal,
        ),
        stops(this.applied(target, Some(NodeView::VComp(other)), env).1.journal, scope) == stops(
            target.journal,
            scope,
        ),
        this.applied(target, Some(NodeView::VComp(other)), env).1.children == target.children,
        this.applied(target, Some(NodeView::VComp(other)), env).1.next == target.next,
        this.applied(target, Some(NodeView::VComp(other)), env).0.cell == other.cell,
        this.applied(target, Some(NodeView::VComp(other)), env).0.handle == other.handle,
{
    let payload = this.props->0.payload;
    match other.blind_sender.sent(payload) {
        Some(effect) => {
            lemma_mounts_push(target.journal, effect);
            lemma_counts_push(target.journal, effect, scope);
        },
        None => {},
    }
}

/// Removing a node of a virtual tree starts no scope, sends nothing and
/// gives out no node id. A placeholder's scope is told to stop exactly once,
/// where the placeholder holds its handle; no other scope is told to stop.
pub proof fn lemma_removal_stops_once(node: NodeView, target: TargetView, scope: u64)
    ensures
        node.removed(target).0.next == target.next,
        mounts(node.removed(target).0.journal) == mounts(target.journal),
        sends(node.removed(target).0.journal) == sends(target.journal),
        stops(node.removed(target).0.journal, scope) == stops(target.journal, scope) + if node
            matches NodeView::VComp(vcomp) && vcomp.handle == Some(scope) {
            1nat
        } else {
            0nat
        },
{
    match node {
        NodeView::VComp(vcomp) => {
            match vcomp.handle {
                Some(stopped_scope) => {
                    let stop = EffectView::Destroy { scope: stopped_scope };
                    lemma_mounts_push(target.journal, stop);
                    lemma_counts_push(target.journal, stop, scope);
                },
                None => {},
            }
            let stopped = vcomp.stopped(target);
            match vcomp.cell {
                Some(occupied) => {
                    let detach = EffectView::RemoveChild { node: occupied };
                    lemma_mounts_push(stopped.journal, detach);
                    lemma_counts_push(stopped.journal, detach, scope);
                },
                None => {},
            }
        },
        NodeView::VRef(occupied) => {
            let detach = EffectView::RemoveChild { node: occupied };
            lemma_mounts_push(target.journal, detach);
            lemma_counts_push(target.journal, detach, scope);
        },
    }
}

/// Removing a node of a virtual tree that is attached to the parent element
/// leaves no trace of what the node occupied among the children, keeps every
/// other child, and keeps the target well formed; the sibling that it gives
/// is a child afterwards.
pub proof fn lemma_removed(node: NodeView, target: TargetView)
    requires
        target.well_formed(),
        node.attached_to(target),
    ensures
        node.removed(target).0.well_formed(),
        node.removed(target).1 matches Some(sibling) ==> node.removed(target).0.children.contains(
            sibling,
        ),
        forall|child: u64|
            node.removed(target).0.children.contains(child) == (target.children.contains(child)
                && !node.occupies(child)),
{
    match node {
        NodeView::VComp(vcomp) => {
            let stopped = vcomp.stopped(target);
            match vcomp.cell {
                Some(occupied) => {
                    lemma_remove_child_well_formed(stopped, occupied);
                    lemma_sibling_survives(stopped, occupied);
                },
                None => {},
            }
        },
        NodeView::VRef(occupied) => {
            lemma_remove_child_well_formed(target, occupied);
            lemma_sibling_survives(target, occupied);
        },
    }
}

/// A placeholder applied against nothing, or against any node but a
/// placeholder for the same component type, starts exactly one scope: its
/// own, with the properties that waited, as the last thing it asks for. The
/// deferred constructor has run. The scope of a replaced placeholder is told
/// to stop exactly once, where that placeholder holds its handle. Nothing is
/// forwarded, and nothing of the removed node is taken over: channel and
/// handle are the placeholder's own, and the anchor cell holds what the new
/// scope rendered.
pub proof fn lemma_other_component_starts_one_scope(
    this: VCompView,
    target: TargetView,
    opposite: Option<NodeView>,
    env: ScopeEnv,
    stopped: u64,
)
    requires
        !this.keeps(opposite),
    ensures
        this.reform(target, opposite) is Before,
        mounts(this.applied(target, opposite, env).1.journal) == mounts(target.journal) + 1,
        sends(this.applied(target, opposite, env).1.journal) == sends(target.journal),
        stops(this.applied(target, opposite, env).1.journal, stopped) == stops(
            target.journal,
            stopped,
        ) + if opposite matches Some(NodeView::VComp(other)) && other.handle == Some(stopped) {
            1nat
        } else {
            0nat
        },
        this.applied(target, opposite, env).1.journal.last() == (EffectView::Mount {
            scope: this.generator.builder->0.scope,
            context: env.context,
            root: this.applied(target, opposite, env).0.cell->0,
            obsolete: match this.reform(target, opposite)->Before_0 {
                Some(sibling) => Some(target.next),
                None => None,
            },
            props: this.props->0.payload,
        }),
        this.applied(target, opposite, env).0.cell is Some,
        this.applied(target, opposite, env).0.generator.builder is None,
        this.applied(target, opposite, env).0.blind_sender == this.blind_sender,
        this.applied(target, opposite, env).0.handle == Some(this.generator.builder->0.scope),
{
    let payload = this.props->0.payload;
    let scope = this.generator.builder->0.scope;
    let (cleared, sibling) = match opposite {
        Some(node) => node.removed(target),
        None => (target, None),
    };
    match opposite {
        Some(node) => {
            lemma_removal_stops_once(node, target, stopped);
        },
        None => {},
    }
    match sibling {
        Some(reference) => {
            let create = EffectView::CreateText { node: cleared.next };
            let created = cleared.create_text_node();
            lemma_mounts_push(cleared.journal, create);
            lemma_counts_push(cleared.journal, create, stopped);
            let insert = EffectView::InsertBefore { node: cleared.next, reference };
            let ready = created.insert_before(cleared.next, reference);
            lemma_mounts_push(created.journal, insert);
            lemma_counts_push(created.journal, insert, stopped);
            let mount = EffectView::Mount {
                scope,
                context: env.context,
                root: ready.next,
                obsolete: Some(cleared.next),
                props: payload,
            };
            lemma_mounts_push(ready.journal, mount);
            lemma_counts_push(ready.journal, mount, stopped);
        },
        None => {
            let mount = EffectView::Mount {
                scope,
                context: env.context,
                root: cleared.next,
                obsolete: None,
                props: payload,
            };
            lemma_mounts_push(cleared.journal, mount);
            lemma_counts_push(cleared.journal, mount, stopped);
        },
    }
}

/// Where a placeholder can be applied and starts a new instance, what the
/// removed node occupied is no child of the parent element any more, every
/// other child still is, and what the new scope rendered is a new child.
/// Placeholder and target stay well formed.
pub proof fn lemma_other_component_is_replaced(
    this: VCompView,
    target: TargetView,
    opposite: Option<NodeView>,
    env: ScopeEnv,
)
    requires
        !this.keeps(opposite),
        this.can_apply(target, opposite),
    ensures
        this.applied(target, opposite, env).0.cell matches Some(root) && root >= target.next
            && this.applied(target, opposite, env).1.children.contains(root),
        this.applied(target, opposite, env).1.well_formed(),
        this.applied(target, opposite, env).0.well_formed(),
        forall|child: u64|
            opposite matches Some(node) && node.occupies(child) ==> !this.applied(
                target,
                opposite,
                env,
            ).1.children.contains(child),
        forall|child: u64|
            target.children.contains(child) && !(opposite matches Some(node) && node.occupies(child))
                ==> this.applied(target, opposite, env).1.children.contains(child),
{
    let payload = this.props->0.payload;
    let scope = this.generator.builder->0.scope;
    let (cleared, sibling) = match opposite {
        Some(node) => node.removed(target),
        None => (target, None),
    };
    match opposite {
        Some(node) => {
            lemma_removed(node, target);
            lemma_removal_stops_once(node, target, 0);
        },
        None => {},
    }
    let done = this.applied(target, opposite, env).1;
    match sibling {
        Some(reference) => {
            let created = cleared.create_text_node();
            assert(created.well_formed());
            assert(!created.children.contains(cleared.next)) by {
                if created.children.contains(cleared.next) {
                    let i = choose|i: int| 0 <= i < created.children.len() && created.children[i] == cleared.next;
                    assert(created.children[i] < cleared.next);
                }
            }
            lemma_insert_before_well_formed(created, cleared.next, reference);
            let ready = created.insert_before(cleared.next, reference);
            lemma_mount_well_formed(ready, scope, env.context, Some(cleared.next), payload);
            assert(done == ready.mount(scope, env.context, Some(cleared.next), payload));
            assert forall|child: u64| target.children.contains(child) && !(opposite matches Some(
                node,
            ) && node.occupies(child)) implies done.children.contains(child) by {
                assert(cleared.children.contains(child));
                assert(child != cleared.next) by {
                    let i = choose|i: int| 0 <= i < cleared.children.len() && cleared.children[i] == child;
                    assert(cleared.children[i] < cleared.next);
                }
                assert(ready.children.contains(child));
            }
            assert forall|child: u64| opposite matches Some(node) && node.occupies(child) implies !done.children.contains(child) by {
                assert(target.children.contains(child));
                let i = choose|i: int| 0 <= i < target.children.len() && target.children[i] == child;
                assert(target.children[i] < target.next);
                assert(!cleared.children.contains(child));
            }
        },
        None => {
            lemma_mount_well_formed(cleared, scope, env.context, None, payload);
            assert(done == cleared.mount(scope, env.context, None, payload));
            assert forall|child: u64| opposite matches Some(node) && node.occupies(child) implies !done.children.contains(child) by {
                assert(target.children.contains(child));
                let i = choose|i: int| 0 <= i < target.children.len() && target.children[i] == child;
                assert(target.children[i] < target.next);
            }
        },
    }
}

/// A placeholder applied against nothing starts its scope behind the last
/// child: one mount without an obsolete node and with the properties that
/// waited is all that is asked; no text node is created and no child is
/// removed; the node that the scope rendered is the result.
pub proof fn lemma_first_render_mounts_at_the_end(
    this: VCompView,
    target: TargetView,
    env: ScopeEnv,
)
    ensures
        this.applied(target, None, env).1.children == target.children.push(target.next),
        this.applied(target, None, env).1.journal == target.journal.push(
            EffectView::Mount {
                scope: this.generator.builder->0.scope,
                context: env.context,
                root: target.next,
                obsolete: None,
                props: this.props->0.payload,
            },
        ),
        this.applied(target, None, env).0.cell == Some(target.next),
        this.applied(target, None, env).0.handle == Some(this.generator.builder->0.scope),
        this.applied(target, None, env).0.generator.builder is None,
{
}

/// Where the node of the previous render occupied a child of the parent
/// element and is replaced, what the new scope rendered stands exactly where
/// that child stood, and every other child stands where it stood. All that is
/// asked, in this order: the scope of a replaced placeholder is told to stop,
/// where that placeholder holds its handle; the child is detached; where a
/// child followed it, an empty text node is created and put before that one;
/// the new scope is started, in place of the text node or behind the last
/// child.
pub proof fn lemma_replacement_stands_where_the_node_stood(
    this: VCompView,
    target: TargetView,
    opposite: NodeView,
    occupied: u64,
    env: ScopeEnv,
)
    requires
        !this.keeps(Some(opposite)),
        target.well_formed(),
        opposite.occupies(occupied),
        target.children.contains(occupied),
    ensures
        this.applied(target, Some(opposite), env).1.children == target.children.update(
            target.children.index_of(occupied),
            this.applied(target, Some(opposite), env).0.cell->0,
        ),
        this.applied(target, Some(opposite), env).1.journal == (match opposite {
            NodeView::VComp(other) => other.stopped(target).journal,
            NodeView::VRef(_) => target.journal,
        }).push(EffectView::RemoveChild { node: occupied }) + (match target.sibling_after(occupied) {
            Some(sibling) => seq![
                EffectView::CreateText { node: target.next },
                EffectView::InsertBefore { node: target.next, reference: sibling },
            ],
            None => Seq::empty(),
        }).push(
            EffectView::Mount {
                scope: this.generator.builder->0.scope,
                context: env.context,
                root: this.applied(target, Some(opposite), env).0.cell->0,
                obsolete: match target.sibling_after(occupied) {
                    Some(sibling) => Some(target.next),
                    None => None,
                },
                props: this.props->0.payload,
            },
        ),
{
    let payload = this.props->0.payload;
    let scope = this.generator.builder->0.scope;
    let before = match opposite {
        NodeView::VComp(other) => other.stopped(target),
        NodeView::VRef(_) => target,
    };
    assert(before.children == target.children);
    let at = target.children.index_of(occupied);
    let (cleared, sibling) = opposite.removed(target);
    assert(cleared == before.remove_child(occupied));
    assert(sibling == target.sibling_after(occupied));
    lemma_remove_child_well_formed(before, occupied);
    target.children.remove_ensures(at);
    let done = this.applied(target, Some(opposite), env).1;
    let root = this.applied(target, Some(opposite), env).0.cell->0;
    match sibling {
        Some(reference) => {
            let text = cleared.next;
            let created = cleared.create_text_node();
            assert(cleared.children[at] == reference);
            assert(cleared.children.index_of(reference) == at);
            assert(!created.children.contains(text)) by {
                if created.children.contains(text) {
                    let i = choose|i: int| 0 <= i < created.children.len() && created.children[i] == text;
                    assert(created.children[i] < text);
                }
            }
            let ready = created.insert_before(text, reference);
            created.children.insert_ensures(at, text);
            assert(ready.children[at] == text);
            assert(ready.children.index_of(text) == at) by {
                let found = ready.children.index_of(text);
                if found < at {
                    assert(ready.children[found] == cleared.children[found]);
                    assert(cleared.children[found] < text);
                } else if found > at {
                    assert(ready.children[(found - 1) + 1] == cleared.children[found - 1]);
                    assert(cleared.children[found - 1] < text);
                }
            }
            assert(done == ready.mount(scope, env.context, Some(text), payload));
            assert(done.children =~= target.children.update(at, root)) by {
                assert forall|i: int| 0 <= i < done.children.len() implies done.children[i]
                    == target.children.update(at, root)[i] by {
                    if i < at {
                        assert(ready.children[i] == cleared.children[i]);
                    } else if i > at {
                        assert(ready.children[(i - 1) + 1] == cleared.children[i - 1]);
                        assert(cleared.children[i - 1] == target.children[i]);
                    }
                }
            }
            assert(done.journal =~= before.journal.push(EffectView::RemoveChild { node: occupied })
                + seq![
                EffectView::CreateText { node: target.next },
                EffectView::InsertBefore { node: target.next, reference },
            ].push(
                EffectView::Mount {
                    scope,
                    context: env.context,
                    root,
                    obsolete: Some(target.next),
                    props: payload,
                },
            ));
        },
        None => {
            assert(done == cleared.mount(scope, env.context, None, payload));
            assert(at == target.children.len() - 1);
            assert(done.children =~= target.children.update(at, root));
            assert(done.journal =~= before.journal.push(EffectView::RemoveChild { node: occupied })
                + Seq::<EffectView>::empty().push(
                EffectView::Mount {
                    scope,
                    context: env.context,
                    root,
                    obsolete: None,
                    props: payload,
                },
            ));
        },
    }
}

/// The first forwarding through a channel tells the scope of the properties,
/// whatever they are; the channel of a placeholder that was just made is such
/// a channel.
pub proof fn lemma_first_forward_sends(
    channel: SenderView,
    child: u64,
    scope: u64,
    payload: Seq<u8>,
)
    ensures
        channel.previous is None ==> channel.sent(payload) == Some(
            EffectView::Send { scope: channel.scope, update: UpdateView::Properties(payload) },
        ),
        VCompView::lazy(child, scope).blind_sender.sent(payload) == Some(
            EffectView::Send { scope, update: UpdateView::Properties(payload) },
        ),
{
}

/// Forwarding the properties that were forwarded last tells the scope
/// nothing; forwarding other properties after them tells it of those.
pub proof fn lemma_forward_sends_changes_only(channel: SenderView, first: Seq<u8>, next: Seq<u8>)
    ensures
        channel.forwarded(first).sent(first) is None,
        channel.forwarded(first).forwarded(first) == channel.forwarded(first),
        next != first ==> channel.forwarded(first).sent(next) == Some(
            EffectView::Send { scope: channel.scope, update: UpdateView::Properties(next) },
        ),
{
}

/// Removing a placeholder whose anchor cell is empty gives no sibling and
/// leaves the children of the parent element as they are; its scope is told
/// to stop all the same, where the placeholder holds a handle.
pub proof fn lemma_remove_without_node(this: VCompView, target: TargetView)
    requires
        this.cell is None,
    ensures
        this.removed(target).1 is None,
        this.removed(target).0.children == target.children,
        this.removed(target).0.next == target.next,
        this.removed(target).0.journal == match this.handle {
            Some(scope) => target.journal.push(EffectView::Destroy { scope }),
            None => target.journal,
        },
{
}

/// A placeholder whose component was never started, with or without
/// properties attached, has nothing to stop and occupies nothing: removing
/// it leaves the target as it is and gives no sibling.
pub proof fn lemma_remove_before_start(
    child: u64,
    scope: u64,
    payload: Seq<u8>,
    target: TargetView,
)
    ensures
        VCompView::lazy(child, scope).handle is None,
        VCompView::lazy(child, scope).cell is None,
        VCompView::lazy(child, scope).removed(target) == (target, None::<u64>),
        VCompView::lazy(child, scope).set_props(payload).removed(target) == (target, None::<u64>),
{
}

/// Activation takes the properties, so that a placeholder cannot be
/// activated a second time unless properties are attached to it again.
pub proof fn lemma_activation_takes_props(this: VCompView, sender: ScopeSender)
    ensures
        !this.activated(sender).can_activate(),
        forall|slot: int|
            0 <= slot < this.activators.len() ==> this.activated(sender).activators[slot] == Some(
                sender,
            ),
{
}

/// Applying a placeholder takes its properties, whichever way it goes, so
/// that the placeholder cannot be applied a second time, against whatever
/// node and target, unless properties are attached to it again.
pub proof fn lemma_apply_takes_props(
    this: VCompView,
    target: TargetView,
    opposite: Option<NodeView>,
    env: ScopeEnv,
    later_target: TargetView,
    later_opposite: Option<NodeView>,
)
    ensures
        !this.applied(target, opposite, env).0.can_activate(),
        !this.applied(target, opposite, env).0.can_apply(later_target, later_opposite),
        !this.can_activate() ==> !this.can_apply(target, opposite),
{
}

/// Properties that are attached to a well-formed placeholder fit its
/// constructor and its channel, and reach the scope as they were attached: a
/// started scope gets them as its first properties, and a kept one has them
/// as its new baseline. A capsule for another component type fits neither.
pub proof fn lemma_attached_props_reach_the_scope(
    this: VCompView,
    payload: Seq<u8>,
    target: TargetView,
    sibling: Option<u64>,
    other: VCompView,
    env: ScopeEnv,
    tag: u64,
)
    requires
        this.well_formed(),
    ensures
        this.set_props(payload).well_formed(),
        unpacked(this.set_props(payload).props->0, this.generator.child) == Some(payload),
        unpacked(this.set_props(payload).props->0, this.blind_sender.child) == Some(payload),
        this.set_props(payload).mounted(target, sibling, env).1.journal.last()->Mount_props
            == payload,
        this.set_props(payload).mounted(target, sibling, env).0.props is None,
        this.set_props(payload).kept(target, other, env).0.blind_sender.previous == Some(payload),
        this.set_props(payload).kept(target, other, env).0.props is None,
        tag != this.type_id ==> unpacked(Capsule { tag, payload }, this.generator.child) is None
            && unpacked(Capsule { tag, payload }, this.blind_sender.child) is None,
{
}

} // verus!
