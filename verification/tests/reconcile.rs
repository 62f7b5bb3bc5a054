use vcomp::effect::{Effect, Update};
use vcomp::scope::{ScopeEnv, ScopeSender};
use vcomp::target::RenderTarget;
use vcomp::virtual_dom::vcomp::VComp;
use vcomp::virtual_dom::vnode::VNode;

const COUNTER: u64 = 1;
const LABEL: u64 = 2;

fn env() -> ScopeEnv {
    ScopeEnv::new(7, ScopeSender { scope: 100 })
}

fn placeholder(component: u64, scope: u64, props: Vec<u8>) -> VComp {
    let (defaults, mut comp) = VComp::lazy(component, scope);
    assert!(defaults.is_empty());
    comp.set_props(props);
    comp
}

fn started(effects: &[Effect]) -> usize {
    effects.iter().filter(|effect| matches!(effect, Effect::Mount { .. })).count()
}

#[test]
fn lazy_prepares_without_starting() {
    let (defaults, comp) = VComp::lazy(COUNTER, 10);
    assert_eq!(defaults, Vec::<u8>::new());
    assert_eq!(comp.type_id(), COUNTER);
    assert_eq!(comp.node(), None);
    assert_eq!(comp.handle(), None);
    assert!(!comp.can_activate());
    assert!(comp.can_mount());
}

#[test]
fn fresh_placeholder_mounts_at_the_end() {
    let mut parent = RenderTarget::new();
    let first = parent.adopt();
    let mut comp = placeholder(COUNTER, 10, vec![1, 2]);
    assert!(comp.can_apply(&parent, &None));
    let node = comp.apply(&mut parent, None, None, env());
    assert_eq!(node, Some(1));
    assert_eq!(comp.node(), Some(1));
    assert_eq!(parent.children(), vec![first, 1]);
    assert_eq!(
        parent.take_journal(),
        vec![Effect::Mount { scope: 10, context: 7, root: 1, obsolete: None, props: vec![1, 2] }]
    );
    assert!(!comp.can_mount());
    assert!(!comp.can_activate());
    assert_eq!(comp.handle(), Some(10));
}

#[test]
fn same_component_keeps_the_running_instance() {
    let mut parent = RenderTarget::new();
    let mut old = placeholder(COUNTER, 10, vec![1]);
    let occupied = old.apply(&mut parent, None, None, env());
    parent.take_journal();

    let mut new = placeholder(COUNTER, 11, vec![2]);
    let opposite = Some(VNode::VComp(old));
    assert!(new.can_apply(&parent, &opposite));
    let node = new.apply(&mut parent, None, opposite, env());
    assert_eq!(node, occupied);
    assert_eq!(new.handle(), Some(10));
    assert!(new.can_mount());
    assert_eq!(parent.children(), vec![0]);
    let journal = parent.take_journal();
    assert_eq!(started(&journal), 0);
    assert_eq!(journal, vec![Effect::Send { scope: 10, update: Update::Properties(vec![2]) }]);
}

#[test]
fn same_component_with_equal_properties_sends_nothing() {
    let mut parent = RenderTarget::new();
    let mut first = placeholder(COUNTER, 10, vec![1]);
    first.apply(&mut parent, None, None, env());
    let mut second = placeholder(COUNTER, 11, vec![2]);
    second.apply(&mut parent, None, Some(VNode::VComp(first)), env());
    parent.take_journal();

    let mut third = placeholder(COUNTER, 12, vec![2]);
    let node = third.apply(&mut parent, None, Some(VNode::VComp(second)), env());
    assert_eq!(node, Some(0));
    assert_eq!(parent.take_journal(), Vec::<Effect>::new());

    let mut fourth = placeholder(COUNTER, 13, vec![3]);
    fourth.apply(&mut parent, None, Some(VNode::VComp(third)), env());
    assert_eq!(
        parent.take_journal(),
        vec![Effect::Send { scope: 10, update: Update::Properties(vec![3]) }]
    );
}

#[test]
fn first_properties_reach_a_kept_instance_that_never_ran() {
    let mut parent = RenderTarget::new();
    let never_applied = placeholder(COUNTER, 10, vec![1]);
    let mut new = placeholder(COUNTER, 11, vec![1]);
    let node = new.apply(&mut parent, None, Some(VNode::VComp(never_applied)), env());
    assert_eq!(node, None);
    assert_eq!(new.handle(), None);
    assert_eq!(parent.children(), Vec::<u64>::new());
    assert_eq!(
        parent.take_journal(),
        vec![Effect::Send { scope: 10, update: Update::Properties(vec![1]) }]
    );
    assert_eq!(new.remove(&mut parent), None);
    assert_eq!(parent.take_journal(), Vec::<Effect>::new());
}

#[test]
fn other_component_is_replaced_where_it_stood() {
    let mut parent = RenderTarget::new();
    let mut old = placeholder(COUNTER, 10, vec![1]);
    old.apply(&mut parent, None, None, env());
    let behind = parent.adopt();
    assert_eq!(parent.children(), vec![0, behind]);
    parent.take_journal();

    let mut new = placeholder(LABEL, 11, vec![9]);
    let opposite = Some(VNode::VComp(old));
    assert!(new.can_apply(&parent, &opposite));
    let node = new.apply(&mut parent, None, opposite, env());
    assert_eq!(node, Some(3));
    assert_eq!(parent.children(), vec![3, behind]);
    let journal = parent.take_journal();
    assert_eq!(started(&journal), 1);
    assert_eq!(
        journal,
        vec![
            Effect::Destroy { scope: 10 },
            Effect::RemoveChild { node: 0 },
            Effect::CreateText { node: 2 },
            Effect::InsertBefore { node: 2, reference: behind },
            Effect::Mount { scope: 11, context: 7, root: 3, obsolete: Some(2), props: vec![9] },
        ]
    );
    assert_eq!(new.handle(), Some(11));
    assert!(!new.can_mount());
}

#[test]
fn rendered_node_is_replaced_by_a_component() {
    let mut parent = RenderTarget::new();
    let plain = parent.adopt();
    let last = parent.adopt();
    let mut comp = placeholder(COUNTER, 10, vec![4]);
    let node = comp.apply(&mut parent, None, Some(VNode::VRef(plain)), env());
    assert_eq!(node, Some(3));
    assert_eq!(parent.children(), vec![3, last]);
    assert_eq!(
        parent.take_journal(),
        vec![
            Effect::RemoveChild { node: plain },
            Effect::CreateText { node: 2 },
            Effect::InsertBefore { node: 2, reference: last },
            Effect::Mount { scope: 10, context: 7, root: 3, obsolete: Some(2), props: vec![4] },
        ]
    );
}

#[test]
fn last_rendered_node_is_replaced_at_the_end() {
    let mut parent = RenderTarget::new();
    let first = parent.adopt();
    let plain = parent.adopt();
    let mut comp = placeholder(COUNTER, 10, vec![]);
    let node = comp.apply(&mut parent, None, Some(VNode::VRef(plain)), env());
    assert_eq!(node, Some(2));
    assert_eq!(parent.children(), vec![first, 2]);
    assert_eq!(
        parent.take_journal(),
        vec![
            Effect::RemoveChild { node: plain },
            Effect::Mount { scope: 10, context: 7, root: 2, obsolete: None, props: vec![] },
        ]
    );
}

#[test]
fn three_renders_of_one_place() {
    let mut parent = RenderTarget::new();

    let mut first = placeholder(COUNTER, 10, vec![1]);
    let node = first.apply(&mut parent, None, None, env());
    assert_eq!(node, Some(0));
    assert_eq!(parent.children(), vec![0]);
    assert_eq!(started(&parent.take_journal()), 1);
    let sibling = parent.adopt();

    let mut second = placeholder(COUNTER, 11, vec![2]);
    let kept = second.apply(&mut parent, None, Some(VNode::VComp(first)), env());
    assert_eq!(kept, node);
    assert_eq!(parent.children(), vec![0, sibling]);
    assert_eq!(
        parent.take_journal(),
        vec![Effect::Send { scope: 10, update: Update::Properties(vec![2]) }]
    );

    let mut third = placeholder(LABEL, 12, vec![3]);
    let fresh = third.apply(&mut parent, None, Some(VNode::VComp(second)), env());
    assert_ne!(fresh, node);
    assert_eq!(fresh, Some(3));
    assert_eq!(parent.children(), vec![3, sibling]);
    assert_eq!(parent.next_sibling(3), Some(sibling));
    let journal = parent.take_journal();
    assert_eq!(journal[0], Effect::Destroy { scope: 10 });
    assert_eq!(journal[1], Effect::RemoveChild { node: 0 });
    assert_eq!(started(&journal), 1);
    assert_eq!(
        journal[4],
        Effect::Mount { scope: 12, context: 7, root: 3, obsolete: Some(2), props: vec![3] }
    );
}

#[test]
fn removing_a_mounted_component_returns_its_sibling() {
    let mut parent = RenderTarget::new();
    let mut comp = placeholder(COUNTER, 10, vec![1]);
    comp.apply(&mut parent, None, None, env());
    let behind = parent.adopt();
    parent.take_journal();
    let sibling = comp.remove(&mut parent);
    assert_eq!(sibling, Some(behind));
    assert_eq!(parent.children(), vec![behind]);
    assert_eq!(
        parent.take_journal(),
        vec![Effect::Destroy { scope: 10 }, Effect::RemoveChild { node: 0 }]
    );
}

#[test]
fn removing_the_last_child_returns_no_sibling() {
    let mut parent = RenderTarget::new();
    let first = parent.adopt();
    let mut comp = placeholder(COUNTER, 10, vec![1]);
    comp.apply(&mut parent, None, None, env());
    let sibling = comp.remove(&mut parent);
    assert_eq!(sibling, None);
    assert_eq!(parent.children(), vec![first]);
}

#[test]
fn removing_before_the_start_asks_nothing() {
    let mut parent = RenderTarget::new();
    let only = parent.adopt();
    let comp = placeholder(COUNTER, 10, vec![1]);
    assert_eq!(comp.node(), None);
    assert_eq!(comp.handle(), None);
    let sibling = comp.remove(&mut parent);
    assert_eq!(sibling, None);
    assert_eq!(parent.children(), vec![only]);
    assert_eq!(parent.take_journal(), Vec::<Effect>::new());
}

#[test]
fn removing_without_properties_asks_nothing() {
    let mut parent = RenderTarget::new();
    let (_, comp) = VComp::lazy(COUNTER, 10);
    assert_eq!(comp.remove(&mut parent), None);
    assert_eq!(parent.children(), Vec::<u64>::new());
    assert_eq!(parent.take_journal(), Vec::<Effect>::new());
}

#[test]
fn a_scope_is_stopped_once_however_often_it_was_kept() {
    let mut parent = RenderTarget::new();
    let mut first = placeholder(COUNTER, 10, vec![1]);
    first.apply(&mut parent, None, None, env());
    let mut second = placeholder(COUNTER, 11, vec![2]);
    second.apply(&mut parent, None, Some(VNode::VComp(first)), env());
    let mut third = placeholder(COUNTER, 12, vec![3]);
    third.apply(&mut parent, None, Some(VNode::VComp(second)), env());
    parent.take_journal();
    assert_eq!(third.handle(), Some(10));
    assert_eq!(third.remove(&mut parent), None);
    assert_eq!(
        parent.take_journal(),
        vec![Effect::Destroy { scope: 10 }, Effect::RemoveChild { node: 0 }]
    );
    assert_eq!(parent.children(), Vec::<u64>::new());
}

#[test]
fn removing_a_rendered_node() {
    let mut parent = RenderTarget::new();
    let a = parent.adopt();
    let b = parent.adopt();
    let c = parent.adopt();
    let sibling = VNode::VRef(b).remove(&mut parent);
    assert_eq!(sibling, Some(c));
    assert_eq!(parent.children(), vec![a, c]);
    assert_eq!(parent.take_journal(), vec![Effect::RemoveChild { node: b }]);
}

#[test]
fn activation_takes_the_properties_once() {
    let mut comp = placeholder(COUNTER, 10, vec![8, 9]);
    assert!(comp.can_activate());
    let capsule = comp.activate_props(ScopeSender { scope: 100 });
    assert_eq!(capsule.tag(), COUNTER);
    assert_eq!(capsule.unpack(COUNTER), vec![8, 9]);
    assert!(!comp.can_activate());
    comp.set_props(vec![1]);
    assert!(comp.can_activate());
}

#[test]
fn apply_is_refused_without_properties_or_after_mounting() {
    let mut parent = RenderTarget::new();
    let (_, mut comp) = VComp::lazy(COUNTER, 10);
    assert!(!comp.can_apply(&parent, &None));
    comp.set_props(vec![1]);
    assert!(comp.can_apply(&parent, &None));
    comp.apply(&mut parent, None, None, env());
    assert!(!comp.can_apply(&parent, &None));
    comp.set_props(vec![2]);
    assert!(!comp.can_apply(&parent, &None));
}

#[test]
fn apply_is_refused_against_a_node_that_is_no_child() {
    let mut parent = RenderTarget::new();
    parent.adopt();
    let comp = placeholder(COUNTER, 10, vec![1]);
    assert!(!comp.can_apply(&parent, &Some(VNode::VRef(5))));
    assert!(comp.can_apply(&parent, &Some(VNode::VRef(0))));
}

#[test]
fn grabbing_takes_channel_cell_and_handle() {
    let mut parent = RenderTarget::new();
    let mut old = placeholder(COUNTER, 10, vec![1]);
    old.apply(&mut parent, None, None, env());
    let (_, mut new) = VComp::lazy(COUNTER, 11);
    new.grab_sender_of(old);
    assert_eq!(new.node(), Some(0));
    assert_eq!(new.handle(), Some(10));
    assert!(new.can_mount());
    new.set_props(vec![1]);
    let capsule = new.activate_props(ScopeSender { scope: 100 });
    assert_eq!(new.send_props(capsule), Some(Effect::Send { scope: 10, update: Update::Properties(vec![1]) }));
}

#[test]
fn placeholders_are_equal_by_component_type() {
    let a = placeholder(COUNTER, 10, vec![1]);
    let b = placeholder(COUNTER, 11, vec![2]);
    let c = placeholder(LABEL, 10, vec![1]);
    assert!(a == b);
    assert!(a != c);
}
