//! The virtual component: a node of a virtual tree that stands for a child
//! component, and its reconciliation against the node that stood in its place
//! after the previous render.

use vstd::prelude::*;
use std::marker::PhantomData;
use crate::effect::{Effect, EffectView, Update, UpdateView};
use crate::props::{bytes_equal, unpacked, AnyProps, Capsule};
use crate::scope::{BuilderView, ScopeBuilder, ScopeEnv, ScopeHandle, ScopeSender};
use crate::target::{lemma_sibling_survives, RenderTarget, TargetView};
use crate::virtual_dom::vnode::{seen, NodeView, Reform, VNode};

verus! {

/// The forwarding channel of a placeholder, as contracts see it.
pub struct SenderView {
    /// The tag of the component type whose properties the channel takes.
    pub child: u64,
    /// The scope that the channel leads to.
    pub scope: u64,
    /// The properties forwarded last, if any were.
    pub previous: Option<Seq<u8>>,
}

impl SenderView {
    /// Whether forwarding `payload` tells the scope anything new. Before the
    /// first forwarding every value is new.
    pub open spec fn changes(self, payload: Seq<u8>) -> bool {
        self.previous != Some(payload)
    }

    /// What forwarding `payload` asks of the outside.
    pub open spec fn sent(self, payload: Seq<u8>) -> Option<EffectView> {
        if self.changes(payload) {
            Some(EffectView::Send { scope: self.scope, update: UpdateView::Properties(payload) })
        } else {
            None
        }
    }

    /// The channel after `payload` was forwarded.
    pub open spec fn forwarded(self, payload: Seq<u8>) -> SenderView {
        SenderView { previous: Some(payload), ..self }
    }
}

/// The forwarding channel of a placeholder: it hands properties on to the
/// child's scope, and only those that differ from the ones handed on last.
#[derive(Debug)]
pub struct BlindSender {
    child: u64,
    sender: ScopeSender,
    previous: Option<Vec<u8>>,
}

impl View for BlindSender {
    type V = SenderView;

    closed spec fn view(&self) -> SenderView {
        SenderView {
            child: self.child,
            scope: self.sender.scope,
            previous: match self.previous {
                Some(payload) => Some(payload@),
                None => None,
            },
        }
    }
}

impl BlindSender {
    /// A channel to `sender` for properties of the component type `child`,
    /// through which nothing was forwarded yet.
    pub fn new(child: u64, sender: ScopeSender) -> (channel: BlindSender)
        ensures
            channel@ == (SenderView { child, scope: sender.scope, previous: None }),
    {
        BlindSender { child, sender, previous: None }
    }

    /// Unpacks the capsule and, where its value differs from the one
    /// forwarded last, returns the request to tell the scope of it. The value
    /// is the new baseline either way.
    pub fn forward(&mut self, capsule: AnyProps) -> (sent: Option<Effect>)
        requires
            unpacked(capsule@, old(self)@.child) is Some,
        ensures
            final(self)@ == old(self)@.forwarded(capsule@.payload),
            match sent {
                Some(effect) => Some(effect@) == old(self)@.sent(capsule@.payload),
                None => old(self)@.sent(capsule@.payload) is None,
            },
    {
        let props = capsule.unpack(self.child);
        let changed = match &self.previous {
            Some(previous) => !bytes_equal(previous, &props),
            None => true,
        };
        if changed {
            let copy = props.clone();
            self.previous = Some(props);
            Some(self.sender.send(Update::Properties(copy)))
        } else {
            None
        }
    }
}

/// The deferred constructor of a placeholder, as contracts see it.
pub struct GeneratorView {
    /// The tag of the component type that the constructor starts.
    pub child: u64,
    /// The prepared scope, as long as the constructor has not run.
    pub builder: Option<BuilderView>,
}

/// The deferred constructor of a placeholder. It is pending as long as it
/// holds the prepared scope, and spent once it has started it.
#[derive(Debug)]
pub struct Generator {
    child: u64,
    builder: Option<ScopeBuilder>,
}

impl View for Generator {
    type V = GeneratorView;

    closed spec fn view(&self) -> GeneratorView {
        GeneratorView {
            child: self.child,
            builder: match self.builder {
                Some(builder) => Some(builder@),
                None => None,
            },
        }
    }
}

impl Generator {
    /// The pending constructor of the prepared scope.
    pub fn new(child: u64, builder: ScopeBuilder) -> (generator: Generator)
        ensures
            generator@ == (GeneratorView { child, builder: Some(builder@) }),
    {
        Generator { child, builder: Some(builder) }
    }

    /// Whether the constructor has not run yet.
    pub fn is_pending(&self) -> (pending: bool)
        ensures
            pending == (self@.builder is Some),
    {
        self.builder.is_some()
    }

    /// Starts the prepared scope with the properties in the capsule and lets
    /// it render under `parent`, in place of the child `obsolete` or, where
    /// there is none, behind the last child. Returns the node that the scope
    /// rendered and the handle that stops the scope: there is a handle from
    /// the moment the scope runs, not before. The constructor runs once: a
    /// spent one is excluded.
    pub fn generate(
        &mut self,
        context: u64,
        parent: &mut RenderTarget,
        obsolete: Option<u64>,
        capsule: AnyProps,
    ) -> (started: (u64, ScopeHandle))
        requires
            unpacked(capsule@, old(self)@.child) is Some,
            old(self)@.builder is Some,
            old(parent)@.well_formed(),
            old(parent)@.has_room(1),
            obsolete matches Some(node) ==> old(parent)@.children.contains(node),
        ensures
            final(self)@ == (GeneratorView { builder: None, ..old(self)@ }),
            started.0 == old(parent)@.next,
            started.1@ == old(self)@.builder->0.scope,
            final(parent)@ == old(parent)@.mount(
                old(self)@.builder->0.scope,
                context,
                obsolete,
                capsule@.payload,
            ),
            final(parent)@.well_formed(),
    {
        let props = capsule.unpack(self.child);
        let builder = self.builder.take().unwrap();
        let handle = builder.handle();
        let root = builder.build(context).mount_in_place(parent, obsolete, props);
        (root, handle)
    }
}

/// A placeholder, as contracts see it.
pub struct VCompView {
    /// The tag of the component type that the placeholder stands for.
    pub type_id: u64,
    /// The anchor cell: the node that the component occupies, if it rendered.
    pub cell: Option<u64>,
    /// The properties that wait for the child, until they are activated.
    pub props: Option<Capsule>,
    /// The forwarding channel.
    pub blind_sender: SenderView,
    /// The deferred constructor.
    pub generator: GeneratorView,
    /// The channel slots of the callbacks that were made for the properties,
    /// each empty until activation.
    pub activators: Seq<Option<ScopeSender>>,
    /// The scope that the placeholder can stop, if any.
    pub handle: Option<u64>,
}

impl VCompView {
    /// The placeholder that is made for the component type `child` with the
    /// prepared scope `scope`. Nothing runs yet, so there is nothing to stop:
    /// the placeholder holds no handle.
    pub open spec fn lazy(child: u64, scope: u64) -> VCompView {
        VCompView {
            type_id: child,
            cell: None,
            props: None,
            blind_sender: SenderView { child, scope, previous: None },
            generator: GeneratorView {
                child,
                builder: Some(BuilderView { scope, component: child }),
            },
            activators: Seq::empty(),
            handle: None,
        }
    }

    /// Channel, constructor and waiting properties are all for the
    /// placeholder's own component type.
    pub open spec fn well_formed(self) -> bool {
        &&& self.blind_sender.child == self.type_id
        &&& self.generator.child == self.type_id
        &&& self.generator.builder matches Some(builder) ==> builder.component == self.type_id
        &&& self.props matches Some(capsule) ==> capsule.tag == self.type_id
    }

    /// The placeholder with `payload` attached as its properties.
    pub open spec fn set_props(self, payload: Seq<u8>) -> VCompView {
        VCompView { props: Some(Capsule { tag: self.type_id, payload }), ..self }
    }

    /// Whether the properties can be activated: they wait and were not taken.
    pub open spec fn can_activate(self) -> bool {
        self.props is Some
    }

    /// The placeholder after activation: every callback slot holds `sender`
    /// and the properties are taken.
    pub open spec fn activated(self, sender: ScopeSender) -> VCompView {
        VCompView {
            props: None,
            activators: Seq::new(self.activators.len(), |i: int| Some(sender)),
            ..self
        }
    }

    /// The placeholder after it took over what `other` had of the running
    /// instance: channel, anchor cell and handle.
    pub open spec fn grab_sender_of(self, other: VCompView) -> VCompView {
        VCompView {
            blind_sender: other.blind_sender,
            cell: other.cell,
            handle: other.handle,
            ..self
        }
    }

    /// The placeholder with one more callback slot, which is empty.
    pub open spec fn with_slot(self) -> VCompView {
        VCompView { activators: self.activators.push(None), ..self }
    }

    /// Whether the callback slot `slot` exists and holds a channel.
    pub open spec fn is_active(self, slot: nat) -> bool {
        slot < self.activators.len() && self.activators[slot as int] is Some
    }

    /// Whether the two placeholders stand for the same component type.
    pub open spec fn same_component(self, other: VCompView) -> bool {
        self.type_id == other.type_id
    }

    /// Whether the node in the anchor cell, if there is one, is a child of
    /// the parent element.
    pub open spec fn attached_to(self, target: TargetView) -> bool {
        self.cell matches Some(node) ==> target.children.contains(node)
    }

    /// The target after the scope was told to stop, where the placeholder
    /// holds a handle.
    pub open spec fn stopped(self, target: TargetView) -> TargetView {
        match self.handle {
            Some(scope) => target.record(EffectView::Destroy { scope }),
            None => target,
        }
    }

    /// The target after the placeholder was removed from it, and the child
    /// that followed the placeholder's node. The scope is told to stop first;
    /// then the node in the anchor cell, if there is one, is detached.
    pub open spec fn removed(self, target: TargetView) -> (TargetView, Option<u64>) {
        let stopped = self.stopped(target);
        match self.cell {
            Some(node) => (stopped.remove_child(node), stopped.sibling_after(node)),
            None => (stopped, None),
        }
    }

    /// Whether the node of the previous render is a placeholder for the same
    /// component type, so that its running instance is used again.
    pub open spec fn keeps(self, opposite: Option<NodeView>) -> bool {
        opposite matches Some(NodeView::VComp(other)) && self.same_component(other)
    }

    /// What is decided about the node of the previous render.
    pub open spec fn reform(self, target: TargetView, opposite: Option<NodeView>) -> Reform {
        match opposite {
            Some(node) => if self.keeps(opposite) {
                Reform::Keep
            } else {
                Reform::Before(node.removed(target).1)
            },
            None => Reform::Before(None),
        }
    }

    /// The placeholder and the target after the running instance of `other`
    /// was taken over: the properties are activated and forwarded through the
    /// channel of `other`, which tells the scope of them where they changed.
    pub open spec fn kept(self, target: TargetView, other: VCompView, env: ScopeEnv) -> (
        VCompView,
        TargetView,
    ) {
        let payload = self.props->0.payload;
        (
            VCompView {
                blind_sender: other.blind_sender.forwarded(payload),
                ..self.grab_sender_of(other).activated(env.sender)
            },
            match other.blind_sender.sent(payload) {
                Some(effect) => target.record(effect),
                None => target,
            },
        )
    }

    /// The placeholder and the target after a new instance was started. Where
    /// the new node has to go before `sibling`, an empty text node is put
    /// there first, for the scope to render in its place; else the scope
    /// renders behind the last child. From then on the placeholder holds the
    /// handle of the scope that it started.
    pub open spec fn mounted(self, target: TargetView, sibling: Option<u64>, env: ScopeEnv) -> (
        VCompView,
        TargetView,
    ) {
        let payload = self.props->0.payload;
        let scope = self.generator.builder->0.scope;
        let (ready, obsolete) = match sibling {
            Some(reference) => (
                target.create_text_node().insert_before(target.next, reference),
                Some(target.next),
            ),
            None => (target, None),
        };
        (
            VCompView {
                cell: Some(ready.next),
                generator: GeneratorView { builder: None, ..self.generator },
                handle: Some(scope),
                ..self.activated(env.sender)
            },
            ready.mount(scope, env.context, obsolete, payload),
        )
    }

    /// The placeholder and the target after the placeholder was applied
    /// against the node of the previous render.
    pub open spec fn applied(self, target: TargetView, opposite: Option<NodeView>, env: ScopeEnv) -> (
        VCompView,
        TargetView,
    ) {
        match self.reform(target, opposite) {
            Reform::Keep => self.kept(target, opposite->0->VComp_0, env),
            Reform::Before(sibling) => self.mounted(
                match opposite {
                    Some(node) => node.removed(target).0,
                    None => target,
                },
                sibling,
                env,
            ),
        }
    }

    /// Whether the placeholder can be applied: its properties wait for
    /// activation; an instance that is used again belongs to a well-formed
    /// placeholder; and where a new instance is started, the node of the
    /// previous render is attached to the parent element, the constructor has
    /// not run, and the new nodes can get ids.
    pub open spec fn can_apply(self, target: TargetView, opposite: Option<NodeView>) -> bool {
        &&& self.well_formed()
        &&& target.well_formed()
        &&& self.can_activate()
        &&& match self.reform(target, opposite) {
            Reform::Keep => opposite->0->VComp_0.well_formed(),
            Reform::Before(sibling) => {
                &&& opposite matches Some(node) ==> node.attached_to(target)
                &&& self.generator.builder is Some
                &&& target.has_room(
                    if sibling is Some {
                        2
                    } else {
                        1
                    },
                )
            },
        }
    }
}

/// A virtual component.
#[derive(Debug)]
pub struct VComp {
    type_id: u64,
    cell: Option<u64>,
    props: Option<AnyProps>,
    blind_sender: BlindSender,
    generator: Generator,
    activators: Vec<Option<ScopeSender>>,
    handle: Option<ScopeHandle>,
}

impl View for VComp {
    type V = VCompView;

    closed spec fn view(&self) -> VCompView {
        VCompView {
            type_id: self.type_id,
            cell: self.cell,
            props: match self.props {
                Some(capsule) => Some(capsule@),
                None => None,
            },
            blind_sender: self.blind_sender@,
            generator: self.generator@,
            activators: self.activators@,
            handle: match self.handle {
                Some(handle) => Some(handle@),
                None => None,
            },
        }
    }
}

impl VComp {
    /// Prepares a placeholder for a component of the type `child`, whose
    /// scope will be `scope`: nothing is started, and the placeholder holds no
    /// handle. Returns the default properties, for the caller to fill in, and
    /// the placeholder.
    pub fn lazy(child: u64, scope: u64) -> (made: (Vec<u8>, VComp))
        ensures
            made.0@ == Seq::<u8>::empty(),
            made.1@ == VCompView::lazy(child, scope),
            made.1@.well_formed(),
    {
        let builder = ScopeBuilder::new(child, scope);
        let sender = builder.sender();
        let generator = Generator::new(child, builder);
        let blind_sender = BlindSender::new(child, sender);
        let properties: Vec<u8> = Vec::new();
        let comp = VComp {
            type_id: child,
            cell: None,
            props: None,
            blind_sender,
            generator,
            activators: Vec::new(),
            handle: None,
        };
        (properties, comp)
    }

    /// The tag of the component type that the placeholder stands for.
    pub fn type_id(&self) -> (tag: u64)
        ensures
            tag == self@.type_id,
    {
        self.type_id
    }

    /// The node that the component occupies, if it rendered.
    pub fn node(&self) -> (node: Option<u64>)
        ensures
            node == self@.cell,
    {
        self.cell
    }

    /// The scope that the placeholder can stop, if it holds a handle.
    pub fn handle(&self) -> (scope: Option<u64>)
        ensures
            scope == self@.handle,
    {
        match &self.handle {
            Some(handle) => Some(handle.scope()),
            None => None,
        }
    }

    /// Whether properties wait for activation.
    pub fn can_activate(&self) -> (ready: bool)
        ensures
            ready == self@.can_activate(),
    {
        self.props.is_some()
    }

    /// Whether the deferred constructor has not run yet.
    pub fn can_mount(&self) -> (ready: bool)
        ensures
            ready == (self@.generator.builder is Some),
    {
        self.generator.is_pending()
    }

    /// The channel in the callback slot `slot`, if the slot exists and was
    /// activated.
    pub fn activator(&self, slot: usize) -> (sender: Option<ScopeSender>)
        ensures
            sender is Some == self@.is_active(slot as nat),
            sender matches Some(channel) ==> self@.activators[slot as int] == Some(channel),
    {
        if slot < self.activators.len() {
            self.activators[slot]
        } else {
            None
        }
    }

    /// Attaches the properties that the component is to get.
    pub fn set_props(&mut self, props: Vec<u8>)
        ensures
            final(self)@ == old(self)@.set_props(props@),
            old(self)@.well_formed() ==> final(self)@.well_formed(),
    {
        self.props = Some(AnyProps::pack(self.type_id, props));
    }

    /// Puts `sender` into the slot of every callback that was made for the
    /// properties, and takes the properties. They can be taken once.
    pub fn activate_props(&mut self, sender: ScopeSender) -> (capsule: AnyProps)
        requires
            old(self)@.can_activate(),
        ensures
            final(self)@ == old(self)@.activated(sender),
            Some(capsule@) == old(self)@.props,
    {
        let mut i: usize = 0;
        while i < self.activators.len()
            invariant
                i <= self.activators.len(),
                self.activators.len() == old(self).activators.len(),
                forall|j: int| 0 <= j < i ==> self.activators@[j] == Some(sender),
                self.type_id == old(self).type_id,
                self.cell == old(self).cell,
                self.props == old(self).props,
                self.blind_sender == old(self).blind_sender,
                self.generator == old(self).generator,
                self.handle == old(self).handle,
            decreases self.activators.len() - i,
        {
            self.activators.set(i, Some(sender));
            i = i + 1;
        }
        let props = self.props.take().unwrap();
        assert(self@.activators =~= old(self)@.activated(sender).activators);
        props
    }

    /// Takes over from the placeholder of the previous render what belongs
    /// to the running instance: the channel, the anchor cell and the handle.
    pub fn grab_sender_of(&mut self, other: VComp)
        requires
            old(self)@.same_component(other@),
        ensures
            final(self)@ == old(self)@.grab_sender_of(other@),
    {
        self.blind_sender = other.blind_sender;
        self.cell = other.cell;
        self.handle = other.handle;
    }

    /// Starts the component under `parent` with the deferred constructor, and
    /// keeps the node that it rendered and the handle of its scope.
    pub fn mount(
        &mut self,
        context: u64,
        parent: &mut RenderTarget,
        opposite: Option<u64>,
        props: AnyProps,
    )
        requires
            unpacked(props@, old(self)@.generator.child) is Some,
            old(self)@.generator.builder is Some,
            old(parent)@.well_formed(),
            old(parent)@.has_room(1),
            opposite matches Some(node) ==> old(parent)@.children.contains(node),
        ensures
            final(self)@ == (VCompView {
                cell: Some(old(parent)@.next),
                generator: GeneratorView { builder: None, ..old(self)@.generator },
                handle: Some(old(self)@.generator.builder->0.scope),
                ..old(self)@
            }),
            final(parent)@ == old(parent)@.mount(
                old(self)@.generator.builder->0.scope,
                context,
                opposite,
                props@.payload,
            ),
            final(parent)@.well_formed(),
    {
        let (root, handle) = self.generator.generate(context, parent, opposite, props);
        self.cell = Some(root);
        self.handle = Some(handle);
    }

    /// Removes the component from the parent element: tells its scope to
    /// stop, where the placeholder holds a handle, then detaches the node in
    /// the anchor cell, where there is one, and returns the child that
    /// followed it.
    pub fn remove(self, parent: &mut RenderTarget) -> (sibling: Option<u64>)
        requires
            old(parent)@.well_formed(),
            self@.attached_to(old(parent)@),
        ensures
            (final(parent)@, sibling) == self@.removed(old(parent)@),
            final(parent)@.well_formed(),
            sibling matches Some(next) ==> final(parent)@.children.contains(next),
    {
        if let Some(handle) = self.handle {
            parent.record(handle.destroy());
        }
        match self.cell {
            Some(node) => {
                proof {
                    lemma_sibling_survives(parent@, node);
                }
                let sibling = parent.next_sibling(node);
                parent.remove_child(node);
                sibling
            },
            None => None,
        }
    }

    /// Whether `apply` can be called with these arguments.
    pub fn can_apply(&self, parent: &RenderTarget, opposite: &Option<VNode>) -> (ready: bool)
        requires
            self@.well_formed(),
            parent@.well_formed(),
            opposite matches Some(VNode::VComp(other)) ==> other@.well_formed(),
        ensures
            ready == self@.can_apply(parent@, seen(*opposite)),
    {
        if !self.can_activate() {
            return false;
        }
        match opposite {
            Some(VNode::VComp(other)) => {
                if self.type_id == other.type_id {
                    true
                } else {
                    match other.cell {
                        Some(node) => {
                            if !parent.contains(node) {
                                return false;
                            }
                            let sibling = parent.next_sibling(node);
                            self.can_mount() && parent.has_room(
                                if sibling.is_some() {
                                    2
                                } else {
                                    1
                                },
                            )
                        },
                        None => self.can_mount() && parent.has_room(1),
                    }
                }
            },
            Some(VNode::VRef(node)) => {
                if !parent.contains(*node) {
                    return false;
                }
                let sibling = parent.next_sibling(*node);
                self.can_mount() && parent.has_room(
                    if sibling.is_some() {
                        2
                    } else {
                        1
                    },
                )
            },
            None => self.can_mount() && parent.has_room(1),
        }
    }

    /// Renders the component under the parent element, against the node that
    /// stood in its place after the previous render. A placeholder for the
    /// same component type hands its running instance on, and the properties
    /// are forwarded to it. Any other node is removed, and a new instance is
    /// started where it stood. Returns the node that the component occupies.
    pub fn apply(
        &mut self,
        parent: &mut RenderTarget,
        _precursor: Option<u64>,
        opposite: Option<VNode>,
        env: ScopeEnv,
    ) -> (node: Option<u64>)
        requires
            old(self)@.can_apply(old(parent)@, seen(opposite)),
        ensures
            (final(self)@, final(parent)@) == old(self)@.applied(old(parent)@, seen(opposite), env),
            node == final(self)@.cell,
            final(self)@.well_formed(),
            final(parent)@.well_formed(),
    {
        let reform = match opposite {
            Some(VNode::VComp(vcomp)) => {
                if self.type_id == vcomp.type_id {
                    self.grab_sender_of(vcomp);
                    Reform::Keep
                } else {
                    let node = vcomp.remove(parent);
                    Reform::Before(node)
                }
            },
            Some(vnode) => {
                let node = vnode.remove(parent);
                Reform::Before(node)
            },
            None => Reform::Before(None),
        };
        let any_props = self.activate_props(env.sender());
        match reform {
            Reform::Keep => {
                if let Some(effect) = self.send_props(any_props) {
                    parent.record(effect);
                }
            },
            Reform::Before(node) => {
                let node = match node {
                    Some(sibling) => {
                        let element = parent.create_text_node();
                        parent.insert_before(element, sibling);
                        Some(element)
                    },
                    None => None,
                };
                self.mount(env.context(), parent, node, any_props);
            },
        }
        self.cell
    }

    /// Hands the properties to the forwarding channel.
    pub fn send_props(&mut self, props: AnyProps) -> (sent: Option<Effect>)
        requires
            unpacked(props@, old(self)@.blind_sender.child) is Some,
        ensures
            final(self)@ == (VCompView {
                blind_sender: old(self)@.blind_sender.forwarded(props@.payload),
                ..old(self)@
            }),
            match sent {
                Some(effect) => Some(effect@) == old(self)@.blind_sender.sent(props@.payload),
                None => old(self)@.blind_sender.sent(props@.payload) is None,
            },
    {
        self.blind_sender.forward(props)
    }
}

impl PartialEq for VComp {
    /// Two placeholders are equal when they stand for the same component
    /// type, whatever else they hold.
    fn eq(&self, other: &VComp) -> (equal: bool) {
        self.type_id == other.type_id
    }
}

impl vstd::std_specs::cmp::PartialEqSpecImpl for VComp {
    open spec fn obeys_eq_spec() -> bool {
        true
    }

    open spec fn eq_spec(&self, other: &VComp) -> bool {
        self@.same_component(other@)
    }
}

/// A callback that a parent hands to a child component. It turns what the
/// child passes in into a message for the parent, and sends that through the
/// channel in its slot of the placeholder it was made for.
pub struct Callback<IN, F> {
    /// The callback's slot among the placeholder's activators.
    pub slot: usize,
    /// What turns the input of the callback into a message.
    pub convert: F,
    /// The callback takes values of this type.
    pub input: PhantomData<IN>,
}

impl<IN, F: Fn(IN) -> Vec<u8>> Callback<IN, F> {
    /// Invokes the callback: computes the message for `arg` and returns the
    /// request to send it through the channel in the callback's slot of
    /// `owner`. A callback whose slot was not activated cannot be invoked.
    pub fn emit(&self, owner: &VComp, arg: IN) -> (effect: Effect)
        requires
            owner@.is_active(self.slot as nat),
            call_requires(self.convert, (arg,)),
        ensures
            effect matches Effect::Send { scope, update: Update::Message(message) }
                && scope == owner@.activators[self.slot as int]->0.scope
                && call_ensures(self.convert, (arg,), message),
    {
        let message = (self.convert)(arg);
        let sender = owner.activators[self.slot].unwrap();
        sender.send(Update::Message(message))
    }
}

/// The text of an owned string.
pub open spec fn text(owned: String) -> Seq<char> {
    owned@
}

/// Converts what a parent writes for a property of a child component into
/// what the child declares for it. For a callback the placeholder also keeps
/// the slot through which the callback learns the parent's channel later.
pub trait Transformer<FROM, TO> {
    /// Transforms one type to another.
    fn transform(&mut self, from: FROM) -> (to: TO);
}

impl<T> Transformer<T, T> for VComp {
    /// A value of the declared type passes as it is.
    fn transform(&mut self, from: T) -> (to: T)
        ensures
            to == from,
            final(self)@ == old(self)@,
    {
        from
    }
}

impl<'a, T: Clone> Transformer<&'a T, T> for VComp {
    /// A reference is cloned.
    fn transform(&mut self, from: &'a T) -> (to: T)
        ensures
            cloned(*from, to),
            final(self)@ == old(self)@,
    {
        from.clone()
    }
}

impl<'a> Transformer<&'a str, String> for VComp {
    /// Borrowed text is copied into a string.
    fn transform(&mut self, from: &'a str) -> (to: String)
        ensures
            text(to) == from@,
            final(self)@ == old(self)@,
    {
        from.to_owned()
    }
}

impl<IN, F: Fn(IN) -> Vec<u8>> Transformer<F, Option<Callback<IN, F>>> for VComp {
    /// A closure becomes a callback with a new, empty slot at the end of the
    /// placeholder's activators.
    fn transform(&mut self, from: F) -> (to: Option<Callback<IN, F>>)
        ensures
            final(self)@ == old(self)@.with_slot(),
            to matches Some(callback) && callback.slot == old(self)@.activators.len()
                && callback.convert == from,
    {
        let slot = self.activators.len();
        self.activators.push(None);
        Some(Callback { slot, convert: from, input: PhantomData })
    }
}

} // verus!
