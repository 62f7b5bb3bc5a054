//! Scopes: the running instances of components, as far as the reconciler
//! deals with them. It prepares one, starts it, sends into it and stops it;
//! what a scope does with its updates is not its business.

use vstd::prelude::*;
use crate::effect::{Effect, EffectView, Update};
use crate::target::RenderTarget;

verus! {

/// The sending end of a scope's channel.
#[derive(Clone, Copy, PartialEq, Eq, Structural, Debug)]
pub struct ScopeSender {
    /// The scope that receives.
    pub scope: u64,
}

impl ScopeSender {
    /// The request to put `update` into the scope's channel.
    pub fn send(&self, update: Update) -> (effect: Effect)
        ensures
            effect == (Effect::Send { scope: self.scope, update }),
    {
        Effect::Send { scope: self.scope, update }
    }
}

/// The right to stop a scope. It is used up by stopping the scope, so that no
/// scope is stopped twice through one handle.
#[derive(Debug)]
pub struct ScopeHandle {
    scope: u64,
}

impl View for ScopeHandle {
    type V = u64;

    /// The scope that the handle stops.
    closed spec fn view(&self) -> u64 {
        self.scope
    }
}

impl ScopeHandle {
    /// The scope that the handle stops.
    pub fn scope(&self) -> (scope: u64)
        ensures
            scope == self@,
    {
        self.scope
    }

    /// The request to stop the scope.
    pub fn destroy(self) -> (effect: Effect)
        ensures
            effect@ == (EffectView::Destroy { scope: self@ }),
    {
        Effect::Destroy { scope: self.scope }
    }
}

/// What is known of the surroundings while a component's tree is reconciled:
/// the context shared by all scopes and the channel of the component itself.
#[derive(Clone, Copy, PartialEq, Eq, Structural, Debug)]
pub struct ScopeEnv {
    /// The shared context.
    pub context: u64,
    /// The channel of the component whose tree is reconciled.
    pub sender: ScopeSender,
}

impl ScopeEnv {
    /// The surroundings of the component that receives through `sender`.
    pub fn new(context: u64, sender: ScopeSender) -> (env: ScopeEnv)
        ensures
            env == (ScopeEnv { context, sender }),
    {
        ScopeEnv { context, sender }
    }

    /// The shared context.
    pub fn context(&self) -> (context: u64)
        ensures
            context == self.context,
    {
        self.context
    }

    /// The channel of the component whose tree is reconciled.
    pub fn sender(&self) -> (sender: ScopeSender)
        ensures
            sender == self.sender,
    {
        self.sender
    }
}

/// A scope that is prepared and not started, as contracts see it.
pub struct BuilderView {
    /// The id of the scope.
    pub scope: u64,
    /// The tag of the component type that the scope runs.
    pub component: u64,
}

/// A scope that is prepared and not started. Starting it uses the builder up.
#[derive(Debug)]
pub struct ScopeBuilder {
    scope: u64,
    component: u64,
}

impl View for ScopeBuilder {
    type V = BuilderView;

    closed spec fn view(&self) -> BuilderView {
        BuilderView { scope: self.scope, component: self.component }
    }
}

impl ScopeBuilder {
    /// Prepares the scope `scope` for a component of the type `component`.
    pub fn new(component: u64, scope: u64) -> (builder: ScopeBuilder)
        ensures
            builder@ == (BuilderView { scope, component }),
    {
        ScopeBuilder { scope, component }
    }

    /// A handle that stops the scope.
    pub fn handle(&self) -> (handle: ScopeHandle)
        ensures
            handle@ == self@.scope,
    {
        ScopeHandle { scope: self.scope }
    }

    /// The sending end of the scope's channel.
    pub fn sender(&self) -> (sender: ScopeSender)
        ensures
            sender.scope == self@.scope,
    {
        ScopeSender { scope: self.scope }
    }

    /// Finishes the preparation in the given context.
    pub fn build(self, context: u64) -> (scope: Scope)
        ensures
            scope@ == (ScopeView { scope: self@.scope, component: self@.component, context }),
    {
        Scope { scope: self.scope, component: self.component, context }
    }
}

/// A scope that is about to start, as contracts see it.
pub struct ScopeView {
    /// The id of the scope.
    pub scope: u64,
    /// The tag of the component type that the scope runs.
    pub component: u64,
    /// The shared context that the scope runs in.
    pub context: u64,
}

/// A scope that is about to start.
#[derive(Debug)]
pub struct Scope {
    scope: u64,
    component: u64,
    context: u64,
}

impl View for Scope {
    type V = ScopeView;

    closed spec fn view(&self) -> ScopeView {
        ScopeView { scope: self.scope, component: self.component, context: self.context }
    }
}

impl Scope {
    /// Starts the scope with its first properties and lets it render under
    /// the parent element, in place of the child `obsolete` or, where there is
    /// none, behind the last child. Returns the node that it rendered.
    pub fn mount_in_place(self, parent: &mut RenderTarget, obsolete: Option<u64>, props: Vec<u8>) -> (root: u64)
        requires
            old(parent)@.well_formed(),
            old(parent)@.has_room(1),
            obsolete matches Some(node) ==> old(parent)@.children.contains(node),
        ensures
            root == old(parent)@.next,
            final(parent)@ == old(parent)@.mount(self@.scope, self@.context, obsolete, props@),
            final(parent)@.well_formed(),
    {
        parent.mount(self.scope, self.context, obsolete, props)
    }
}

} // verus!
