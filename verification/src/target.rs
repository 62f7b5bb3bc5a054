//! The render target: the children of the element under which a virtual tree
//! is reconciled, by their ids and in their order, and the journal of what the
//! reconciler asked of the outside while it worked on that element.

use vstd::prelude::*;
use crate::effect::{lemma_views_push, views, Effect, EffectView};

verus! {

/// A render target, as contracts see it.
pub struct TargetView {
    /// The children of the parent element, first to last.
    pub children: Seq<u64>,
    /// The id that the next new node gets.
    pub next: u64,
    /// Every effect issued so far, oldest first.
    pub journal: Seq<EffectView>,
}

impl TargetView {
    /// No node is a child twice, and every child has an id that was given out.
    pub open spec fn well_formed(self) -> bool {
        &&& self.children.no_duplicates()
        &&& forall|i: int| 0 <= i < self.children.len() ==> self.children[i] < self.next
    }

    /// Whether `count` more nodes can get an id.
    pub open spec fn has_room(self, count: nat) -> bool {
        self.next + count <= u64::MAX
    }

    /// The child that follows `node`, where `node` is a child and not the last.
    pub open spec fn sibling_after(self, node: u64) -> Option<u64> {
        let at = self.children.index_of(node);
        if self.children.contains(node) && at + 1 < self.children.len() {
            Some(self.children[at + 1])
        } else {
            None
        }
    }

    /// The target with one more effect in its journal.
    pub open spec fn record(self, effect: EffectView) -> TargetView {
        TargetView { journal: self.journal.push(effect), ..self }
    }

    /// The target with one more child at the end, taken over as it is.
    pub open spec fn adopt(self) -> TargetView {
        TargetView {
            children: self.children.push(self.next),
            next: (self.next + 1) as u64,
            ..self
        }
    }

    /// The target after the child `node` was detached.
    pub open spec fn remove_child(self, node: u64) -> TargetView {
        TargetView {
            children: self.children.remove(self.children.index_of(node)),
            journal: self.journal.push(EffectView::RemoveChild { node }),
            ..self
        }
    }

    /// The target after an empty text node was created. The node is
    /// `self.next` and is not a child yet.
    pub open spec fn create_text_node(self) -> TargetView {
        TargetView {
            next: (self.next + 1) as u64,
            journal: self.journal.push(EffectView::CreateText { node: self.next }),
            ..self
        }
    }

    /// The target after `node` was put directly before the child `reference`.
    pub open spec fn insert_before(self, node: u64, reference: u64) -> TargetView {
        TargetView {
            children: self.children.insert(self.children.index_of(reference), node),
            journal: self.journal.push(EffectView::InsertBefore { node, reference }),
            ..self
        }
    }

    /// The target after a scope was started on it. What the scope rendered is
    /// the node `self.next`; it stands where `obsolete` stood, or at the end
    /// where there was none.
    pub open spec fn mount(
        self,
        scope: u64,
        context: u64,
        obsolete: Option<u64>,
        props: Seq<u8>,
    ) -> TargetView {
        TargetView {
            children: match obsolete {
                Some(old) => self.children.update(self.children.index_of(old), self.next),
                None => self.children.push(self.next),
            },
            next: (self.next + 1) as u64,
            journal: self.journal.push(
                EffectView::Mount { scope, context, root: self.next, obsolete, props },
            ),
        }
    }
}

/// The children of one parent element and the journal of effects.
#[derive(Debug)]
pub struct RenderTarget {
    children: Vec<u64>,
    next: u64,
    journal: Vec<Effect>,
}

impl View for RenderTarget {
    type V = TargetView;

    closed spec fn view(&self) -> TargetView {
        TargetView { children: self.children@, next: self.next, journal: views(self.journal@) }
    }
}

impl RenderTarget {
    /// A parent element without children, with an empty journal.
    pub fn new() -> (target: RenderTarget)
        ensures
            target@.well_formed(),
            target@ == (TargetView { children: Seq::empty(), next: 0, journal: Seq::empty() }),
    {
        let target = RenderTarget { children: Vec::new(), next: 0, journal: Vec::new() };
        assert(target@.journal =~= Seq::empty());
        target
    }

    /// Whether `count` more nodes can get an id.
    pub fn has_room(&self, count: u8) -> (room: bool)
        ensures
            room == self@.has_room(count as nat),
    {
        self.next <= u64::MAX - (count as u64)
    }

    /// Takes over a child that the parent element already has, as its last
    /// one, and gives it an id. Nothing is asked of the outside.
    pub fn adopt(&mut self) -> (node: u64)
        requires
            old(self)@.well_formed(),
            old(self)@.has_room(1),
        ensures
            node == old(self)@.next,
            final(self)@ == old(self)@.adopt(),
            final(self)@.well_formed(),
    {
        let node = self.next;
        self.children.push(node);
        self.next = node + 1;
        node
    }

    /// The children, first to last.
    pub fn children(&self) -> (children: Vec<u64>)
        ensures
            children@ == self@.children,
    {
        self.children.clone()
    }

    /// The index of `node` among the children.
    fn position(&self, node: u64) -> (at: Option<usize>)
        requires
            self@.well_formed(),
        ensures
            match at {
                Some(i) => self@.children.contains(node) && i < self@.children.len()
                    && i == self@.children.index_of(node),
                None => !self@.children.contains(node),
            },
    {
        let mut i: usize = 0;
        while i < self.children.len()
            invariant
                self@.well_formed(),
                i <= self.children.len(),
                forall|j: int| 0 <= j < i ==> self.children@[j] != node,
            decreases self.children.len() - i,
        {
            if self.children[i] == node {
                assert(self@.children[i as int] == node);
                return Some(i);
            }
            i = i + 1;
        }
        None
    }

    /// Whether `node` is a child.
    pub fn contains(&self, node: u64) -> (found: bool)
        requires
            self@.well_formed(),
        ensures
            found == self@.children.contains(node),
    {
        self.position(node).is_some()
    }

    /// The child that follows `node`, where `node` is a child and not the last.
    pub fn next_sibling(&self, node: u64) -> (sibling: Option<u64>)
        requires
            self@.well_formed(),
        ensures
            sibling == self@.sibling_after(node),
    {
        match self.position(node) {
            Some(i) => {
                let count = self.children.len();
                if i + 1 < count {
                    Some(self.children[i + 1])
                } else {
                    None
                }
            },
            None => None,
        }
    }

    /// Adds an effect to the journal.
    pub fn record(&mut self, effect: Effect)
        ensures
            final(self)@ == old(self)@.record(effect@),
    {
        proof {
            lemma_views_push(self.journal@, effect);
        }
        self.journal.push(effect);
    }

    /// Detaches the child `node`. A node that is no child cannot be detached.
    pub fn remove_child(&mut self, node: u64)
        requires
            old(self)@.well_formed(),
            old(self)@.children.contains(node),
        ensures
            final(self)@ == old(self)@.remove_child(node),
            final(self)@.well_formed(),
    {
        let at = self.position(node).unwrap();
        self.children.remove(at);
        self.record(Effect::RemoveChild { node });
        proof {
            lemma_remove_child_well_formed(old(self)@, node);
        }
    }

    /// Creates an empty text node. It is no child of the parent element yet.
    pub fn create_text_node(&mut self) -> (node: u64)
        requires
            old(self)@.well_formed(),
            old(self)@.has_room(1),
        ensures
            node == old(self)@.next,
            final(self)@ == old(self)@.create_text_node(),
            final(self)@.well_formed(),
    {
        let node = self.next;
        self.next = node + 1;
        self.record(Effect::CreateText { node });
        node
    }

    /// Puts `node`, which has an id and is no child yet, directly before the
    /// child `reference`.
    pub fn insert_before(&mut self, node: u64, reference: u64)
        requires
            old(self)@.well_formed(),
            node < old(self)@.next,
            !old(self)@.children.contains(node),
            old(self)@.children.contains(reference),
        ensures
            final(self)@ == old(self)@.insert_before(node, reference),
            final(self)@.well_formed(),
            final(self)@.children.contains(node),
    {
        let at = self.position(reference).unwrap();
        self.children.insert(at, node);
        self.record(Effect::InsertBefore { node, reference });
        proof {
            lemma_insert_before_well_formed(old(self)@, node, reference);
        }
    }

    /// Starts a scope on the parent element. What the scope renders gets a new
    /// id, which is returned, and takes the place of the child `obsolete`, or
    /// the last place where there is none.
    pub fn mount(
        &mut self,
        scope: u64,
        context: u64,
        obsolete: Option<u64>,
        props: Vec<u8>,
    ) -> (root: u64)
        requires
            old(self)@.well_formed(),
            old(self)@.has_room(1),
            obsolete matches Some(old_node) ==> old(self)@.children.contains(old_node),
        ensures
            root == old(self)@.next,
            final(self)@ == old(self)@.mount(scope, context, obsolete, props@),
            final(self)@.well_formed(),
    {
        let root = self.next;
        match obsolete {
            Some(old_node) => {
                let at = self.position(old_node).unwrap();
                self.children.set(at, root);
            },
            None => {
                self.children.push(root);
            },
        }
        self.next = root + 1;
        self.record(Effect::Mount { scope, context, root, obsolete, props });
        proof {
            lemma_mount_well_formed(old(self)@, scope, context, obsolete, props@);
        }
        root
    }

    /// Hands out the journal and leaves an empty one.
    pub fn take_journal(&mut self) -> (journal: Vec<Effect>)
        ensures
            views(journal@) == old(self)@.journal,
            final(self)@ == (TargetView { journal: Seq::empty(), ..old(self)@ }),
    {
        let mut journal: Vec<Effect> = Vec::new();
        std::mem::swap(&mut self.journal, &mut journal);
        assert(views(self.journal@) =~= Seq::empty());
        journal
    }
}

/// Detaching a child keeps the target well formed, takes that child away and
/// keeps every other one.
pub proof fn lemma_remove_child_well_formed(target: TargetView, node: u64)
    requires
        target.well_formed(),
        target.children.contains(node),
    ensures
        target.remove_child(node).well_formed(),
        !target.remove_child(node).children.contains(node),
        forall|other: u64|
            other != node ==> target.remove_child(node).children.contains(other)
                == target.children.contains(other),
{
    let at = target.children.index_of(node);
    let after = target.remove_child(node).children;
    target.children.remove_ensures(at);
    assert forall|i: int, j: int| 0 <= i < after.len() && 0 <= j < after.len() && i != j implies after[i] != after[j] by {
        let oi = if i < at { i } else { i + 1 };
        let oj = if j < at { j } else { j + 1 };
        assert(after[i] == target.children[oi]);
        assert(after[j] == target.children[oj]);
    }
    assert forall|i: int| 0 <= i < after.len() implies after[i] < target.next by {
        let oi = if i < at { i } else { i + 1 };
        assert(after[i] == target.children[oi]);
    }
    if after.contains(node) {
        let i = choose|i: int| 0 <= i < after.len() && after[i] == node;
        let oi = if i < at { i } else { i + 1 };
        assert(after[i] == target.children[oi]);
        assert(false);
    }
    assert forall|other: u64| other != node implies after.contains(other)
        == target.children.contains(other) by {
        if target.children.contains(other) {
            let k = choose|k: int| 0 <= k < target.children.len() && target.children[k] == other;
            let i = if k < at { k } else { k - 1 };
            assert(after[i] == other);
        }
        if after.contains(other) {
            let i = choose|i: int| 0 <= i < after.len() && after[i] == other;
            let oi = if i < at { i } else { i + 1 };
            assert(target.children[oi] == other);
        }
    }
}

/// The child that follows a child is another child, and is still a child
/// after the first was detached.
pub proof fn lemma_sibling_survives(target: TargetView, node: u64)
    requires
        target.well_formed(),
        target.children.contains(node),
    ensures
        target.sibling_after(node) matches Some(sibling) ==> sibling != node
            && target.children.contains(sibling)
            && target.remove_child(node).children.contains(sibling),
{
    lemma_remove_child_well_formed(target, node);
    let at = target.children.index_of(node);
    if at + 1 < target.children.len() {
        assert(target.children[at + 1] != target.children[at]);
        assert(target.children.contains(target.children[at + 1]));
    }
}

/// Putting a node that is no child yet before a child keeps the target well
/// formed and makes the node the child directly before that one.
pub proof fn lemma_insert_before_well_formed(target: TargetView, node: u64, reference: u64)
    requires
        target.well_formed(),
        node < target.next,
        !target.children.contains(node),
        target.children.contains(reference),
    ensures
        target.insert_before(node, reference).well_formed(),
        target.insert_before(node, reference).children.contains(node),
        target.insert_before(node, reference).sibling_after(node) == Some(reference),
        forall|other: u64|
            target.insert_before(node, reference).children.contains(other) == (other == node
                || target.children.contains(other)),
{
    let at = target.children.index_of(reference);
    let after = target.insert_before(node, reference).children;
    target.children.insert_ensures(at, node);
    assert forall|i: int| 0 <= i < after.len() implies (after[i] == if i < at {
        target.children[i]
    } else if i == at {
        node
    } else {
        target.children[i - 1]
    }) by {
        if i > at {
            assert(after[(i - 1) + 1] == target.children[i - 1]);
        }
    }
    assert forall|i: int, j: int| 0 <= i < after.len() && 0 <= j < after.len() && i != j implies after[i] != after[j] by {
        let oi = if i < at { i } else { i - 1 };
        let oj = if j < at { j } else { j - 1 };
        if i != at {
            assert(after[i] == target.children[oi]);
        }
        if j != at {
            assert(after[j] == target.children[oj]);
        }
    }
    assert(after[at] == node);
    assert(after[at + 1] == reference);
    assert(after.contains(node));
    assert(after.index_of(node) == at);
    assert forall|other: u64| after.contains(other) == (other == node
        || target.children.contains(other)) by {
        if target.children.contains(other) {
            let k = choose|k: int| 0 <= k < target.children.len() && target.children[k] == other;
            let i = if k < at { k } else { k + 1 };
            assert(after[i] == other);
        }
        if after.contains(other) && other != node {
            let i = choose|i: int| 0 <= i < after.len() && after[i] == other;
            let k = if i < at { i } else { i - 1 };
            assert(target.children[k] == other);
        }
    }
}

/// Starting a scope keeps the target well formed and makes what the scope
/// rendered a child, in the place of the obsolete node where there was one.
pub proof fn lemma_mount_well_formed(
    target: TargetView,
    scope: u64,
    context: u64,
    obsolete: Option<u64>,
    props: Seq<u8>,
)
    requires
        target.well_formed(),
        target.has_room(1),
        obsolete matches Some(old_node) ==> target.children.contains(old_node),
    ensures
        target.mount(scope, context, obsolete, props).well_formed(),
        target.mount(scope, context, obsolete, props).children.contains(target.next),
        obsolete matches Some(old_node) ==> target.mount(
            scope,
            context,
            obsolete,
            props,
        ).sibling_after(target.next) == target.sibling_after(old_node),
        forall|other: u64|
            target.mount(scope, context, obsolete, props).children.contains(other) == (other
                == target.next || (target.children.contains(other) && obsolete != Some(other))),
{
    let after = target.mount(scope, context, obsolete, props).children;
    match obsolete {
        Some(old_node) => {
            let at = target.children.index_of(old_node);
            assert(after[at] == target.next);
            assert forall|i: int| 0 <= i < after.len() && i != at implies after[i] == target.children[i] by {}
            assert(after.index_of(target.next) == at);
            assert(after.contains(target.next));
            assert forall|other: u64| after.contains(other) == (other == target.next || (
                target.children.contains(other) && obsolete != Some(other))) by {
                if target.children.contains(other) && other != old_node {
                    let k = choose|k: int| 0 <= k < target.children.len() && target.children[k] == other;
                    assert(after[k] == other);
                }
                if after.contains(other) && other != target.next {
                    let i = choose|i: int| 0 <= i < after.len() && after[i] == other;
                    assert(i != at);
                    assert(target.children[i] == other);
                }
            }
        },
        None => {
            assert(after[after.len() - 1] == target.next);
            assert forall|other: u64| after.contains(other) == (other == target.next
                || target.children.contains(other)) by {
                if target.children.contains(other) {
                    let k = choose|k: int| 0 <= k < target.children.len() && target.children[k] == other;
                    assert(after[k] == other);
                }
                if after.contains(other) && other != target.next {
                    let i = choose|i: int| 0 <= i < after.len() && after[i] == other;
                    assert(target.children[i] == other);
                }
            }
        },
    }
}

} // verus!
