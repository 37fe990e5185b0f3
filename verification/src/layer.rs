//! Layers and the stack that orders them.
//!
//! A [`LayerStack`] holds two groups: the layers, pushed with
//! [`LayerStack::push_layer`], and above them the overlays, pushed with
//! [`LayerStack::push_overlay`]. Events and updates go through the stack from the
//! top down: overlays first, the most recently pushed one first, then the layers.
use vstd::prelude::*;

use crate::event::Event;

verus! {

/// A part of an application that is updated every frame and receives events.
pub trait Layer {
    /// Called when the layer is attached; does nothing unless overridden.
    fn on_attach(&self) {
    }

    /// Called when the layer is detached; does nothing unless overridden.
    fn on_detach(&self) {
    }

    /// Called once per frame.
    fn on_update(&self);

    /// How this layer changes an event it receives: it may turn `before` into
    /// `after`.
    spec fn event_step<E: Event + ?Sized>(&self, before: &E, after: &E) -> bool;

    /// Called with each event that reaches the layer.
    fn on_event<E: Event + ?Sized>(&self, event: &mut E)
        ensures
            self.event_step(&*old(event), &*final(event)),
    ;
}

/// An ordered stack of layers with overlays above them.
pub struct LayerStack<L> {
    layers: Vec<L>,
    layer_insert_index: usize,
}

impl<L> LayerStack<L> {
    /// Everything in the stack, from the bottom up.
    pub closed spec fn items(&self) -> Seq<L> {
        self.layers@
    }

    /// The number of layers (the overlays not counted); they are the first
    /// `insert_index()` items.
    pub closed spec fn insert_index(&self) -> nat {
        self.layer_insert_index as nat
    }

    /// The layers, from the bottom up.
    pub open spec fn layer_items(&self) -> Seq<L> {
        self.items().take(self.insert_index() as int)
    }

    /// The overlays, from the bottom up.
    pub open spec fn overlay_items(&self) -> Seq<L> {
        self.items().skip(self.insert_index() as int)
    }

    /// The layers never outnumber the items.
    #[verifier::type_invariant]
    spec fn wf(&self) -> bool {
        self.layer_insert_index <= self.layers@.len()
    }

    /// An empty stack.
    pub fn new() -> (s: Self)
        ensures
            s.items() == Seq::<L>::empty(),
            s.insert_index() == 0,
    {
        LayerStack { layers: Vec::new(), layer_insert_index: 0 }
    }

    /// Puts `layer` above all layers and below all overlays.
    pub fn push_layer(&mut self, layer: L)
        ensures
            final(self).items() == old(self).items().insert(old(self).insert_index() as int, layer),
            final(self).insert_index() == old(self).insert_index() + 1,
            final(self).layer_items() == old(self).layer_items().push(layer),
            final(self).overlay_items() == old(self).overlay_items(),
    {
        let mut taken = LayerStack::new();
        std::mem::swap(&mut taken, self);
        proof {
            use_type_invariant(&taken);
        }
        let LayerStack { mut layers, layer_insert_index } = taken;
        proof {
            lemma_push_keeps_groups(layers@, layer_insert_index as nat, layer);
        }
        layers.insert(layer_insert_index, layer);
        let n = layers.len();
        assert(layer_insert_index < n);
        *self = LayerStack { layers, layer_insert_index: layer_insert_index + 1 };
    }

    /// Puts `overlay` on top of the stack.
    pub fn push_overlay(&mut self, overlay: L)
        ensures
            final(self).items() == old(self).items().push(overlay),
            final(self).insert_index() == old(self).insert_index(),
            final(self).layer_items() == old(self).layer_items(),
            final(self).overlay_items() == old(self).overlay_items().push(overlay),
    {
        let mut taken = LayerStack::new();
        std::mem::swap(&mut taken, self);
        proof {
            use_type_invariant(&taken);
        }
        let LayerStack { mut layers, layer_insert_index } = taken;
        proof {
            lemma_push_keeps_groups(layers@, layer_insert_index as nat, overlay);
        }
        layers.push(overlay);
        *self = LayerStack { layers, layer_insert_index };
    }

    /// Runs the layers; it does nothing.
    pub fn run_layers(&self) {
    }

    /// The number of items in the stack.
    pub fn len(&self) -> (n: usize)
        ensures
            n == self.items().len(),
            self.insert_index() <= n,
    {
        proof {
            use_type_invariant(self);
        }
        self.layers.len()
    }

    /// An iterator over the stack from the top down.
    pub fn iter(&self) -> (it: LayerStackIter<'_, L>)
        ensures
            it.stack() == self.items(),
            it.index() == self.items().len(),
            it.remaining() == self.items().reverse(),
    {
        proof {
            use_type_invariant(self);
            assert(self.layers@.take(self.layers@.len() as int) =~= self.layers@);
        }
        LayerStackIter { stack: &self.layers, index: self.layers.len() }
    }
}

/// Pushing a layer keeps the overlays as they were and adds the layer on top of
/// the layers; pushing an overlay keeps the layers and adds it on top of the
/// overlays.
pub proof fn lemma_push_keeps_groups<L>(layers: Seq<L>, index: nat, item: L)
    requires
        index <= layers.len(),
    ensures
        layers.insert(index as int, item).take((index + 1) as int) == layers.take(index as int).push(item),
        layers.insert(index as int, item).skip((index + 1) as int) == layers.skip(index as int),
        layers.push(item).take(index as int) == layers.take(index as int),
        layers.push(item).skip(index as int) == layers.skip(index as int).push(item),
{
    assert(layers.insert(index as int, item).take((index + 1) as int) =~= layers.take(index as int).push(
        item,
    ));
    assert(layers.insert(index as int, item).skip((index + 1) as int) =~= layers.skip(index as int));
    assert(layers.push(item).take(index as int) =~= layers.take(index as int));
    assert(layers.push(item).skip(index as int) =~= layers.skip(index as int).push(item));
}

/// Going through the stack from the top down meets the overlays first, the last
/// pushed first, then the layers, the last pushed first.
pub proof fn lemma_top_down_order<L>(items: Seq<L>, index: nat)
    requires
        index <= items.len(),
    ensures
        items.reverse() == items.skip(index as int).reverse() + items.take(index as int).reverse(),
{
    assert(items.reverse() =~= items.skip(index as int).reverse() + items.take(
        index as int,
    ).reverse());
}

/// What remains of an iteration after one more step: the first item is gone,
/// or nothing was left and nothing is.
pub open spec fn step_remaining<L>(remaining: Seq<L>) -> Seq<L> {
    if remaining.len() > 0 {
        remaining.drop_first()
    } else {
        remaining
    }
}

/// What remains of an iteration after `k` more steps.
pub open spec fn remaining_after<L>(remaining: Seq<L>, k: nat) -> Seq<L>
    decreases k,
{
    if k == 0 {
        remaining
    } else {
        step_remaining(remaining_after(remaining, (k - 1) as nat))
    }
}

/// Calling `next` again and again on `stack.iter()` for a stack of `n` items:
/// the call numbered `k` (from `0`) sees `remaining_after(items.reverse(), k)`,
/// so for `k < n` it returns the item `n - 1 - k` from the bottom, and from
/// the call numbered `n` on nothing remains and every call returns `None`.
pub proof fn lemma_repeated_next<L>(items: Seq<L>, k: nat)
    ensures
        k < items.len() ==> remaining_after(items.reverse(), k).len() > 0 && remaining_after(
            items.reverse(),
            k,
        )[0] == items[items.len() - 1 - k],
        k >= items.len() ==> remaining_after(items.reverse(), k).len() == 0,
{
    lemma_remaining_after_skip(items.reverse(), k);
}

proof fn lemma_remaining_after_skip<L>(remaining: Seq<L>, k: nat)
    ensures
        k <= remaining.len() ==> remaining_after(remaining, k) == remaining.skip(k as int),
        k > remaining.len() ==> remaining_after(remaining, k).len() == 0,
    decreases k,
{
    if k == 0 {
        assert(remaining.skip(0) =~= remaining);
    } else {
        lemma_remaining_after_skip(remaining, (k - 1) as nat);
        if k <= remaining.len() {
            assert(remaining.skip(k - 1).drop_first() =~= remaining.skip(k as int));
        } else if k - 1 == remaining.len() {
            assert(remaining.skip(k - 1).len() == 0);
        }
    }
}

/// An iterator over a stack yields, at its `k`-th step, the `k`-th item from
/// the top.
pub proof fn lemma_yields_top_down<L>(items: Seq<L>, k: int)
    requires
        0 <= k < items.len(),
    ensures
        items.reverse()[k] == items[items.len() - 1 - k],
{
}

/// An iterator over a layer stack from the top down.
pub struct LayerStackIter<'a, L> {
    stack: &'a Vec<L>,
    index: usize,
}

impl<'a, L> LayerStackIter<'a, L> {
    /// The items of the stack that is gone through, from the bottom up.
    pub closed spec fn stack(&self) -> Seq<L> {
        self.stack@
    }

    /// How many items are still to come; the next one is `stack()[index() - 1]`.
    pub closed spec fn index(&self) -> nat {
        self.index as nat
    }

    /// The items still to come, in the order they come: from the top down.
    pub closed spec fn remaining(&self) -> Seq<L> {
        self.stack@.take(self.index as int).reverse()
    }

    #[verifier::type_invariant]
    spec fn wf(&self) -> bool {
        self.index <= self.stack@.len()
    }

    /// The next item from the top down, or `None` once the bottom is passed.
    pub fn next(&mut self) -> (r: Option<&'a L>)
        ensures
            final(self).stack() == old(self).stack(),
            old(self).index() > 0 ==> final(self).index() == old(self).index() - 1 && r == Some(
                &old(self).stack()[old(self).index() - 1],
            ),
            old(self).index() == 0 ==> final(self).index() == 0 && r is None,
            old(self).remaining().len() > 0 ==> r == Some(&old(self).remaining()[0])
                && final(self).remaining() == old(self).remaining().drop_first(),
            old(self).remaining().len() == 0 ==> r is None && final(self).remaining().len() == 0,
            final(self).remaining() == step_remaining(old(self).remaining()),
    {
        proof {
            use_type_invariant(&*self);
        }
        proof {
            let s = self.stack@;
            let i = self.index as int;
            if i > 0 {
                assert(s.take(i).reverse()[0] == s[i - 1]);
                assert(s.take(i - 1).reverse() =~= s.take(i).reverse().drop_first());
            }
        }
        if self.index > 0 {
            self.index = self.index - 1;
            Some(&self.stack[self.index])
        } else {
            None
        }
    }
}

} // verus!
