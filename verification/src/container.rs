//! Containers: full navigable screens composed of one layer (flat) or an
//! ordered stack of layers.
//!
//! The layer stack composites back-to-front (index 0 is the backmost)
//! and hit-tests front-to-back: the frontmost layer with a widget at the
//! event's point handles the event, and layers with no widget there are
//! transparent. Within a container, overlap is resolved by layer order
//! first and insertion order second; that two-level precedence is the
//! single source of truth for routing.

use vstd::prelude::*;

use crate::geometry::Point;
use crate::layer::{
    layer_after_key, layer_after_pointer, layer_pointer_nav, lemma_widgets_focused_props,
    lemma_widgets_hit_props, widgets_focused, widgets_hit, Layer, LayerV,
};
use crate::widget::{NavigationAction, PointerEventKind, WidgetV};

verus! {

/// A navigable screen: one layer, or a non-empty ordered stack of
/// layers.
#[derive(Debug)]
pub enum Container {
    Flat { layer: Layer },
    Layered { layers: Vec<Layer> },
}

/// The mathematical values of a sequence of layers.
pub open spec fn layers_seq_view(s: Seq<Layer>) -> Seq<LayerV> {
    Seq::new(s.len(), |i: int| s[i]@)
}

/// The mathematical value of a container.
#[verifier::ext_equal]
pub enum ContainerV {
    Flat { layer: LayerV },
    Layered { layers: Seq<LayerV> },
}

impl View for Container {
    type V = ContainerV;

    open spec fn view(&self) -> ContainerV {
        match self {
            Container::Flat { layer } => ContainerV::Flat { layer: layer@ },
            Container::Layered { layers } => ContainerV::Layered {
                layers: layers_seq_view(layers@),
            },
        }
    }
}

/// The container's layers as one back-to-front sequence, regardless of
/// variant.
pub open spec fn cont_layers(c: ContainerV) -> Seq<LayerV> {
    match c {
        ContainerV::Flat { layer } => seq![layer],
        ContainerV::Layered { layers } => layers,
    }
}

/// The same container variant over a replaced layer sequence.
pub open spec fn with_layers(c: ContainerV, ls: Seq<LayerV>) -> ContainerV {
    match c {
        ContainerV::Flat { .. } => ContainerV::Flat { layer: ls[0] },
        ContainerV::Layered { .. } => ContainerV::Layered { layers: ls },
    }
}

impl ContainerV {
    /// The container's invariant: a layered stack is non-empty, and
    /// every widget's region is well formed.
    pub open spec fn wf(self) -> bool {
        &&& cont_layers(self).len() > 0
        &&& forall|i: int|
            0 <= i < cont_layers(self).len() ==> (#[trigger] cont_layers(self)[i]).wf()
    }
}

/// Which layer and widget win hit-testing at `p`: the frontmost layer
/// (highest index) with any widget at `p`, and within it the widget with
/// the highest insertion index there.
pub open spec fn layers_hit(ls: Seq<LayerV>, p: Point) -> Option<(int, int)>
    decreases ls.len(),
{
    if ls.len() == 0 {
        None
    } else {
        match widgets_hit(ls.last().widgets, p) {
            Some(w) => Some((ls.len() - 1, w)),
            None => layers_hit(ls.drop_last(), p),
        }
    }
}

/// Which layer and widget receive typed input: the frontmost layer with
/// a focused widget, and within it the frontmost focused widget.
pub open spec fn layers_focused(ls: Seq<LayerV>) -> Option<(int, int)>
    decreases ls.len(),
{
    if ls.len() == 0 {
        None
    } else {
        match widgets_focused(ls.last().widgets) {
            Some(w) => Some((ls.len() - 1, w)),
            None => layers_focused(ls.drop_last()),
        }
    }
}

/// The container's state after a pointer event at `p`: only the winning
/// layer changes, and within it only the winning widget.
pub open spec fn cont_after_pointer(c: ContainerV, p: Point, k: PointerEventKind) -> ContainerV {
    let ls = cont_layers(c);
    match layers_hit(ls, p) {
        None => c,
        Some((li, wi)) => with_layers(c, ls.update(li, layer_after_pointer(ls[li], p, k))),
    }
}

/// The navigation the container returns for a pointer event at `p`: the
/// winning widget's answer; with no hit anywhere the event is silently
/// absorbed.
pub open spec fn cont_pointer_nav(c: ContainerV, p: Point, k: PointerEventKind) -> Option<
    NavigationAction,
> {
    let ls = cont_layers(c);
    match layers_hit(ls, p) {
        None => None,
        Some((li, wi)) => layer_pointer_nav(ls[li], p, k),
    }
}

/// The container's state after a typed character: only the focused
/// widget receives it.
pub open spec fn cont_after_key(c: ContainerV, ch: char) -> ContainerV {
    let ls = cont_layers(c);
    match layers_focused(ls) {
        None => c,
        Some((li, wi)) => with_layers(c, ls.update(li, layer_after_key(ls[li], ch))),
    }
}

/// A hit names a layer with a widget at `p`, and every layer in front of
/// it has none; a miss means no layer has a widget at `p`.
pub proof fn lemma_layers_hit_props(ls: Seq<LayerV>, p: Point)
    ensures
        match layers_hit(ls, p) {
            Some((li, wi)) => {
                &&& 0 <= li < ls.len()
                &&& widgets_hit(ls[li].widgets, p) == Some(wi)
                &&& forall|lj: int|
                    li < lj < ls.len() ==> widgets_hit((#[trigger] ls[lj]).widgets, p) is None
            },
            None => forall|lj: int|
                0 <= lj < ls.len() ==> widgets_hit((#[trigger] ls[lj]).widgets, p) is None,
        },
    decreases ls.len(),
{
    if ls.len() > 0 && widgets_hit(ls.last().widgets, p) is None {
        lemma_layers_hit_props(ls.drop_last(), p);
        assert forall|lj: int| 0 <= lj < ls.len() - 1 implies ls.drop_last()[lj] == ls[lj] by {}
    }
}

/// The focused position names a focused widget's layer, and every layer
/// in front of it has no focused widget.
pub proof fn lemma_layers_focused_props(ls: Seq<LayerV>)
    ensures
        match layers_focused(ls) {
            Some((li, wi)) => {
                &&& 0 <= li < ls.len()
                &&& widgets_focused(ls[li].widgets) == Some(wi)
                &&& forall|lj: int|
                    li < lj < ls.len() ==> widgets_focused((#[trigger] ls[lj]).widgets) is None
            },
            None => forall|lj: int|
                0 <= lj < ls.len() ==> widgets_focused((#[trigger] ls[lj]).widgets) is None,
        },
    decreases ls.len(),
{
    if ls.len() > 0 && widgets_focused(ls.last().widgets) is None {
        lemma_layers_focused_props(ls.drop_last());
        assert forall|lj: int| 0 <= lj < ls.len() - 1 implies ls.drop_last()[lj] == ls[lj] by {}
    }
}

/// The two-level precedence rule, stated in full: when dispatch selects
/// a widget, that widget's region contains the point, no layer in front
/// of its layer has any widget at the point, and no widget inserted
/// later in the same layer contains the point. When dispatch selects
/// nothing, no widget of any layer contains the point.
pub proof fn lemma_dispatch_precedence(c: ContainerV, p: Point)
    ensures
        match layers_hit(cont_layers(c), p) {
            Some((li, wi)) => {
                &&& 0 <= li < cont_layers(c).len()
                &&& 0 <= wi < cont_layers(c)[li].widgets.len()
                &&& cont_layers(c)[li].widgets[wi].region.spec_contains(p)
                &&& forall|lj: int, wj: int|
                    li < lj < cont_layers(c).len() && 0 <= wj < cont_layers(c)[lj].widgets.len()
                        ==> !(#[trigger] cont_layers(c)[lj].widgets[wj]).region.spec_contains(p)
                &&& forall|wj: int|
                    wi < wj < cont_layers(c)[li].widgets.len() ==> !(#[trigger] cont_layers(
                        c,
                    )[li].widgets[wj]).region.spec_contains(p)
            },
            None => forall|lj: int, wj: int|
                0 <= lj < cont_layers(c).len() && 0 <= wj < cont_layers(c)[lj].widgets.len()
                    ==> !(#[trigger] cont_layers(c)[lj].widgets[wj]).region.spec_contains(p),
        },
{
    let ls = cont_layers(c);
    lemma_layers_hit_props(ls, p);
    match layers_hit(ls, p) {
        Some((li, wi)) => {
            lemma_widgets_hit_props(ls[li].widgets, p);
            assert forall|lj: int, wj: int|
                li < lj < ls.len() && 0 <= wj < ls[lj].widgets.len() implies !(
            #[trigger] ls[lj].widgets[wj]).region.spec_contains(p) by {
                lemma_widgets_hit_props(ls[lj].widgets, p);
            }
        },
        None => {
            assert forall|lj: int, wj: int|
                0 <= lj < ls.len() && 0 <= wj < ls[lj].widgets.len() implies !(
            #[trigger] ls[lj].widgets[wj]).region.spec_contains(p) by {
                lemma_widgets_hit_props(ls[lj].widgets, p);
            }
        },
    }
}

/// Routing a pointer event preserves the container's invariant: the
/// handled widget keeps its region, and nothing else changes.
pub proof fn lemma_after_pointer_wf(c: ContainerV, p: Point, k: PointerEventKind)
    requires
        c.wf(),
    ensures
        cont_after_pointer(c, p, k).wf(),
{
    let ls = cont_layers(c);
    lemma_layers_hit_props(ls, p);
    match layers_hit(ls, p) {
        None => {},
        Some((li, wi)) => {
            lemma_widgets_hit_props(ls[li].widgets, p);
            let c2 = cont_after_pointer(c, p, k);
            assert(cont_layers(c2) =~= ls.update(li, layer_after_pointer(ls[li], p, k)));
            assert forall|i: int| 0 <= i < cont_layers(c2).len() implies (#[trigger] cont_layers(
                c2,
            )[i]).wf() by {
                if i == li {
                    let l2 = layer_after_pointer(ls[li], p, k);
                    assert forall|j: int| 0 <= j < l2.widgets.len() implies (
                    #[trigger] l2.widgets[j]).wf() by {
                        assert(ls[li].widgets[j].wf());
                    }
                }
            }
        },
    }
}

/// Routing a typed character preserves the container's invariant.
pub proof fn lemma_after_key_wf(c: ContainerV, ch: char)
    requires
        c.wf(),
    ensures
        cont_after_key(c, ch).wf(),
{
    let ls = cont_layers(c);
    lemma_layers_focused_props(ls);
    match layers_focused(ls) {
        None => {},
        Some((li, wi)) => {
            lemma_widgets_focused_props(ls[li].widgets);
            let c2 = cont_after_key(c, ch);
            assert(cont_layers(c2) =~= ls.update(li, layer_after_key(ls[li], ch)));
            assert forall|i: int| 0 <= i < cont_layers(c2).len() implies (#[trigger] cont_layers(
                c2,
            )[i]).wf() by {
                if i == li {
                    let l2 = layer_after_key(ls[li], ch);
                    assert forall|j: int| 0 <= j < l2.widgets.len() implies (
                    #[trigger] l2.widgets[j]).wf() by {
                        assert(ls[li].widgets[j].wf());
                    }
                }
            }
        },
    }
}

impl Container {
    /// A screen with a single layer.
    pub fn new_flat(layer: Layer) -> (c: Container)
        ensures
            c@ == (ContainerV::Flat { layer: layer@ }),
            layer@.wf() ==> c@.wf(),
    {
        Container::Flat { layer }
    }

    /// A screen with a non-empty stack of layers, backmost first.
    pub fn new_layered(layers: Vec<Layer>) -> (c: Container)
        requires
            layers@.len() > 0,
        ensures
            c@ == (ContainerV::Layered { layers: layers_seq_view(layers@) }),
            (forall|i: int| 0 <= i < layers@.len() ==> (#[trigger] layers@[i]@).wf()) ==> c@.wf(),
    {
        Container::Layered { layers }
    }

    /// Routes a pointer event: the frontmost layer with a widget at `p`
    /// handles it; layers with no widget there are transparent; with no
    /// hit anywhere the event is silently absorbed.
    pub fn dispatch(&mut self, p: Point, k: PointerEventKind) -> (nav: Option<NavigationAction>)
        ensures
            final(self)@ =~= cont_after_pointer(old(self)@, p, k),
            nav == cont_pointer_nav(old(self)@, p, k),
    {
        proof {
            assert(layers_hit(Seq::<LayerV>::empty(), p) is None);
        }
        match self {
            Container::Flat { layer } => {
                proof {
                    assert(seq![old(self)@->Flat_layer].drop_last() =~= Seq::<LayerV>::empty());
                }
                layer.dispatch_pointer(p, k)
            },
            Container::Layered { layers } => dispatch_pointer_layers(layers, p, k),
        }
    }

    /// Routes a typed character to the focused widget, if any.
    pub fn dispatch_key(&mut self, ch: char) -> (nav: Option<NavigationAction>)
        ensures
            final(self)@ =~= cont_after_key(old(self)@, ch),
            nav is None,
    {
        proof {
            assert(layers_focused(Seq::<LayerV>::empty()) is None);
        }
        match self {
            Container::Flat { layer } => {
                proof {
                    assert(seq![old(self)@->Flat_layer].drop_last() =~= Seq::<LayerV>::empty());
                }
                layer.dispatch_key(ch)
            },
            Container::Layered { layers } => dispatch_key_layers(layers, ch),
        }
    }
}

/// Front-to-back pointer routing over a layer stack.
fn dispatch_pointer_layers(layers: &mut Vec<Layer>, p: Point, k: PointerEventKind) -> (nav: Option<
    NavigationAction,
>)
    ensures
        match layers_hit(layers_seq_view(old(layers)@), p) {
            None => {
                &&& final(layers)@ == old(layers)@
                &&& nav is None
            },
            Some((li, wi)) => {
                &&& layers_seq_view(final(layers)@) =~= layers_seq_view(old(layers)@).update(
                    li,
                    layer_after_pointer(layers_seq_view(old(layers)@)[li], p, k),
                )
                &&& nav == layer_pointer_nav(layers_seq_view(old(layers)@)[li], p, k)
            },
        },
{
    let ghost ls = layers_seq_view(old(layers)@);
    let mut li: usize = layers.len();
    proof {
        assert(ls.take(li as int) =~= ls);
    }
    while li > 0
        invariant
            *layers == *old(layers),
            ls == layers_seq_view(layers@),
            li <= ls.len(),
            layers_hit(ls, p) == layers_hit(ls.take(li as int), p),
        decreases li,
    {
        li -= 1;
        proof {
            assert(ls.take(li as int + 1).last() == ls[li as int]);
            assert(ls.take(li as int + 1).drop_last() =~= ls.take(li as int));
        }
        let hit = layers[li].hit_test(p);
        if hit.is_some() {
            let layer = &mut layers[li];
            let nav = layer.dispatch_pointer(p, k);
            proof {
                assert(layers_seq_view(layers@) =~= ls.update(
                    li as int,
                    layer_after_pointer(ls[li as int], p, k),
                ));
            }
            return nav;
        }
    }
    proof {
        assert(ls.take(0) =~= Seq::<LayerV>::empty());
        assert(layers_hit(Seq::<LayerV>::empty(), p) is None);
    }
    None
}

/// Front-to-back key routing over a layer stack: the frontmost layer
/// holding a focused widget receives the character.
fn dispatch_key_layers(layers: &mut Vec<Layer>, ch: char) -> (nav: Option<NavigationAction>)
    ensures
        match layers_focused(layers_seq_view(old(layers)@)) {
            None => {
                &&& final(layers)@ == old(layers)@
                &&& nav is None
            },
            Some((li, wi)) => {
                &&& layers_seq_view(final(layers)@) =~= layers_seq_view(old(layers)@).update(
                    li,
                    layer_after_key(layers_seq_view(old(layers)@)[li], ch),
                )
                &&& nav is None
            },
        },
{
    let ghost ls = layers_seq_view(old(layers)@);
    let mut li: usize = layers.len();
    proof {
        assert(ls.take(li as int) =~= ls);
    }
    while li > 0
        invariant
            *layers == *old(layers),
            ls == layers_seq_view(layers@),
            li <= ls.len(),
            layers_focused(ls) == layers_focused(ls.take(li as int)),
        decreases li,
    {
        li -= 1;
        proof {
            assert(ls.take(li as int + 1).last() == ls[li as int]);
            assert(ls.take(li as int + 1).drop_last() =~= ls.take(li as int));
        }
        if layer_has_focus(&layers[li]) {
            let layer = &mut layers[li];
            let nav = layer.dispatch_key(ch);
            proof {
                assert(layers_seq_view(layers@) =~= ls.update(
                    li as int,
                    layer_after_key(ls[li as int], ch),
                ));
            }
            return nav;
        }
    }
    proof {
        assert(ls.take(0) =~= Seq::<LayerV>::empty());
        assert(layers_focused(Seq::<LayerV>::empty()) is None);
    }
    None
}

/// Whether any widget of the layer holds keyboard focus.
fn layer_has_focus(l: &Layer) -> (r: bool)
    ensures
        r == (widgets_focused(l@.widgets) is Some),
{
    let n = l.widgets.len();
    let mut i: usize = n;
    proof {
        assert(l@.widgets.take(i as int) =~= l@.widgets);
    }
    while i > 0
        invariant
            i <= l@.widgets.len(),
            widgets_focused(l@.widgets) == widgets_focused(l@.widgets.take(i as int)),
        decreases i,
    {
        i -= 1;
        proof {
            assert(l@.widgets.take(i as int + 1).last() == l@.widgets[i as int]);
            assert(l@.widgets.take(i as int + 1).drop_last() =~= l@.widgets.take(i as int));
        }
        if l.widgets[i].has_focus() {
            return true;
        }
    }
    proof {
        assert(l@.widgets.take(0) =~= Seq::<WidgetV>::empty());
    }
    false
}

} // verus!
