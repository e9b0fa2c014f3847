//! Layers: ordered, backgrounded groups of widgets painted and
//! hit-tested as a unit.
//!
//! Insertion order is paint order within the layer; on spatial overlap
//! the most recently inserted widget wins hit-testing, mirroring the
//! usual UI z-order.

use vstd::prelude::*;

use crate::fonts::FontHandle;
use crate::geometry::{Point, Region};
use crate::widget::{
    widget_after_key, widget_after_pointer, widget_pointer_nav, Color, NavigationAction,
    PointerEventKind, TextAlignment, Widget, WidgetKindV, WidgetV,
};

verus! {

/// A group of widgets sharing one optional background fill.
#[derive(Debug)]
pub struct Layer {
    pub background: Option<Color>,
    pub widgets: Vec<Widget>,
}

/// The mathematical value of a layer.
#[verifier::ext_equal]
pub struct LayerV {
    pub background: Option<Color>,
    pub widgets: Seq<WidgetV>,
}

impl View for Layer {
    type V = LayerV;

    open spec fn view(&self) -> LayerV {
        LayerV {
            background: self.background,
            widgets: Seq::new(self.widgets@.len(), |i: int| self.widgets@[i]@),
        }
    }
}

impl LayerV {
    pub open spec fn wf(self) -> bool {
        forall|i: int| 0 <= i < self.widgets.len() ==> (#[trigger] self.widgets[i]).wf()
    }
}

/// Index of the widget that wins hit-testing at `p` among `ws`: the one
/// with the highest insertion index whose region contains `p`, if any.
pub open spec fn widgets_hit(ws: Seq<WidgetV>, p: Point) -> Option<int>
    decreases ws.len(),
{
    if ws.len() == 0 {
        None
    } else if ws.last().region.spec_contains(p) {
        Some(ws.len() - 1)
    } else {
        widgets_hit(ws.drop_last(), p)
    }
}

/// Index of the widget that receives typed input among `ws`: the focused
/// widget with the highest insertion index, if any.
pub open spec fn widgets_focused(ws: Seq<WidgetV>) -> Option<int>
    decreases ws.len(),
{
    if ws.len() == 0 {
        None
    } else if ws.last().has_focus() {
        Some(ws.len() - 1)
    } else {
        widgets_focused(ws.drop_last())
    }
}

/// The layer's state after a pointer event at `p`: only the widget that
/// wins hit-testing handles the event; everything else is untouched.
pub open spec fn layer_after_pointer(l: LayerV, p: Point, k: PointerEventKind) -> LayerV {
    match widgets_hit(l.widgets, p) {
        None => l,
        Some(i) => LayerV {
            background: l.background,
            widgets: l.widgets.update(i, widget_after_pointer(l.widgets[i], k)),
        },
    }
}

/// The navigation the layer returns for a pointer event at `p`: the hit
/// widget's answer, or nothing when the point falls through to the
/// background.
pub open spec fn layer_pointer_nav(l: LayerV, p: Point, k: PointerEventKind) -> Option<
    NavigationAction,
> {
    match widgets_hit(l.widgets, p) {
        None => None,
        Some(i) => widget_pointer_nav(l.widgets[i], k),
    }
}

/// The layer's state after a typed character: only the focused widget
/// receives it.
pub open spec fn layer_after_key(l: LayerV, ch: char) -> LayerV {
    match widgets_focused(l.widgets) {
        None => l,
        Some(i) => LayerV {
            background: l.background,
            widgets: l.widgets.update(i, widget_after_key(l.widgets[i], ch)),
        },
    }
}

/// A hit names a widget whose region contains the point, and no widget
/// inserted later contains it; a miss means no widget contains it.
pub proof fn lemma_widgets_hit_props(ws: Seq<WidgetV>, p: Point)
    ensures
        match widgets_hit(ws, p) {
            Some(i) => {
                &&& 0 <= i < ws.len()
                &&& ws[i].region.spec_contains(p)
                &&& forall|j: int|
                    i < j < ws.len() ==> !(#[trigger] ws[j]).region.spec_contains(p)
            },
            None => forall|j: int|
                0 <= j < ws.len() ==> !(#[trigger] ws[j]).region.spec_contains(p),
        },
    decreases ws.len(),
{
    if ws.len() > 0 && !ws.last().region.spec_contains(p) {
        lemma_widgets_hit_props(ws.drop_last(), p);
        assert forall|j: int| 0 <= j < ws.len() - 1 implies ws.drop_last()[j] == ws[j] by {}
    }
}

/// The focused index names a focused widget, and no later widget is
/// focused; a miss means no widget holds focus.
pub proof fn lemma_widgets_focused_props(ws: Seq<WidgetV>)
    ensures
        match widgets_focused(ws) {
            Some(i) => {
                &&& 0 <= i < ws.len()
                &&& ws[i].has_focus()
                &&& forall|j: int| i < j < ws.len() ==> !(#[trigger] ws[j]).has_focus()
            },
            None => forall|j: int| 0 <= j < ws.len() ==> !(#[trigger] ws[j]).has_focus(),
        },
    decreases ws.len(),
{
    if ws.len() > 0 && !ws.last().has_focus() {
        lemma_widgets_focused_props(ws.drop_last());
        assert forall|j: int| 0 <= j < ws.len() - 1 implies ws.drop_last()[j] == ws[j] by {}
    }
}

/// Hit-testing is idempotent: any two hit-tests of the same unmutated
/// layer at the same point yield the same answer, because
/// [`Layer::hit_test`]'s contract pins its result to the pure function
/// [`widgets_hit`] of the layer's value and the point.
pub proof fn lemma_hit_test_idempotent(l: LayerV, p: Point, r1: Option<int>, r2: Option<int>)
    requires
        r1 == widgets_hit(l.widgets, p),
        r2 == widgets_hit(l.widgets, p),
    ensures
        r1 == r2,
{
}

impl Layer {
    /// An empty layer over an optional background fill.
    pub fn new(background: Option<Color>) -> (l: Layer)
        ensures
            l@.background == background,
            l@.widgets =~= Seq::<WidgetV>::empty(),
            l@.wf(),
    {
        Layer { background, widgets: Vec::new() }
    }

    /// Appends a widget; it becomes the frontmost of this layer.
    pub fn add_widget(&mut self, w: Widget)
        requires
            w@.wf(),
        ensures
            final(self)@.background == old(self)@.background,
            final(self)@.widgets =~= old(self)@.widgets.push(w@),
            old(self)@.wf() ==> final(self)@.wf(),
    {
        self.widgets.push(w);
        proof {
            assert(self@.widgets =~= old(self)@.widgets.push(w@));
        }
    }

    /// Scans widgets in reverse insertion order and returns the index of
    /// the first whose region contains `p`; `None` means the point falls
    /// through to the layer background.
    pub fn hit_test(&self, p: Point) -> (r: Option<usize>)
        ensures
            match r {
                Some(i) => widgets_hit(self@.widgets, p) == Some(i as int),
                None => widgets_hit(self@.widgets, p) is None,
            },
    {
        let mut i: usize = self.widgets.len();
        proof {
            assert(self@.widgets.take(i as int) =~= self@.widgets);
        }
        while i > 0
            invariant
                i <= self@.widgets.len(),
                widgets_hit(self@.widgets, p) == widgets_hit(self@.widgets.take(i as int), p),
            decreases i,
        {
            i -= 1;
            proof {
                assert(self@.widgets.take(i as int + 1).last() == self@.widgets[i as int]);
                assert(self@.widgets.take(i as int + 1).drop_last() =~= self@.widgets.take(
                    i as int,
                ));
            }
            if self.widgets[i].region().contains(p) {
                return Some(i);
            }
        }
        proof {
            assert(self@.widgets.take(0) =~= Seq::<WidgetV>::empty());
        }
        None
    }

    /// Routes a pointer event at `p` to the widget that wins
    /// hit-testing, if any, and hands back its navigation answer.
    pub fn dispatch_pointer(&mut self, p: Point, k: PointerEventKind) -> (nav: Option<
        NavigationAction,
    >)
        ensures
            final(self)@ =~= layer_after_pointer(old(self)@, p, k),
            nav == layer_pointer_nav(old(self)@, p, k),
    {
        let hit = self.hit_test(p);
        match hit {
            None => None,
            Some(i) => {
                proof {
                    lemma_widgets_hit_props(old(self)@.widgets, p);
                }
                let w = &mut self.widgets[i];
                let nav = w.on_pointer_event(p, k);
                proof {
                    assert(self@.widgets =~= old(self)@.widgets.update(
                        i as int,
                        widget_after_pointer(old(self)@.widgets[i as int], k),
                    ));
                }
                nav
            },
        }
    }

    /// Routes a typed character to the focused widget, if any.
    pub fn dispatch_key(&mut self, ch: char) -> (nav: Option<NavigationAction>)
        ensures
            final(self)@ =~= layer_after_key(old(self)@, ch),
            nav is None,
    {
        let n = self.widgets.len();
        let mut i: usize = n;
        proof {
            assert(self@.widgets.take(i as int) =~= self@.widgets);
        }
        while i > 0
            invariant
                *self == *old(self),
                i <= self@.widgets.len(),
                widgets_focused(self@.widgets) == widgets_focused(self@.widgets.take(i as int)),
            decreases i,
        {
            i -= 1;
            proof {
                assert(self@.widgets.take(i as int + 1).last() == self@.widgets[i as int]);
                assert(self@.widgets.take(i as int + 1).drop_last() =~= self@.widgets.take(
                    i as int,
                ));
            }
            if self.widgets[i].has_focus() {
                let w = &mut self.widgets[i];
                let nav = w.on_key_event(ch);
                proof {
                    assert(self@.widgets =~= old(self)@.widgets.update(
                        i as int,
                        widget_after_key(old(self)@.widgets[i as int], ch),
                    ));
                }
                return nav;
            }
        }
        proof {
            assert(self@.widgets.take(0) =~= Seq::<WidgetV>::empty());
        }
        None
    }

    /// The compositing order for the external renderer: widget indices
    /// in ascending insertion order (backmost first).
    pub fn paint_order(&self) -> (r: Vec<usize>)
        ensures
            r@.len() == self@.widgets.len(),
            forall|i: int| 0 <= i < r@.len() ==> (#[trigger] r@[i]) == i,
    {
        let n = self.widgets.len();
        let mut r: Vec<usize> = Vec::new();
        let mut i: usize = 0;
        while i < n
            invariant
                i <= n,
                r@.len() == i,
                forall|j: int| 0 <= j < i ==> (#[trigger] r@[j]) == j,
            decreases n - i,
        {
            r.push(i);
            i += 1;
        }
        r
    }
}

/// Builds a text button and appends it to `layer`: the coordinates give
/// the region corners, and the navigation intent to fire on click stands
/// in for a handler closure.
pub fn add_simple_text_button(
    layer: &mut Layer,
    min_x: i32,
    min_y: i32,
    max_x: i32,
    max_y: i32,
    text: &str,
    color: Color,
    font: FontHandle,
    alignment: TextAlignment,
    on_click: Option<NavigationAction>,
)
    requires
        min_x <= max_x,
        min_y <= max_y,
    ensures
        final(layer)@.background == old(layer)@.background,
        final(layer)@.widgets =~= old(layer)@.widgets.push(
            WidgetV {
                region: Region { min_x, min_y, max_x, max_y },
                kind: WidgetKindV::Button { label: text@, color, font, alignment, on_click },
            },
        ),
        old(layer)@.wf() ==> final(layer)@.wf(),
{
    let region = Region::new(min_x, min_y, max_x, max_y);
    let w = Widget::new_button(region, text, color, font, alignment, on_click);
    layer.add_widget(w);
}

/// Builds an unfocused edit field with an initial text buffer and
/// appends it to `layer`.
pub fn add_simple_edit_field(
    layer: &mut Layer,
    min_x: i32,
    min_y: i32,
    max_x: i32,
    max_y: i32,
    text: &str,
    font: FontHandle,
)
    requires
        min_x <= max_x,
        min_y <= max_y,
    ensures
        final(layer)@.background == old(layer)@.background,
        final(layer)@.widgets =~= old(layer)@.widgets.push(
            WidgetV {
                region: Region { min_x, min_y, max_x, max_y },
                kind: WidgetKindV::EditField { text: text@, font, focused: false },
            },
        ),
        old(layer)@.wf() ==> final(layer)@.wf(),
{
    let region = Region::new(min_x, min_y, max_x, max_y);
    let w = Widget::new_edit_field(region, text, font);
    layer.add_widget(w);
}

} // verus!
