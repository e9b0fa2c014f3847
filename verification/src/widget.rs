//! Widgets: the polymorphic units of interactivity.
//!
//! A widget owns a region, a visual payload and an optional navigation
//! intent. The two concrete kinds are a button, which fires its
//! navigation action on pointer release, and an editable text field,
//! which focuses on click and accepts typed characters while focused.
//! A handler never mutates siblings or the container structure: the only
//! channel for "change the screen" is the returned [`NavigationAction`].

use vstd::prelude::*;

use crate::fonts::FontHandle;
use crate::geometry::{Point, Region};

verus! {

/// An opaque RGB colour, handed through to the external renderer.
#[derive(Clone, Copy, PartialEq, Eq, Structural, Debug)]
pub struct Color {
    pub red: u8,
    pub green: u8,
    pub blue: u8,
}

impl Color {
    pub fn from_rgb(red: u8, green: u8, blue: u8) -> (c: Color)
        ensures
            c == (Color { red, green, blue }),
    {
        Color { red, green, blue }
    }

    /// Pure blue, the default text colour of the demo screens.
    pub fn blue() -> (c: Color)
        ensures
            c == (Color { red: 0, green: 0, blue: 255 }),
    {
        Color { red: 0, green: 0, blue: 255 }
    }
}

/// How a text-bearing widget aligns its text inside its region; handed
/// through to the external renderer.
#[derive(Clone, Copy, PartialEq, Eq, Structural, Debug)]
pub enum TextAlignment {
    Left,
    Center,
    Right,
}

/// The navigable screens of this application. A navigation action names
/// its target screen symbolically, so that mutually reachable screens can
/// be rebuilt on demand instead of forming a cyclic structure.
#[derive(Clone, Copy, PartialEq, Eq, Structural, Debug)]
pub enum ScreenId {
    MainMenu,
    SimpleMenu,
    OverlappingEditMenu,
}

/// A value returned by a widget handler meaning "replace the active
/// container with the named screen". It is captured, not executed, in
/// the handler's own call frame and applied by the container manager
/// only after dispatch has fully returned. A handler captures only plain
/// values needed to build the next screen: here the target and the font
/// to build it with.
#[derive(Clone, Copy, PartialEq, Eq, Structural, Debug)]
pub struct NavigationAction {
    pub target: ScreenId,
    pub font: FontHandle,
}

/// The kinds of raw pointer event delivered by the host surface, already
/// translated into the virtual coordinate space.
#[derive(Clone, Copy, PartialEq, Eq, Structural, Debug)]
pub enum PointerEventKind {
    Press,
    Release,
    Move,
}

/// One interactive widget.
#[derive(Debug)]
pub struct Widget {
    pub region: Region,
    pub kind: WidgetKind,
}

/// The closed set of concrete widget kinds. Dispatch never special-cases
/// a kind beyond this tagged union: the container machinery only ever
/// uses the "handle the event, maybe return a navigation" capability.
#[derive(Debug)]
pub enum WidgetKind {
    /// Stateless; fires its navigation intent on release inside its
    /// region and ignores typed input.
    Button {
        label: String,
        color: Color,
        font: FontHandle,
        alignment: TextAlignment,
        on_click: Option<NavigationAction>,
    },
    /// Maintains a text buffer and focus state; focuses on click and
    /// accepts character input only while focused.
    EditField { text: Vec<char>, font: FontHandle, focused: bool },
}

/// The mathematical value of a widget.
#[verifier::ext_equal]
pub struct WidgetV {
    pub region: Region,
    pub kind: WidgetKindV,
}

/// The mathematical value of a widget's kind.
#[verifier::ext_equal]
pub enum WidgetKindV {
    Button {
        label: Seq<char>,
        color: Color,
        font: FontHandle,
        alignment: TextAlignment,
        on_click: Option<NavigationAction>,
    },
    EditField { text: Seq<char>, font: FontHandle, focused: bool },
}

impl View for Widget {
    type V = WidgetV;

    open spec fn view(&self) -> WidgetV {
        WidgetV {
            region: self.region,
            kind: match self.kind {
                WidgetKind::Button { label, color, font, alignment, on_click } => WidgetKindV::Button {
                    label: label@,
                    color,
                    font,
                    alignment,
                    on_click,
                },
                WidgetKind::EditField { text, font, focused } => WidgetKindV::EditField {
                    text: text@,
                    font,
                    focused,
                },
            },
        }
    }
}

impl WidgetV {
    /// A widget is well formed when its region is.
    pub open spec fn wf(self) -> bool {
        self.region.wf()
    }

    /// Whether the widget currently holds keyboard focus.
    pub open spec fn has_focus(self) -> bool {
        match self.kind {
            WidgetKindV::EditField { focused, .. } => focused,
            _ => false,
        }
    }
}

/// The widget's state after it handles a pointer event inside its
/// region: a button is untouched; an edit field focuses on press.
pub open spec fn widget_after_pointer(w: WidgetV, k: PointerEventKind) -> WidgetV {
    match w.kind {
        WidgetKindV::EditField { text, font, focused } => {
            if k is Press {
                WidgetV { region: w.region, kind: WidgetKindV::EditField { text, font, focused: true } }
            } else {
                w
            }
        },
        _ => w,
    }
}

/// The navigation a widget returns for a pointer event inside its
/// region: a button fires its intent on release; everything else is
/// absorbed.
pub open spec fn widget_pointer_nav(w: WidgetV, k: PointerEventKind) -> Option<NavigationAction> {
    match w.kind {
        WidgetKindV::Button { on_click, .. } => if k is Release {
            on_click
        } else {
            None
        },
        _ => None,
    }
}

/// The widget's state after a typed character is delivered to it while
/// it holds focus: an edit field appends the character.
pub open spec fn widget_after_key(w: WidgetV, ch: char) -> WidgetV {
    match w.kind {
        WidgetKindV::EditField { text, font, focused } => WidgetV {
            region: w.region,
            kind: WidgetKindV::EditField { text: text.push(ch), font, focused },
        },
        _ => w,
    }
}

impl Widget {
    /// A button with a text label and an optional navigation intent.
    pub fn new_button(
        region: Region,
        label: &str,
        color: Color,
        font: FontHandle,
        alignment: TextAlignment,
        on_click: Option<NavigationAction>,
    ) -> (w: Widget)
        ensures
            w@ == (WidgetV {
                region,
                kind: WidgetKindV::Button { label: label@, color, font, alignment, on_click },
            }),
    {
        Widget {
            region,
            kind: WidgetKind::Button { label: label.to_owned(), color, font, alignment, on_click },
        }
    }

    /// An unfocused editable text field with an initial text buffer.
    pub fn new_edit_field(region: Region, text: &str, font: FontHandle) -> (w: Widget)
        ensures
            w@ == (WidgetV {
                region,
                kind: WidgetKindV::EditField { text: text@, font, focused: false },
            }),
    {
        Widget { region, kind: WidgetKind::EditField { text: chars_of(text), font, focused: false } }
    }

    /// Whether this widget currently holds keyboard focus.
    pub fn has_focus(&self) -> (r: bool)
        ensures
            r == self@.has_focus(),
    {
        match &self.kind {
            WidgetKind::EditField { focused, .. } => *focused,
            WidgetKind::Button { .. } => false,
        }
    }

    /// Current hit-test and paint bounds.
    pub fn region(&self) -> (r: Region)
        ensures
            r == self@.region,
    {
        self.region
    }

    /// Handles a pointer event that fell inside this widget's region.
    /// May mutate only this widget's own state; the returned value is the
    /// sole channel for requesting a screen change.
    pub fn on_pointer_event(&mut self, p: Point, k: PointerEventKind) -> (nav: Option<
        NavigationAction,
    >)
        requires
            old(self)@.region.spec_contains(p),
        ensures
            final(self)@ == widget_after_pointer(old(self)@, k),
            nav == widget_pointer_nav(old(self)@, k),
    {
        match &mut self.kind {
            WidgetKind::Button { on_click, .. } => {
                if k == PointerEventKind::Release {
                    *on_click
                } else {
                    None
                }
            },
            WidgetKind::EditField { focused, .. } => {
                if k == PointerEventKind::Press {
                    *focused = true;
                }
                None
            },
        }
    }

    /// Delivers a typed character to this widget, which holds focus.
    pub fn on_key_event(&mut self, ch: char) -> (nav: Option<NavigationAction>)
        requires
            old(self)@.has_focus(),
        ensures
            final(self)@ == widget_after_key(old(self)@, ch),
            nav is None,
    {
        match &mut self.kind {
            WidgetKind::EditField { text, .. } => {
                text.push(ch);
            },
            WidgetKind::Button { .. } => {},
        }
        None
    }
}

/// The characters of a string slice, as a vector.
pub fn chars_of(s: &str) -> (v: Vec<char>)
    ensures
        v@ == s@,
{
    let n = s.unicode_len();
    let mut v: Vec<char> = Vec::new();
    let mut i: usize = 0;
    while i < n
        invariant
            i <= n,
            n == s@.len(),
            v@ =~= s@.take(i as int),
        decreases n - i,
    {
        let c = s.get_char(i);
        v.push(c);
        i += 1;
    }
    proof {
        assert(s@.take(n as int) =~= s@);
    }
    v
}

} // verus!
