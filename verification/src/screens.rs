//! The application's screens: a main menu and the two screens it
//! navigates to, built as plain containers.
//!
//! A navigation action names one of these screens symbolically; the
//! container manager rebuilds the named screen when it applies the
//! action. Each construction function is specified by a structural
//! predicate on the built container, which the end-to-end routing
//! contracts then reason over.

use vstd::prelude::*;

use crate::container::{Container, ContainerV};
use crate::fonts::{lookup, FontCache, FontDescription, FontDescriptionV, FontHandle};
use crate::geometry::Region;
use crate::layer::{add_simple_edit_field, add_simple_text_button, Layer};
use crate::widget::{Color, NavigationAction, ScreenId, TextAlignment, WidgetKindV, WidgetV};

verus! {

/// The description of the font every screen is rendered with.
pub open spec fn default_font_details_v() -> FontDescriptionV {
    FontDescriptionV { family: "Arial"@, style: ""@ }
}

/// The font description every screen is rendered with.
pub fn default_font_details() -> (d: FontDescription)
    ensures
        d@ =~= default_font_details_v(),
{
    FontDescription::from_str("", "Arial")
}

/// The handle of the default font, if it has been loaded into `cache`.
pub fn default_font(cache: &FontCache) -> (r: Option<FontHandle>)
    ensures
        r == lookup(cache@.entries, default_font_details_v()),
{
    let d = default_font_details();
    let r = cache.get_by_description(&d);
    proof {
        assert(d@ =~= default_font_details_v());
    }
    r
}

/// A button with the given bounds, label, navigation intent and the
/// demo's standard text styling.
pub open spec fn is_button(
    w: WidgetV,
    region: Region,
    label: Seq<char>,
    font: FontHandle,
    on_click: Option<NavigationAction>,
) -> bool {
    &&& w.region == region
    &&& w.kind matches WidgetKindV::Button {
        label: l,
        color,
        font: f,
        alignment,
        on_click: nav,
    } && l == label && color == (Color { red: 0, green: 0, blue: 255 }) && f == font && alignment
        == TextAlignment::Center && nav == on_click
}

/// An unfocused edit field with the given bounds and initial text.
pub open spec fn is_edit_field(w: WidgetV, region: Region, text: Seq<char>, font: FontHandle) -> bool {
    &&& w.region == region
    &&& w.kind matches WidgetKindV::EditField { text: t, font: f, focused } && t == text && f
        == font && !focused
}

/// The main menu: one green layer with two buttons, leading to the
/// simple screen and to the overlapping-edit-fields screen.
pub open spec fn is_main_menu(c: ContainerV, font: FontHandle) -> bool {
    &&& c matches ContainerV::Flat { layer }
    &&& (c->Flat_layer).background == Some(Color { red: 100, green: 200, blue: 50 })
    &&& (c->Flat_layer).widgets.len() == 2
    &&& is_button(
        (c->Flat_layer).widgets[0],
        Region { min_x: -8000i32, min_y: 5000i32, max_x: -4000i32, max_y: 7000i32 },
        "Simple components"@,
        font,
        Some(NavigationAction { target: ScreenId::SimpleMenu, font }),
    )
    &&& is_button(
        (c->Flat_layer).widgets[1],
        Region { min_x: -8000i32, min_y: 2000i32, max_x: -4000i32, max_y: 4000i32 },
        "overlapping edit fields"@,
        font,
        Some(NavigationAction { target: ScreenId::OverlappingEditMenu, font }),
    )
}

/// The simple screen: a back button and one edit field on a green
/// layer.
pub open spec fn is_simple_menu(c: ContainerV, font: FontHandle) -> bool {
    &&& c matches ContainerV::Flat { layer }
    &&& (c->Flat_layer).background == Some(Color { red: 100, green: 200, blue: 50 })
    &&& (c->Flat_layer).widgets.len() == 2
    &&& is_button(
        (c->Flat_layer).widgets[0],
        Region { min_x: -8000i32, min_y: 5000i32, max_x: -7000i32, max_y: 7000i32 },
        "Back"@,
        font,
        Some(NavigationAction { target: ScreenId::MainMenu, font }),
    )
    &&& is_edit_field(
        (c->Flat_layer).widgets[1],
        Region { min_x: -2000i32, min_y: -1500i32, max_x: 2000i32, max_y: 1500i32 },
        "Type..."@,
        font,
    )
}

/// The overlapping-edit-fields screen: three stacked layers whose edit
/// fields overlap at shared points, so that routing exercises the
/// two-level precedence rule.
pub open spec fn is_overlapping_edit_menu(c: ContainerV, font: FontHandle) -> bool {
    &&& c matches ContainerV::Layered { layers }
    &&& (c->Layered_layers).len() == 3
    &&& (c->Layered_layers)[0].background == Some(Color { red: 100, green: 200, blue: 200 })
    &&& (c->Layered_layers)[0].widgets.len() == 2
    &&& is_button(
        (c->Layered_layers)[0].widgets[0],
        Region { min_x: -8000i32, min_y: 5000i32, max_x: -7000i32, max_y: 7000i32 },
        "Back"@,
        font,
        Some(NavigationAction { target: ScreenId::MainMenu, font }),
    )
    &&& is_edit_field(
        (c->Layered_layers)[0].widgets[1],
        Region { min_x: -3000i32, min_y: -4000i32, max_x: 3000i32, max_y: -2000i32 },
        "Layer1"@,
        font,
    )
    &&& (c->Layered_layers)[1].background is None
    &&& (c->Layered_layers)[1].widgets.len() == 1
    &&& is_edit_field(
        (c->Layered_layers)[1].widgets[0],
        Region { min_x: -3000i32, min_y: -3000i32, max_x: 3000i32, max_y: -1000i32 },
        "Layer2"@,
        font,
    )
    &&& (c->Layered_layers)[2].background is None
    &&& (c->Layered_layers)[2].widgets.len() == 1
    &&& is_edit_field(
        (c->Layered_layers)[2].widgets[0],
        Region { min_x: -3000i32, min_y: -2000i32, max_x: 3000i32, max_y: 0i32 },
        "Layer3"@,
        font,
    )
}

/// The screen a navigation target names.
pub open spec fn is_screen(c: ContainerV, id: ScreenId, font: FontHandle) -> bool {
    match id {
        ScreenId::MainMenu => is_main_menu(c, font),
        ScreenId::SimpleMenu => is_simple_menu(c, font),
        ScreenId::OverlappingEditMenu => is_overlapping_edit_menu(c, font),
    }
}

/// Builds the main menu over the given font.
pub fn create_main_menu(font: FontHandle) -> (c: Container)
    ensures
        is_main_menu(c@, font),
        c@.wf(),
{
    let mut layer = Layer::new(Some(Color::from_rgb(100, 200, 50)));
    add_simple_text_button(
        &mut layer,
        -8000,
        5000,
        -4000,
        7000,
        "Simple components",
        Color::blue(),
        font,
        TextAlignment::Center,
        Some(NavigationAction { target: ScreenId::SimpleMenu, font }),
    );
    add_simple_text_button(
        &mut layer,
        -8000,
        2000,
        -4000,
        4000,
        "overlapping edit fields",
        Color::blue(),
        font,
        TextAlignment::Center,
        Some(NavigationAction { target: ScreenId::OverlappingEditMenu, font }),
    );
    Container::new_flat(layer)
}

/// Builds the simple screen over the given font.
pub fn create_simple_menu(font: FontHandle) -> (c: Container)
    ensures
        is_simple_menu(c@, font),
        c@.wf(),
{
    let mut layer = Layer::new(Some(Color::from_rgb(100, 200, 50)));
    add_simple_text_button(
        &mut layer,
        -8000,
        5000,
        -7000,
        7000,
        "Back",
        Color::blue(),
        font,
        TextAlignment::Center,
        Some(NavigationAction { target: ScreenId::MainMenu, font }),
    );
    add_simple_edit_field(&mut layer, -2000, -1500, 2000, 1500, "Type...", font);
    Container::new_flat(layer)
}

/// Builds the overlapping-edit-fields screen over the given font.
pub fn create_overlapping_edit_menu(font: FontHandle) -> (c: Container)
    ensures
        is_overlapping_edit_menu(c@, font),
        c@.wf(),
{
    let mut layer1 = Layer::new(Some(Color::from_rgb(100, 200, 200)));
    let mut layer2 = Layer::new(None);
    let mut layer3 = Layer::new(None);
    add_simple_text_button(
        &mut layer1,
        -8000,
        5000,
        -7000,
        7000,
        "Back",
        Color::blue(),
        font,
        TextAlignment::Center,
        Some(NavigationAction { target: ScreenId::MainMenu, font }),
    );
    add_simple_edit_field(&mut layer1, -3000, -4000, 3000, -2000, "Layer1", font);
    add_simple_edit_field(&mut layer2, -3000, -3000, 3000, -1000, "Layer2", font);
    add_simple_edit_field(&mut layer3, -3000, -2000, 3000, 0, "Layer3", font);
    let mut layers: Vec<Layer> = Vec::new();
    layers.push(layer1);
    layers.push(layer2);
    layers.push(layer3);
    Container::new_layered(layers)
}

/// Builds the screen a navigation target names.
pub fn build_screen(id: ScreenId, font: FontHandle) -> (c: Container)
    ensures
        is_screen(c@, id, font),
        c@.wf(),
{
    match id {
        ScreenId::MainMenu => create_main_menu(font),
        ScreenId::SimpleMenu => create_simple_menu(font),
        ScreenId::OverlappingEditMenu => create_overlapping_edit_menu(font),
    }
}

} // verus!
