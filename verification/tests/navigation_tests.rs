use canvas_ui::container::Container;
use canvas_ui::geometry::Point;
use canvas_ui::manager::ContainerManager;
use canvas_ui::screens::{create_main_menu, default_font_details};
use canvas_ui::widget::{NavigationAction, PointerEventKind, ScreenId, Widget, WidgetKind};

fn widgets_of(c: &Container) -> &Vec<Widget> {
    match c {
        Container::Flat { layer } => &layer.widgets,
        Container::Layered { layers } => &layers[0].widgets,
    }
}

fn label_of(w: &Widget) -> &str {
    match &w.kind {
        WidgetKind::Button { label, .. } => label,
        WidgetKind::EditField { .. } => panic!("expected a button"),
    }
}

fn text_of(w: &Widget) -> String {
    match &w.kind {
        WidgetKind::EditField { text, .. } => text.iter().collect(),
        WidgetKind::Button { .. } => panic!("expected an edit field"),
    }
}

fn click(m: &mut ContainerManager, x: i32, y: i32) -> Option<NavigationAction> {
    let p = Point { x, y };
    let pressed = m.process_pointer_event(p, PointerEventKind::Press);
    assert!(pressed.is_none(), "no button navigates on press");
    m.process_pointer_event(p, PointerEventKind::Release)
}

fn menu_manager() -> ContainerManager {
    let mut m = ContainerManager::start();
    let font = m.add_font(default_font_details());
    let menu = create_main_menu(font);
    m.set_container(menu);
    m
}

#[test]
fn main_menu_click_routes_to_the_simple_button() {
    // end to end: the click lands inside "Simple components" only
    let mut m = menu_manager();
    let nav = click(&mut m, -6000, 6000);
    assert!(nav.is_some());
    assert_eq!(nav.unwrap().target, ScreenId::SimpleMenu);
}

#[test]
fn main_menu_click_outside_both_buttons_is_absorbed() {
    let mut m = menu_manager();
    let nav = click(&mut m, 0, 0);
    assert!(nav.is_none());
    // the main menu is still the active container
    let active = m.active_container().expect("a container is active");
    assert_eq!(label_of(&widgets_of(active)[0]), "Simple components");
}

#[test]
fn navigation_is_applied_when_dispatch_returns() {
    let mut m = menu_manager();
    // dispatch of this click returns a navigation to the simple screen;
    // when the call returns, the replacement is already active
    let nav = click(&mut m, -6000, 6000);
    assert_eq!(nav.unwrap().target, ScreenId::SimpleMenu);
    let active = m.active_container().expect("a container is active");
    assert_eq!(label_of(&widgets_of(active)[0]), "Back");

    // a second, immediately following click at a coordinate valid only in
    // the new screen hits the new screen's widget
    let nav2 = click(&mut m, -7500, 6000);
    assert_eq!(nav2.unwrap().target, ScreenId::MainMenu);
    let active = m.active_container().expect("a container is active");
    assert_eq!(label_of(&widgets_of(active)[0]), "Simple components");
}

#[test]
fn events_after_replacement_only_consult_the_new_container() {
    let mut m = menu_manager();
    click(&mut m, -6000, 6000);
    // (-6000, 6000) hit a button of the old main menu; in the now-active
    // simple screen no widget covers it, so the event is absorbed rather
    // than routed to any region of the replaced container's widgets
    let nav = click(&mut m, -6000, 6000);
    assert!(nav.is_none());
}

#[test]
fn back_and_forth_navigation_round_trip() {
    let mut m = menu_manager();
    assert_eq!(click(&mut m, -6000, 3000).unwrap().target, ScreenId::OverlappingEditMenu);
    assert_eq!(click(&mut m, -7500, 6000).unwrap().target, ScreenId::MainMenu);
    assert_eq!(click(&mut m, -6000, 6000).unwrap().target, ScreenId::SimpleMenu);
    assert_eq!(click(&mut m, -7500, 6000).unwrap().target, ScreenId::MainMenu);
    let active = m.active_container().expect("a container is active");
    assert_eq!(widgets_of(active).len(), 2);
    assert_eq!(label_of(&widgets_of(active)[0]), "Simple components");
    assert_eq!(label_of(&widgets_of(active)[1]), "overlapping edit fields");
}

#[test]
fn typing_goes_to_the_focused_field_only() {
    let mut m = menu_manager();
    click(&mut m, -6000, 6000);  // to the simple screen
    // typing before any field is focused changes nothing
    assert!(m.process_key_event('x').is_none());
    let active = m.active_container().expect("a container is active");
    assert_eq!(text_of(&widgets_of(active)[1]), "Type...");
    // click into the edit field to focus it, then type
    let nav = click(&mut m, 0, 0);
    assert!(nav.is_none());
    assert!(m.process_key_event('a').is_none());
    assert!(m.process_key_event('b').is_none());
    let active = m.active_container().expect("a container is active");
    assert_eq!(text_of(&widgets_of(active)[1]), "Type...ab");
}

#[test]
fn focused_state_does_not_survive_navigation() {
    let mut m = menu_manager();
    click(&mut m, -6000, 6000);  // to the simple screen
    click(&mut m, 0, 0);  // focus its edit field
    click(&mut m, -7500, 6000);  // back to the main menu
    click(&mut m, -6000, 6000);  // to a freshly built simple screen
    // the new screen's field is unfocused and holds its initial text
    assert!(m.process_key_event('z').is_none());
    let active = m.active_container().expect("a container is active");
    assert_eq!(text_of(&widgets_of(active)[1]), "Type...");
}

#[test]
fn overlapping_fields_take_input_front_to_back() {
    let mut m = menu_manager();
    assert_eq!(click(&mut m, -6000, 3000).unwrap().target, ScreenId::OverlappingEditMenu);
    // (0, -1500) lies inside the fields of the middle and front layers but
    // not the back one; the front layer's field must take the focus
    let nav = click(&mut m, 0, -1500);
    assert!(nav.is_none());
    assert!(m.process_key_event('!').is_none());
    let active = m.active_container().expect("a container is active");
    match active {
        Container::Layered { layers } => {
            assert_eq!(text_of(&layers[2].widgets[0]), "Layer3!");
            assert_eq!(text_of(&layers[1].widgets[0]), "Layer2");
            assert_eq!(text_of(&layers[0].widgets[1]), "Layer1");
        },
        Container::Flat { .. } => panic!("expected a layered container"),
    }
}
