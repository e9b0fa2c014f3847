use canvas_ui::container::Container;
use canvas_ui::fonts::FontHandle;
use canvas_ui::geometry::{Point, Region};
use canvas_ui::layer::Layer;
use canvas_ui::widget::{
    Color, NavigationAction, PointerEventKind, ScreenId, TextAlignment, Widget, WidgetKind,
};

fn font() -> FontHandle {
    FontHandle { id: 0 }
}

fn button(min_x: i32, min_y: i32, max_x: i32, max_y: i32, label: &str) -> Widget {
    Widget::new_button(
        Region::new(min_x, min_y, max_x, max_y),
        label,
        Color::blue(),
        font(),
        TextAlignment::Center,
        Some(NavigationAction { target: ScreenId::SimpleMenu, font: font() }),
    )
}

fn label_of(w: &Widget) -> &str {
    match &w.kind {
        WidgetKind::Button { label, .. } => label,
        WidgetKind::EditField { .. } => panic!("expected a button"),
    }
}

#[test]
fn hit_test_picks_the_last_inserted_on_overlap() {
    let mut layer = Layer::new(None);
    layer.add_widget(button(0, 0, 10, 10, "under"));
    layer.add_widget(button(5, 5, 15, 15, "over"));
    // both regions contain (7, 7); the most recently inserted wins
    assert_eq!(layer.hit_test(Point { x: 7, y: 7 }), Some(1));
    // only the first contains (1, 1)
    assert_eq!(layer.hit_test(Point { x: 1, y: 1 }), Some(0));
    // neither contains (30, 30)
    assert_eq!(layer.hit_test(Point { x: 30, y: 30 }), None);
}

#[test]
fn hit_test_is_idempotent_on_an_unmutated_layer() {
    let mut layer = Layer::new(Some(Color::from_rgb(1, 2, 3)));
    layer.add_widget(button(-10, -10, 10, 10, "a"));
    layer.add_widget(button(0, 0, 20, 20, "b"));
    let p = Point { x: 5, y: 5 };
    let first = layer.hit_test(p);
    let second = layer.hit_test(p);
    assert_eq!(first, second);
    assert_eq!(first, Some(1));
}

#[test]
fn empty_layer_absorbs_every_point() {
    let layer = Layer::new(Some(Color::from_rgb(9, 9, 9)));
    assert_eq!(layer.hit_test(Point { x: 0, y: 0 }), None);
}

#[test]
fn paint_order_is_ascending_insertion_order() {
    let mut layer = Layer::new(None);
    layer.add_widget(button(0, 0, 1, 1, "a"));
    layer.add_widget(button(2, 2, 3, 3, "b"));
    layer.add_widget(button(4, 4, 5, 5, "c"));
    assert_eq!(layer.paint_order(), vec![0, 1, 2]);
}

#[test]
fn frontmost_layer_with_a_hit_wins_across_layers() {
    // stack [l0 (back), l1, l2 (front)]: only l0 and l1 have a widget at p
    let mut l0 = Layer::new(Some(Color::from_rgb(0, 0, 0)));
    l0.add_widget(button(0, 0, 100, 100, "backmost"));
    let mut l1 = Layer::new(None);
    l1.add_widget(button(0, 0, 50, 50, "middle"));
    let mut l2 = Layer::new(None);
    l2.add_widget(button(200, 200, 300, 300, "elsewhere"));
    let mut c = Container::new_layered(vec![l0, l1, l2]);

    // p lies in "backmost" and "middle" but not in the front layer's widget:
    // the event must go to l1, the frontmost layer among the hits
    let nav = c.dispatch(Point { x: 10, y: 10 }, PointerEventKind::Release);
    assert!(nav.is_some());
    match &c {
        Container::Layered { layers } => {
            // the middle layer's widget is the one that was consulted; the
            // backmost button would have answered identically, so confirm
            // the rule structurally instead: l2 has no widget at p and l1 does
            assert_eq!(layers[2].hit_test(Point { x: 10, y: 10 }), None);
            assert_eq!(layers[1].hit_test(Point { x: 10, y: 10 }), Some(0));
            assert_eq!(label_of(&layers[1].widgets[0]), "middle");
        },
        Container::Flat { .. } => panic!("expected a layered container"),
    }
}

#[test]
fn press_routes_to_the_frontmost_overlapping_edit_field() {
    // three stacked edit fields overlapping at one point: the front layer's
    // field must take the focus, never a deeper one
    let mut l0 = Layer::new(None);
    let mut l1 = Layer::new(None);
    let mut l2 = Layer::new(None);
    l0.add_widget(Widget::new_edit_field(Region::new(-10, -10, 10, 10), "back", font()));
    l1.add_widget(Widget::new_edit_field(Region::new(-10, -10, 10, 10), "mid", font()));
    l2.add_widget(Widget::new_edit_field(Region::new(-10, -10, 10, 10), "front", font()));
    let mut c = Container::new_layered(vec![l0, l1, l2]);
    let nav = c.dispatch(Point { x: 0, y: 0 }, PointerEventKind::Press);
    assert!(nav.is_none());
    match &c {
        Container::Layered { layers } => {
            for (i, expect) in [(0usize, false), (1, false), (2, true)] {
                match &layers[i].widgets[0].kind {
                    WidgetKind::EditField { focused, .. } => assert_eq!(*focused, expect),
                    WidgetKind::Button { .. } => panic!("expected an edit field"),
                }
            }
        },
        Container::Flat { .. } => panic!("expected a layered container"),
    }
}

#[test]
fn event_falls_through_background_only_layers() {
    // the front layer has no widget at p at all: it is transparent there
    let mut l0 = Layer::new(Some(Color::from_rgb(5, 5, 5)));
    l0.add_widget(button(0, 0, 10, 10, "target"));
    let l1 = Layer::new(Some(Color::from_rgb(6, 6, 6)));
    let mut c = Container::new_layered(vec![l0, l1]);
    let nav = c.dispatch(Point { x: 5, y: 5 }, PointerEventKind::Release);
    assert_eq!(nav, Some(NavigationAction { target: ScreenId::SimpleMenu, font: font() }));
}

#[test]
fn no_hit_anywhere_is_silently_absorbed() {
    let mut l0 = Layer::new(None);
    l0.add_widget(button(0, 0, 10, 10, "only"));
    let mut c = Container::new_layered(vec![l0]);
    let nav = c.dispatch(Point { x: 500, y: 500 }, PointerEventKind::Release);
    assert_eq!(nav, None);
}

#[test]
fn button_fires_on_release_only() {
    let mut c = Container::new_flat({
        let mut l = Layer::new(None);
        l.add_widget(button(0, 0, 10, 10, "b"));
        l
    });
    assert_eq!(c.dispatch(Point { x: 5, y: 5 }, PointerEventKind::Press), None);
    assert_eq!(c.dispatch(Point { x: 5, y: 5 }, PointerEventKind::Move), None);
    assert!(c.dispatch(Point { x: 5, y: 5 }, PointerEventKind::Release).is_some());
}
