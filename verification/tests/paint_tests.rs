use strwb::paint::{ClickOutcome, Painter, Swatch};
use strwb::ui::colors::{black, blue, green, red};
use strwb::ui::ui_context::UiContext;

fn setup() -> (UiContext<f32>, Painter) {
    let mut ui: UiContext<f32> = UiContext::new();
    let r = ui.new_rec(10.0, 10.0, 20.0, 20.0, red());
    let g = ui.new_rec(10.0, 60.0, 20.0, 20.0, green());
    let b = ui.new_rec(10.0, 110.0, 20.0, 20.0, blue());
    let k = ui.new_rec(10.0, 160.0, 20.0, 20.0, black());
    let pointer = ui.new_rec(400.0, 400.0, 20.0, 20.0, black());
    let swatches = vec![
        Swatch { id: r, color: red() },
        Swatch { id: g, color: green() },
        Swatch { id: b, color: blue() },
        Swatch { id: k, color: black() },
    ];
    (ui, Painter { pointer, swatches })
}

#[test]
fn click_on_a_swatch_recolors_the_pointer() {
    let (mut ui, painter) = setup();
    let out = painter.click(&mut ui, &[false, false, true, false], 15.0, 115.0, 20.0, 20.0);
    assert_eq!(out, ClickOutcome::Recolored(2));
    assert_eq!(ui.get_object_color(painter.pointer), blue());
    assert_eq!(ui.elements.len(), 5);
}

#[test]
fn click_on_two_swatches_takes_the_first() {
    let (mut ui, painter) = setup();
    let out = painter.click(&mut ui, &[false, true, true, true], 0.0, 0.0, 20.0, 20.0);
    assert_eq!(out, ClickOutcome::Recolored(1));
    assert_eq!(ui.get_object_color(painter.pointer), green());
}

#[test]
fn click_elsewhere_stamps_a_rect_in_the_pointer_color() {
    let (mut ui, painter) = setup();
    painter.click(&mut ui, &[true, false, false, false], 0.0, 0.0, 20.0, 20.0);
    let out = painter.click(&mut ui, &[false, false, false, false], 300.0, 200.0, 20.0, 20.0);
    assert_eq!(out, ClickOutcome::Stamped(5));
    assert_eq!(ui.elements.len(), 6);
    assert_eq!(ui.get_object_color(5), red());
    assert_eq!(ui._get_object_position(5), (300.0, 200.0, 20.0, 20.0));
}
