use forte_ui::elements::{BufferHandle, ElementInfo, TextColor, TextHandle, TextureRef, UIElement};
use forte_ui::engine::UIEngine;
use forte_ui::fixed::FX_ONE;
use forte_ui::layout::{LAYER_START, LAYER_STEP, TEXT_INSET};
use forte_ui::style::{Sizing, Style, Vec2};

fn px(pixels: i64) -> Sizing {
    Sizing::Px(pixels * FX_ONE)
}

fn display_400() -> Vec2 {
    Vec2 { x: 400 * FX_ONE, y: 400 * FX_ONE }
}

fn sized_style(w: i64, h: i64) -> Style {
    let mut s = Style::default();
    s.width = px(w);
    s.height = px(h);
    s
}

fn engine_with_tree() -> UIEngine {
    // root (buffer 1) with children: b (buffer 2, child d buffer 4), c (buffer 3)
    let mut d = UIElement::container(sized_style(10, 10), BufferHandle(4));
    d.style.left = px(1);
    let mut b = UIElement::container(sized_style(50, 50), BufferHandle(2));
    b.children.push(d);
    let c = UIElement::image(sized_style(60, 60), TextureRef(9), BufferHandle(3));
    let mut root = UIElement::container(sized_style(200, 200), BufferHandle(1));
    root.children.push(b);
    root.children.push(c);
    let mut engine = UIEngine::new();
    engine.elements.push(root);
    engine
}

#[test]
fn writes_follow_draw_order_depth_first() {
    let engine = engine_with_tree();
    let frame = engine.update(display_400());
    let buffers: Vec<u64> = frame.writes.iter().map(|w| w.buffer.0).collect();
    assert_eq!(buffers, vec![1, 2, 4, 3]);
}

#[test]
fn one_write_per_element_every_frame() {
    let engine = engine_with_tree();
    let frame = engine.update(display_400());
    assert_eq!(frame.writes.len(), 4);
    assert_eq!(frame.text_areas.len(), 0);
}

#[test]
fn layer_steps_down_per_generation() {
    let engine = engine_with_tree();
    let frame = engine.update(display_400());
    assert_eq!(frame.writes[0].instance.layer, LAYER_START);
    assert_eq!(frame.writes[1].instance.layer, LAYER_START - LAYER_STEP);
    assert_eq!(frame.writes[2].instance.layer, LAYER_START - 2 * LAYER_STEP);
    assert_eq!(frame.writes[3].instance.layer, LAYER_START - LAYER_STEP);
}

#[test]
fn textures_bind_for_images_only() {
    let engine = engine_with_tree();
    let frame = engine.update(display_400());
    assert_eq!(frame.writes[0].texture, None);
    assert_eq!(frame.writes[3].texture, Some(TextureRef(9)));
}

#[test]
fn idempotence_law() {
    // resolving the same unchanged tree twice with the same display size
    // yields bit-identical frame output
    let engine = engine_with_tree();
    let first = engine.update(display_400());
    let second = engine.update(display_400());
    assert_eq!(first, second);
}

#[test]
fn text_elements_yield_text_areas() {
    let mut s = sized_style(100, 40);
    s.left = px(10);
    s.top = px(20);
    let text = UIElement::text(s, TextHandle(7), TextColor(0xff00ffff), BufferHandle(5));
    let mut engine = UIEngine::new();
    engine.elements.push(text);
    let frame = engine.update(display_400());
    assert_eq!(frame.writes.len(), 1);
    assert_eq!(frame.text_areas.len(), 1);
    let area = &frame.text_areas[0];
    assert_eq!(area.text, TextHandle(7));
    assert_eq!(area.color, TextColor(0xff00ffff));
    assert_eq!(area.left, 10 * FX_ONE + TEXT_INSET);
    assert_eq!(area.top, 20 * FX_ONE);
    assert_eq!(area.bound_w, 100 * FX_ONE);
    assert_eq!(area.bound_h, 40 * FX_ONE);
}

#[test]
fn nested_parent_offsets_accumulate() {
    // child anchored at (10,10) inside a parent anchored at (30,40)
    let mut child_style = sized_style(10, 10);
    child_style.left = px(10);
    child_style.top = px(10);
    let child = UIElement::container(child_style, BufferHandle(2));
    let mut parent_style = sized_style(100, 100);
    parent_style.left = px(30);
    parent_style.top = px(40);
    let mut parent = UIElement::container(parent_style, BufferHandle(1));
    parent.children.push(child);
    let mut engine = UIEngine::new();
    engine.elements.push(parent);
    let frame = engine.update(display_400());
    // child center = (30+10+5, 40+10+5) = (45, 55); ndc = 2*c/400 - 1
    let inst = &frame.writes[1].instance;
    assert_eq!(inst.ndc_x, 2 * 45 * FX_ONE / 400 - FX_ONE);
    assert_eq!(inst.ndc_y, 2 * 55 * FX_ONE / 400 - FX_ONE);
}

#[test]
fn constructors_set_contents() {
    let c = UIElement::container(Style::default(), BufferHandle(1));
    assert!(matches!(c.info, ElementInfo::Container));
    assert_eq!(c.children.len(), 0);
    let i = UIElement::image(Style::default(), TextureRef(3), BufferHandle(2));
    assert!(matches!(i.info, ElementInfo::Image(TextureRef(3))));
    let t = UIElement::text(Style::default(), TextHandle(4), TextColor(5), BufferHandle(6));
    assert!(matches!(t.info, ElementInfo::Text(TextHandle(4), TextColor(5))));
    let m = c.min_size(&display_400());
    assert_eq!(m, Vec2 { x: 0, y: 0 });
}
