use mlog_pico::display::{
    display_reset_color, DisplayData, DrawCommand, HAlign, PixelOp, Rgb, VAlign, ALIGN_BOTTOM,
    ALIGN_LEFT, ALIGN_RIGHT, ALIGN_TOP,
};
use mlog_pico::value::{SensorTag, Value};
use mlog_pico::Outcome;
use widestring::U16String;

const WHITE: Rgb = Rgb { r: 255, g: 255, b: 255 };

fn renderer() -> DisplayData {
    // The panel is 240x320 mounted rotated: the renderer sees 320x240.
    DisplayData::new(320, 240)
}

fn flush(d: &mut DisplayData, cmds: Vec<DrawCommand>) -> Vec<PixelOp> {
    let (ops, outcome) = d.drawflush(&cmds);
    assert_eq!(outcome, Outcome::Yield);
    ops
}

#[test]
fn translate_offsets_subsequent_lines() {
    let mut d = renderer();
    let untranslated = flush(&mut d, vec![DrawCommand::Line { x1: 0, y1: 0, x2: 10, y2: 0 }]);
    assert_eq!(
        untranslated,
        vec![PixelOp::DrawLine { x1: -1, y1: 240, x2: 9, y2: 240, color: WHITE, width: 1 }]
    );

    let mut d = renderer();
    let translated = flush(
        &mut d,
        vec![
            DrawCommand::Translate { x: 5, y: 0 },
            DrawCommand::Line { x1: 0, y1: 0, x2: 10, y2: 0 },
        ],
    );
    // Device x-offset +5 relative to the untranslated line.
    assert_eq!(
        translated,
        vec![PixelOp::DrawLine { x1: 4, y1: 240, x2: 14, y2: 240, color: WHITE, width: 1 }]
    );
}

#[test]
fn translation_accumulates_and_persists_across_flushes() {
    let mut d = renderer();
    flush(&mut d, vec![DrawCommand::Translate { x: 5, y: 0 }]);
    let ops = flush(
        &mut d,
        vec![
            DrawCommand::Translate { x: 2, y: 3 },
            DrawCommand::Line { x1: 0, y1: 0, x2: 0, y2: 0 },
        ],
    );
    // Offsets 5+2 on x; y translation moves the line up on the device.
    assert_eq!(
        ops,
        vec![PixelOp::DrawLine { x1: 6, y1: 237, x2: 6, y2: 237, color: WHITE, width: 1 }]
    );
}

#[test]
fn reset_zeroes_translation_but_keeps_colors() {
    let mut d = renderer();
    flush(
        &mut d,
        vec![
            DrawCommand::Translate { x: 5, y: 0 },
            DrawCommand::SetColor { r: 1, g: 2, b: 3, a: 255 },
            DrawCommand::Reset,
        ],
    );
    let ops = flush(&mut d, vec![DrawCommand::Line { x1: 0, y1: 0, x2: 10, y2: 0 }]);
    // Drawn without offset, but in the color set before the reset.
    assert_eq!(
        ops,
        vec![PixelOp::DrawLine {
            x1: -1,
            y1: 240,
            x2: 9,
            y2: 240,
            color: Rgb { r: 1, g: 2, b: 3 },
            width: 1,
        }]
    );
}

#[test]
fn transparent_color_suppresses_drawing() {
    let mut d = renderer();
    let ops = flush(
        &mut d,
        vec![
            DrawCommand::SetColor { r: 9, g: 9, b: 9, a: 0 },
            DrawCommand::Line { x1: 0, y1: 0, x2: 10, y2: 0 },
            DrawCommand::Rect { x: 1, y: 1, width: 2, height: 2, fill: true },
            DrawCommand::Rect { x: 1, y: 1, width: 2, height: 2, fill: false },
            DrawCommand::Triangle { x1: 0, y1: 0, x2: 1, y2: 1, x3: 2, y3: 0 },
            DrawCommand::Print { x: 0, y: 0, alignment: 0, text: U16String::from_str("hidden") },
        ],
    );
    assert_eq!(ops, vec![]);
    // A new opaque color lifts the suppression.
    let ops = flush(
        &mut d,
        vec![
            DrawCommand::SetColor { r: 9, g: 9, b: 9, a: 1 },
            DrawCommand::Line { x1: 0, y1: 0, x2: 10, y2: 0 },
        ],
    );
    assert_eq!(ops.len(), 1);
}

#[test]
fn clear_always_fills_with_its_own_color() {
    let mut d = renderer();
    let ops = flush(
        &mut d,
        vec![
            DrawCommand::SetColor { r: 9, g: 9, b: 9, a: 0 },
            DrawCommand::Clear { r: 0x56, g: 0x56, b: 0x66 },
        ],
    );
    assert_eq!(ops, vec![PixelOp::FillScreen { color: display_reset_color() }]);
}

#[test]
fn rect_is_anchored_bottom_left_with_pixel_correction() {
    let mut d = renderer();
    let ops = flush(
        &mut d,
        vec![DrawCommand::Rect { x: 10, y: 10, width: 4, height: 6, fill: true }],
    );
    // Bottom-left anchor (10, 10), height 6: top-left logical corner is
    // (10, 16); mapped to the device, with the +1 horizontal correction:
    //   x = 10 + 0 - 1 + 1            = 10
    //   y = 240 - (16 + 0 - 1) - 1    = 224
    assert_eq!(
        ops,
        vec![PixelOp::FillRect { x: 10, y: 224, width: 4, height: 6, color: WHITE }]
    );
}

#[test]
fn outlined_rect_uses_stroke_color_and_width() {
    let mut d = renderer();
    let ops = flush(
        &mut d,
        vec![
            DrawCommand::Stroke { width: 3 },
            DrawCommand::Rect { x: 10, y: 10, width: 4, height: 6, fill: false },
        ],
    );
    assert_eq!(
        ops,
        vec![PixelOp::OutlineRect { x: 10, y: 224, width: 4, height: 6, color: WHITE, stroke: 3 }]
    );
}

#[test]
fn negative_stroke_width_sign_extends_like_the_machine_cast() {
    let mut d = renderer();
    let ops = flush(
        &mut d,
        vec![
            DrawCommand::Stroke { width: -1 },
            DrawCommand::Line { x1: 1, y1: 1, x2: 2, y2: 2 },
        ],
    );
    match &ops[0] {
        PixelOp::DrawLine { width, .. } => assert_eq!(*width, u32::MAX),
        other => panic!("unexpected op {other:?}"),
    }
}

#[test]
fn triangle_is_always_filled() {
    let mut d = renderer();
    let ops = flush(
        &mut d,
        vec![DrawCommand::Triangle { x1: 1, y1: 1, x2: 5, y2: 1, x3: 3, y3: 4 }],
    );
    assert_eq!(
        ops,
        vec![PixelOp::FillTriangle { x1: 0, y1: 239, x2: 4, y2: 239, x3: 2, y3: 236, color: WHITE }]
    );
}

#[test]
fn inert_commands_draw_nothing() {
    let mut d = renderer();
    let ops = flush(
        &mut d,
        vec![DrawCommand::Poly, DrawCommand::Image, DrawCommand::Scale, DrawCommand::Rotate],
    );
    assert_eq!(ops, vec![]);
}

#[test]
fn print_is_centered_by_default_with_baseline_corrections() {
    let mut d = renderer();
    let ops = flush(
        &mut d,
        vec![DrawCommand::Print { x: 10, y: 10, alignment: 0, text: U16String::from_str("hi") }],
    );
    // Anchor (x + 1, y - 2) = (11, 8): device (10, 240 - 7 - 1) = (10, 232).
    assert_eq!(
        ops,
        vec![PixelOp::DrawText {
            x: 10,
            y: 232,
            halign: HAlign::Center,
            valign: VAlign::Middle,
            color: WHITE,
            text: "hi".to_string(),
        }]
    );
}

#[test]
fn print_alignment_bits_pick_anchor_and_nudge() {
    let mut d = renderer();
    let ops = flush(
        &mut d,
        vec![
            DrawCommand::Print {
                x: 10,
                y: 10,
                alignment: ALIGN_LEFT | ALIGN_BOTTOM,
                text: U16String::from_str("a"),
            },
            DrawCommand::Print {
                x: 10,
                y: 10,
                alignment: ALIGN_RIGHT,
                text: U16String::from_str("b"),
            },
            DrawCommand::Print {
                x: 10,
                y: 10,
                alignment: ALIGN_TOP,
                text: U16String::from_str("c"),
            },
            DrawCommand::Print {
                x: 10,
                y: 10,
                alignment: ALIGN_LEFT | ALIGN_RIGHT | ALIGN_TOP | ALIGN_BOTTOM,
                text: U16String::from_str("d"),
            },
        ],
    );
    assert_eq!(ops.len(), 4);
    match &ops[0] {
        PixelOp::DrawText { x, y, halign, valign, .. } => {
            assert_eq!((*x, *y), (10, 232));
            assert_eq!(*halign, HAlign::Left);
            assert_eq!(*valign, VAlign::Bottom);
        }
        other => panic!("unexpected op {other:?}"),
    }
    match &ops[1] {
        PixelOp::DrawText { x, y, halign, valign, .. } => {
            // The right-aligned anchor is nudged one pixel left.
            assert_eq!((*x, *y), (9, 232));
            assert_eq!(*halign, HAlign::Right);
            assert_eq!(*valign, VAlign::Middle);
        }
        other => panic!("unexpected op {other:?}"),
    }
    match &ops[2] {
        PixelOp::DrawText { x, y, halign, valign, .. } => {
            // The top baseline is nudged one pixel down.
            assert_eq!((*x, *y), (10, 233));
            assert_eq!(*halign, HAlign::Center);
            assert_eq!(*valign, VAlign::Top);
        }
        other => panic!("unexpected op {other:?}"),
    }
    match &ops[3] {
        PixelOp::DrawText { halign, valign, x, y, .. } => {
            // When both bits of an axis are set, left and bottom win.
            assert_eq!(*halign, HAlign::Left);
            assert_eq!(*valign, VAlign::Bottom);
            assert_eq!((*x, *y), (10, 232));
        }
        other => panic!("unexpected op {other:?}"),
    }
}

#[test]
fn print_text_is_decoded_lossily() {
    let mut d = renderer();
    let ops = flush(
        &mut d,
        vec![DrawCommand::Print {
            x: 1,
            y: 1,
            alignment: 0,
            text: U16String::from_vec(vec![0x68u16, 0xDC00]),
        }],
    );
    match &ops[0] {
        PixelOp::DrawText { text, .. } => assert_eq!(text, "h\u{FFFD}"),
        other => panic!("unexpected op {other:?}"),
    }
}

#[test]
fn sensor_reports_dimensions_and_flush_count() {
    let mut d = renderer();
    assert_eq!(d.sensor(SensorTag::DisplayWidth), Some(Value::Num(320)));
    assert_eq!(d.sensor(SensorTag::DisplayHeight), Some(Value::Num(240)));
    assert_eq!(d.sensor(SensorTag::Operations), Some(Value::Num(0)));
    assert_eq!(d.sensor(SensorTag::MemoryCapacity), None);
    flush(&mut d, vec![]);
    flush(&mut d, vec![DrawCommand::Reset]);
    assert_eq!(d.sensor(SensorTag::Operations), Some(Value::Num(2)));
}
