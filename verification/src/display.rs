//! Draw-command interpreter for the pixel display binding.
//!
//! `drawflush` drains the VM's queued draw commands in order, updating the
//! render state (colors, stroke width, accumulated translation) and
//! emitting the exact pixel operations the hardware layer must perform.
//! Coordinates arrive in the VM's logical system — origin at `(1, 1)`,
//! Y increasing upward — and leave in device space — origin `(0, 0)`,
//! Y increasing downward.  Arithmetic on coordinates wraps as the
//! two's-complement machine arithmetic of the reference renderer does.

use vstd::prelude::*;

use vstd::wrapping::{i16_specs, i32_specs, u32_specs};

use crate::text::{decode_lossy, lossy_of, u16_units};
use crate::value::{SensorTag, Value};
use crate::Outcome;

verus! {

/// An opaque 24-bit color.
#[derive(Clone, Copy, PartialEq, Eq, Structural, Debug)]
pub struct Rgb {
    pub r: u8,
    pub g: u8,
    pub b: u8,
}

/// The color every surface is cleared to before the VM first draws.
pub fn display_reset_color() -> (c: Rgb)
    ensures
        c == (Rgb { r: 0x56, g: 0x56, b: 0x66 }),
{
    Rgb { r: 0x56, g: 0x56, b: 0x66 }
}

/// Alignment bits a print command may set; at most one per axis takes
/// effect, and an axis with no bit set centers.
pub const ALIGN_LEFT: u8 = 1;

pub const ALIGN_RIGHT: u8 = 2;

pub const ALIGN_TOP: u8 = 4;

pub const ALIGN_BOTTOM: u8 = 8;

/// Horizontal anchoring of rendered text.
#[derive(Clone, Copy, PartialEq, Eq, Structural, Debug)]
pub enum HAlign {
    Left,
    Center,
    Right,
}

/// Vertical anchoring of rendered text.
#[derive(Clone, Copy, PartialEq, Eq, Structural, Debug)]
pub enum VAlign {
    Top,
    Middle,
    Bottom,
}

/// A draw command as the VM queues it.  Coordinates are in the logical
/// system; `Poly`, `Image`, `Scale` and `Rotate` are accepted and
/// intentionally inert.
pub enum DrawCommand {
    Clear { r: u8, g: u8, b: u8 },
    SetColor { r: u8, g: u8, b: u8, a: u8 },
    Stroke { width: i16 },
    Line { x1: i16, y1: i16, x2: i16, y2: i16 },
    Rect { x: i16, y: i16, width: i16, height: i16, fill: bool },
    Poly,
    Triangle { x1: i16, y1: i16, x2: i16, y2: i16, x3: i16, y3: i16 },
    Image,
    Print { x: i16, y: i16, alignment: u8, text: widestring::U16String },
    Translate { x: i16, y: i16 },
    Scale,
    Rotate,
    Reset,
}

/// A pixel operation in device coordinates, ready for the hardware layer.
#[derive(PartialEq, Debug)]
pub enum PixelOp {
    FillScreen { color: Rgb },
    DrawLine { x1: i32, y1: i32, x2: i32, y2: i32, color: Rgb, width: u32 },
    FillRect { x: i32, y: i32, width: u32, height: u32, color: Rgb },
    OutlineRect { x: i32, y: i32, width: u32, height: u32, color: Rgb, stroke: u32 },
    FillTriangle { x1: i32, y1: i32, x2: i32, y2: i32, x3: i32, y3: i32, color: Rgb },
    DrawText { x: i32, y: i32, halign: HAlign, valign: VAlign, color: Rgb, text: String },
}

/// The mathematical image of a pixel operation: text as its characters.
pub enum PixelOpV {
    FillScreen { color: Rgb },
    DrawLine { x1: i32, y1: i32, x2: i32, y2: i32, color: Rgb, width: u32 },
    FillRect { x: i32, y: i32, width: u32, height: u32, color: Rgb },
    OutlineRect { x: i32, y: i32, width: u32, height: u32, color: Rgb, stroke: u32 },
    FillTriangle { x1: i32, y1: i32, x2: i32, y2: i32, x3: i32, y3: i32, color: Rgb },
    DrawText { x: i32, y: i32, halign: HAlign, valign: VAlign, color: Rgb, text: Seq<char> },
}

impl View for PixelOp {
    type V = PixelOpV;

    open spec fn view(&self) -> PixelOpV {
        match *self {
            PixelOp::FillScreen { color } => PixelOpV::FillScreen { color },
            PixelOp::DrawLine { x1, y1, x2, y2, color, width } => PixelOpV::DrawLine {
                x1,
                y1,
                x2,
                y2,
                color,
                width,
            },
            PixelOp::FillRect { x, y, width, height, color } => PixelOpV::FillRect {
                x,
                y,
                width,
                height,
                color,
            },
            PixelOp::OutlineRect { x, y, width, height, color, stroke } => PixelOpV::OutlineRect {
                x,
                y,
                width,
                height,
                color,
                stroke,
            },
            PixelOp::FillTriangle { x1, y1, x2, y2, x3, y3, color } => PixelOpV::FillTriangle {
                x1,
                y1,
                x2,
                y2,
                x3,
                y3,
                color,
            },
            PixelOp::DrawText { x, y, halign, valign, color, ref text } => PixelOpV::DrawText {
                x,
                y,
                halign,
                valign,
                color,
                text: text@,
            },
        }
    }
}

/// The mathematical image of a list of pixel operations.
pub open spec fn ops_view(ops: Seq<PixelOp>) -> Seq<PixelOpV> {
    ops.map_values(|op: PixelOp| op@)
}

/// Render state that persists across flushes: colors and stroke width
/// until the next color or stroke command, translation until a reset.
#[derive(Clone, Copy, Debug)]
pub struct RenderState {
    pub stroke_color: Option<Rgb>,
    pub fill_color: Option<Rgb>,
    pub text_color: Option<Rgb>,
    pub stroke_width: u32,
    pub translate_x: i32,
    pub translate_y: i32,
}

/// The state a fresh renderer starts in: white everywhere, hairline
/// stroke, no translation.
pub open spec fn spec_initial_state() -> RenderState {
    RenderState {
        stroke_color: Some(Rgb { r: 255, g: 255, b: 255 }),
        fill_color: Some(Rgb { r: 255, g: 255, b: 255 }),
        text_color: Some(Rgb { r: 255, g: 255, b: 255 }),
        stroke_width: 1,
        translate_x: 0,
        translate_y: 0,
    }
}

/// A stroke or size operand widened to the machine word exactly as the
/// reference renderer's cast does: negative values sign-extend.
pub open spec fn spec_u32_of_i16(w: i16) -> u32 {
    if w >= 0 {
        w as u32
    } else {
        (w + 0x1_0000_0000) as u32
    }
}

/// Device X of a logical X: translate, then shift the 1-based origin.
pub open spec fn spec_dev_x(tx: i32, x: i16) -> i32 {
    i32_specs::wrapping_sub(i32_specs::wrapping_add(x as i32, tx), 1)
}

/// Device Y of a logical Y: translate, shift the 1-based origin, then
/// invert against the surface height.
pub open spec fn spec_dev_y(dh: u32, ty: i32, y: i16) -> i32 {
    i32_specs::wrapping_sub(
        i32_specs::wrapping_sub(
            dh as i32,
            i32_specs::wrapping_sub(i32_specs::wrapping_add(y as i32, ty), 1),
        ),
        1,
    )
}

/// One command applied to one render state: the state afterwards, and the
/// pixel operations it emits (none when the selecting color is unset —
/// an explicit transparent state).
pub open spec fn spec_step(dh: u32, st: RenderState, cmd: DrawCommand) -> (RenderState, Seq<
    PixelOpV,
>) {
    match cmd {
        DrawCommand::Clear { r, g, b } => (
            st,
            seq![PixelOpV::FillScreen { color: Rgb { r, g, b } }],
        ),
        DrawCommand::SetColor { r, g, b, a } => {
            let c = if a > 0 {
                Some(Rgb { r, g, b })
            } else {
                None
            };
            (RenderState { stroke_color: c, fill_color: c, text_color: c, ..st }, seq![])
        },
        DrawCommand::Stroke { width } => (
            RenderState { stroke_width: spec_u32_of_i16(width), ..st },
            seq![],
        ),
        DrawCommand::Line { x1, y1, x2, y2 } => (
            st,
            match st.stroke_color {
                Some(c) => seq![
                    PixelOpV::DrawLine {
                        x1: spec_dev_x(st.translate_x, x1),
                        y1: spec_dev_y(dh, st.translate_y, y1),
                        x2: spec_dev_x(st.translate_x, x2),
                        y2: spec_dev_y(dh, st.translate_y, y2),
                        color: c,
                        width: st.stroke_width,
                    },
                ],
                None => seq![],
            },
        ),
        DrawCommand::Rect { x, y, width, height, fill } => {
            let ox = i32_specs::wrapping_add(spec_dev_x(st.translate_x, x), 1);
            let oy = spec_dev_y(dh, st.translate_y, i16_specs::wrapping_add(y, height));
            (
                st,
                if fill {
                    match st.fill_color {
                        Some(c) => seq![
                            PixelOpV::FillRect {
                                x: ox,
                                y: oy,
                                width: spec_u32_of_i16(width),
                                height: spec_u32_of_i16(height),
                                color: c,
                            },
                        ],
                        None => seq![],
                    }
                } else {
                    match st.stroke_color {
                        Some(c) => seq![
                            PixelOpV::OutlineRect {
                                x: ox,
                                y: oy,
                                width: spec_u32_of_i16(width),
                                height: spec_u32_of_i16(height),
                                color: c,
                                stroke: st.stroke_width,
                            },
                        ],
                        None => seq![],
                    }
                },
            )
        },
        DrawCommand::Poly => (st, seq![]),
        DrawCommand::Triangle { x1, y1, x2, y2, x3, y3 } => (
            st,
            match st.fill_color {
                Some(c) => seq![
                    PixelOpV::FillTriangle {
                        x1: spec_dev_x(st.translate_x, x1),
                        y1: spec_dev_y(dh, st.translate_y, y1),
                        x2: spec_dev_x(st.translate_x, x2),
                        y2: spec_dev_y(dh, st.translate_y, y2),
                        x3: spec_dev_x(st.translate_x, x3),
                        y3: spec_dev_y(dh, st.translate_y, y3),
                        color: c,
                    },
                ],
                None => seq![],
            },
        ),
        DrawCommand::Image => (st, seq![]),
        DrawCommand::Print { x, y, alignment, text } => (
            st,
            match st.text_color {
                Some(c) => {
                    let bx = spec_dev_x(st.translate_x, i16_specs::wrapping_add(x, 1));
                    let by = spec_dev_y(dh, st.translate_y, i16_specs::wrapping_sub(y, 2));
                    let left = alignment & ALIGN_LEFT != 0;
                    let right = alignment & ALIGN_RIGHT != 0;
                    let top = alignment & ALIGN_TOP != 0;
                    let bottom = alignment & ALIGN_BOTTOM != 0;
                    seq![
                        PixelOpV::DrawText {
                            x: if !left && right {
                                i32_specs::wrapping_sub(bx, 1)
                            } else {
                                bx
                            },
                            y: if !bottom && top {
                                i32_specs::wrapping_add(by, 1)
                            } else {
                                by
                            },
                            halign: if left {
                                HAlign::Left
                            } else if right {
                                HAlign::Right
                            } else {
                                HAlign::Center
                            },
                            valign: if bottom {
                                VAlign::Bottom
                            } else if top {
                                VAlign::Top
                            } else {
                                VAlign::Middle
                            },
                            color: c,
                            text: lossy_of(u16_units(text)),
                        },
                    ]
                },
                None => seq![],
            },
        ),
        DrawCommand::Translate { x, y } => (
            RenderState {
                translate_x: i32_specs::wrapping_add(st.translate_x, x as i32),
                translate_y: i32_specs::wrapping_add(st.translate_y, y as i32),
                ..st
            },
            seq![],
        ),
        DrawCommand::Scale => (st, seq![]),
        DrawCommand::Rotate => (st, seq![]),
        DrawCommand::Reset => (RenderState { translate_x: 0, translate_y: 0, ..st }, seq![]),
    }
}

/// A whole queue of commands applied in order.
pub open spec fn spec_run(dh: u32, st: RenderState, cmds: Seq<DrawCommand>) -> (RenderState, Seq<
    PixelOpV,
>)
    decreases cmds.len(),
{
    if cmds.len() == 0 {
        (st, seq![])
    } else {
        let first = spec_step(dh, st, cmds[0]);
        let rest = spec_run(dh, first.0, cmds.drop_first());
        (rest.0, first.1 + rest.1)
    }
}

/// The display binding: surface dimensions, persistent render state, and
/// a count of completed flushes (wrapping at the machine word, like the
/// counter it reports through the sensor hook).
pub struct DisplayData {
    width: u32,
    height: u32,
    state: RenderState,
    operations: u32,
}

impl DisplayData {
    /// Both surface dimensions fit the signed device coordinate space.
    pub open spec fn wf(&self) -> bool {
        self.spec_width() <= 0x7FFF_FFFF && self.spec_height() <= 0x7FFF_FFFF
    }

    /// Width of the surface in pixels.
    pub closed spec fn spec_width(&self) -> u32 {
        self.width
    }

    /// Height of the surface in pixels.
    pub closed spec fn spec_height(&self) -> u32 {
        self.height
    }

    /// The persistent render state.
    pub closed spec fn spec_state(&self) -> RenderState {
        self.state
    }

    /// How many flushes have completed.
    pub closed spec fn spec_operations(&self) -> u32 {
        self.operations
    }

    /// A renderer over a surface of the given dimensions, in the initial
    /// render state.
    pub fn new(width: u32, height: u32) -> (r: DisplayData)
        requires
            width <= 0x7FFF_FFFF,
            height <= 0x7FFF_FFFF,
        ensures
            r.wf(),
            r.spec_width() == width,
            r.spec_height() == height,
            r.spec_state() == spec_initial_state(),
            r.spec_operations() == 0,
    {
        DisplayData {
            width,
            height,
            state: RenderState {
                stroke_color: Some(Rgb { r: 255, g: 255, b: 255 }),
                fill_color: Some(Rgb { r: 255, g: 255, b: 255 }),
                text_color: Some(Rgb { r: 255, g: 255, b: 255 }),
                stroke_width: 1,
                translate_x: 0,
                translate_y: 0,
            },
            operations: 0,
        }
    }

    /// Drains the queued commands in order, returning the pixel
    /// operations to perform and suspending the instruction stream: a
    /// flush is a batch of blocking transfers, so the scheduler must get
    /// control back afterwards.
    #[verifier::rlimit(60)]
    pub fn drawflush(&mut self, commands: &Vec<DrawCommand>) -> (r: (Vec<PixelOp>, Outcome))
        requires
            old(self).wf(),
        ensures
            final(self).wf(),
            r.1 == Outcome::Yield,
            final(self).spec_state() == spec_run(
                old(self).spec_height(),
                old(self).spec_state(),
                commands@,
            ).0,
            ops_view(r.0@) == spec_run(
                old(self).spec_height(),
                old(self).spec_state(),
                commands@,
            ).1,
            final(self).spec_width() == old(self).spec_width(),
            final(self).spec_height() == old(self).spec_height(),
            final(self).spec_operations() == u32_specs::wrapping_add(
                old(self).spec_operations(),
                1,
            ),
    {
        let ghost dh = self.spec_height();
        let ghost st0 = self.spec_state();
        let mut ops: Vec<PixelOp> = Vec::new();
        proof {
            assert(commands@.skip(0) =~= commands@);
            assert(ops_view(ops@) =~= Seq::<PixelOpV>::empty());
            assert(Seq::<PixelOpV>::empty() + spec_run(dh, st0, commands@).1 =~= spec_run(
                dh,
                st0,
                commands@,
            ).1);
        }
        let mut i: usize = 0;
        while i < commands.len()
            invariant
                i <= commands@.len(),
                self.wf(),
                dh == self.spec_height(),
                self.spec_width() == old(self).spec_width(),
                self.spec_height() == old(self).spec_height(),
                self.spec_operations() == old(self).spec_operations(),
                spec_run(dh, st0, commands@).0 == spec_run(
                    dh,
                    self.spec_state(),
                    commands@.skip(i as int),
                ).0,
                spec_run(dh, st0, commands@).1 == ops_view(ops@) + spec_run(
                    dh,
                    self.spec_state(),
                    commands@.skip(i as int),
                ).1,
            decreases commands@.len() - i,
        {
            let ghost st_pre = self.spec_state();
            let ghost ops_pre = ops@;
            proof {
                assert(commands@.skip(i as int)[0] == commands@[i as int]);
                assert(commands@.skip(i as int).drop_first() =~= commands@.skip(i + 1));
            }
            self.apply_command(&commands[i], &mut ops);
            proof {
                let step = spec_step(dh, st_pre, commands@[i as int]);
                let rest = spec_run(dh, self.spec_state(), commands@.skip(i + 1));
                assert(spec_run(dh, st_pre, commands@.skip(i as int)).1 == step.1 + rest.1);
                assert((ops_view(ops_pre) + (step.1 + rest.1)) =~= ((ops_view(ops_pre) + step.1)
                    + rest.1));
            }
            i += 1;
        }
        proof {
            assert(commands@.skip(commands@.len() as int) =~= Seq::<DrawCommand>::empty());
            assert(ops_view(ops@) + spec_run(dh, self.spec_state(), Seq::<DrawCommand>::empty()).1
                =~= ops_view(ops@));
        }
        self.operations = self.operations.wrapping_add(1);
        (ops, Outcome::Yield)
    }

    /// Applies one command: updates the render state and appends whatever
    /// pixel operations it emits.
    fn apply_command(&mut self, cmd: &DrawCommand, ops: &mut Vec<PixelOp>)
        requires
            old(self).wf(),
        ensures
            final(self).wf(),
            final(self).spec_width() == old(self).spec_width(),
            final(self).spec_height() == old(self).spec_height(),
            final(self).spec_operations() == old(self).spec_operations(),
            final(self).spec_state() == spec_step(
                old(self).spec_height(),
                old(self).spec_state(),
                *cmd,
            ).0,
            ops_view(final(ops)@) == ops_view(old(ops)@) + spec_step(
                old(self).spec_height(),
                old(self).spec_state(),
                *cmd,
            ).1,
    {
        let ghost dh = self.spec_height();
        let ghost st = self.spec_state();
        let ghost ops0 = ops@;
        match cmd {
            DrawCommand::Clear { r, g, b } => {
                ops.push(PixelOp::FillScreen { color: Rgb { r: *r, g: *g, b: *b } });
                proof {
                    assert(ops_view(ops@) =~= ops_view(ops0) + spec_step(dh, st, *cmd).1);
                }
            },
            DrawCommand::SetColor { r, g, b, a } => {
                let c = if *a > 0 {
                    Some(Rgb { r: *r, g: *g, b: *b })
                } else {
                    None
                };
                self.state.stroke_color = c;
                self.state.fill_color = c;
                self.state.text_color = c;
                proof {
                    assert(ops_view(ops@) =~= ops_view(ops0) + spec_step(dh, st, *cmd).1);
                }
            },
            DrawCommand::Stroke { width } => {
                self.state.stroke_width = u32_of_i16(*width);
                proof {
                    assert(ops_view(ops@) =~= ops_view(ops0) + spec_step(dh, st, *cmd).1);
                }
            },
            DrawCommand::Line { x1, y1, x2, y2 } => {
                if let Some(c) = self.state.stroke_color {
                    let p1 = dev_point(self.state.translate_x, self.state.translate_y, self.height, *x1, *y1);
                    let p2 = dev_point(self.state.translate_x, self.state.translate_y, self.height, *x2, *y2);
                    ops.push(PixelOp::DrawLine {
                        x1: p1.0,
                        y1: p1.1,
                        x2: p2.0,
                        y2: p2.1,
                        color: c,
                        width: self.state.stroke_width,
                    });
                }
                proof {
                    assert(ops_view(ops@) =~= ops_view(ops0) + spec_step(dh, st, *cmd).1);
                }
            },
            DrawCommand::Rect { x, y, width, height, fill } => {
                let anchor = y.wrapping_add(*height);
                let p = dev_point(self.state.translate_x, self.state.translate_y, self.height, *x, anchor);
                let ox = p.0.wrapping_add(1);
                let oy = p.1;
                if *fill {
                    if let Some(c) = self.state.fill_color {
                        ops.push(PixelOp::FillRect {
                            x: ox,
                            y: oy,
                            width: u32_of_i16(*width),
                            height: u32_of_i16(*height),
                            color: c,
                        });
                    }
                } else {
                    if let Some(c) = self.state.stroke_color {
                        ops.push(PixelOp::OutlineRect {
                            x: ox,
                            y: oy,
                            width: u32_of_i16(*width),
                            height: u32_of_i16(*height),
                            color: c,
                            stroke: self.state.stroke_width,
                        });
                    }
                }
                proof {
                    assert(ops_view(ops@) =~= ops_view(ops0) + spec_step(dh, st, *cmd).1);
                }
            },
            DrawCommand::Poly => {
                proof {
                    assert(ops_view(ops@) =~= ops_view(ops0) + spec_step(dh, st, *cmd).1);
                }
            },
            DrawCommand::Triangle { x1, y1, x2, y2, x3, y3 } => {
                if let Some(c) = self.state.fill_color {
                    let p1 = dev_point(self.state.translate_x, self.state.translate_y, self.height, *x1, *y1);
                    let p2 = dev_point(self.state.translate_x, self.state.translate_y, self.height, *x2, *y2);
                    let p3 = dev_point(self.state.translate_x, self.state.translate_y, self.height, *x3, *y3);
                    ops.push(PixelOp::FillTriangle {
                        x1: p1.0,
                        y1: p1.1,
                        x2: p2.0,
                        y2: p2.1,
                        x3: p3.0,
                        y3: p3.1,
                        color: c,
                    });
                }
                proof {
                    assert(ops_view(ops@) =~= ops_view(ops0) + spec_step(dh, st, *cmd).1);
                }
            },
            DrawCommand::Image => {
                proof {
                    assert(ops_view(ops@) =~= ops_view(ops0) + spec_step(dh, st, *cmd).1);
                }
            },
            DrawCommand::Print { x, y, alignment, text } => {
                if let Some(c) = self.state.text_color {
                    let p = dev_point(
                        self.state.translate_x,
                        self.state.translate_y,
                        self.height,
                        x.wrapping_add(1),
                        y.wrapping_sub(2),
                    );
                    let left = *alignment & ALIGN_LEFT != 0;
                    let right = *alignment & ALIGN_RIGHT != 0;
                    let top = *alignment & ALIGN_TOP != 0;
                    let bottom = *alignment & ALIGN_BOTTOM != 0;
                    let px = if !left && right {
                        p.0.wrapping_sub(1)
                    } else {
                        p.0
                    };
                    let py = if !bottom && top {
                        p.1.wrapping_add(1)
                    } else {
                        p.1
                    };
                    let halign = if left {
                        HAlign::Left
                    } else if right {
                        HAlign::Right
                    } else {
                        HAlign::Center
                    };
                    let valign = if bottom {
                        VAlign::Bottom
                    } else if top {
                        VAlign::Top
                    } else {
                        VAlign::Middle
                    };
                    ops.push(PixelOp::DrawText {
                        x: px,
                        y: py,
                        halign,
                        valign,
                        color: c,
                        text: decode_lossy(text),
                    });
                }
                proof {
                    assert(ops_view(ops@) =~= ops_view(ops0) + spec_step(dh, st, *cmd).1);
                }
            },
            DrawCommand::Translate { x, y } => {
                self.state.translate_x = self.state.translate_x.wrapping_add(*x as i32);
                self.state.translate_y = self.state.translate_y.wrapping_add(*y as i32);
                proof {
                    assert(ops_view(ops@) =~= ops_view(ops0) + spec_step(dh, st, *cmd).1);
                }
            },
            DrawCommand::Scale => {
                proof {
                    assert(ops_view(ops@) =~= ops_view(ops0) + spec_step(dh, st, *cmd).1);
                }
            },
            DrawCommand::Rotate => {
                proof {
                    assert(ops_view(ops@) =~= ops_view(ops0) + spec_step(dh, st, *cmd).1);
                }
            },
            DrawCommand::Reset => {
                self.state.translate_x = 0;
                self.state.translate_y = 0;
                proof {
                    assert(ops_view(ops@) =~= ops_view(ops0) + spec_step(dh, st, *cmd).1);
                }
            },
        }
    }

    /// Answers a sensor query: the renderer reports its surface
    /// dimensions and the number of completed flushes.
    pub fn sensor(&self, tag: SensorTag) -> (r: Option<Value>)
        ensures
            r == (match tag {
                SensorTag::DisplayWidth => Some(Value::Num(self.spec_width() as i64)),
                SensorTag::DisplayHeight => Some(Value::Num(self.spec_height() as i64)),
                SensorTag::Operations => Some(Value::Num(self.spec_operations() as i64)),
                _ => None::<Value>,
            }),
    {
        match tag {
            SensorTag::DisplayWidth => Some(Value::Num(self.width as i64)),
            SensorTag::DisplayHeight => Some(Value::Num(self.height as i64)),
            SensorTag::Operations => Some(Value::Num(self.operations as i64)),
            _ => None,
        }
    }
}

/// A logical point mapped to the device: translate, shift the 1-based
/// origin, invert Y against the surface height.
pub fn dev_point(tx: i32, ty: i32, dh: u32, x: i16, y: i16) -> (p: (i32, i32))
    requires
        dh <= 0x7FFF_FFFF,
    ensures
        p.0 == spec_dev_x(tx, x),
        p.1 == spec_dev_y(dh, ty, y),
{
    let px = (x as i32).wrapping_add(tx).wrapping_sub(1);
    let py_log = (y as i32).wrapping_add(ty).wrapping_sub(1);
    let py = (dh as i32).wrapping_sub(py_log).wrapping_sub(1);
    (px, py)
}

/// A stroke or size operand widened exactly as `spec_u32_of_i16` says.
pub fn u32_of_i16(w: i16) -> (r: u32)
    ensures
        r == spec_u32_of_i16(w),
{
    if w >= 0 {
        w as u32
    } else {
        ((w as i64) + 0x1_0000_0000i64) as u32
    }
}

/// Translation moves the device image rigidly: adding `(dx, dy)` to the
/// translation shifts every device X by `+dx` and — the Y axis being
/// inverted — every device Y by `-dy`, in the same wrapping arithmetic.
pub proof fn lemma_dev_translation(tx: i32, ty: i32, dx: i32, dy: i32, dh: u32, x: i16, y: i16)
    ensures
        spec_dev_x(i32_specs::wrapping_add(tx, dx), x) == i32_specs::wrapping_add(
            spec_dev_x(tx, x),
            dx,
        ),
        spec_dev_y(dh, i32_specs::wrapping_add(ty, dy), y) == i32_specs::wrapping_sub(
            spec_dev_y(dh, ty, y),
            dy,
        ),
{
}

/// A translate command, then a line: the line is drawn exactly as it
/// would have been without the translate command, with every endpoint
/// offset by `+dx` horizontally and `-dy` vertically (device Y grows
/// downward), and the translation stays in force afterwards.
pub proof fn lemma_translate_then_line(
    dh: u32,
    st: RenderState,
    dx: i16,
    dy: i16,
    x1: i16,
    y1: i16,
    x2: i16,
    y2: i16,
)
    requires
        st.stroke_color is Some,
    ensures
        ({
            let st2 = spec_step(dh, st, (DrawCommand::Translate { x: dx, y: dy })).0;
            spec_step(dh, st2, (DrawCommand::Line { x1, y1, x2, y2 })).1 == seq![
                PixelOpV::DrawLine {
                    x1: i32_specs::wrapping_add(spec_dev_x(st.translate_x, x1), dx as i32),
                    y1: i32_specs::wrapping_sub(spec_dev_y(dh, st.translate_y, y1), dy as i32),
                    x2: i32_specs::wrapping_add(spec_dev_x(st.translate_x, x2), dx as i32),
                    y2: i32_specs::wrapping_sub(spec_dev_y(dh, st.translate_y, y2), dy as i32),
                    color: st.stroke_color->Some_0,
                    width: st.stroke_width,
                },
            ]
        }),
{
    let st2 = spec_step(dh, st, (DrawCommand::Translate { x: dx, y: dy })).0;
    lemma_dev_translation(st.translate_x, st.translate_y, dx as i32, dy as i32, dh, x1, y1);
    lemma_dev_translation(st.translate_x, st.translate_y, dx as i32, dy as i32, dh, x2, y2);
    assert(spec_step(dh, st2, (DrawCommand::Line { x1, y1, x2, y2 })).1 =~= seq![
        PixelOpV::DrawLine {
            x1: i32_specs::wrapping_add(spec_dev_x(st.translate_x, x1), dx as i32),
            y1: i32_specs::wrapping_sub(spec_dev_y(dh, st.translate_y, y1), dy as i32),
            x2: i32_specs::wrapping_add(spec_dev_x(st.translate_x, x2), dx as i32),
            y2: i32_specs::wrapping_sub(spec_dev_y(dh, st.translate_y, y2), dy as i32),
            color: st.stroke_color->Some_0,
            width: st.stroke_width,
        },
    ]);
}

/// A fully transparent color (alpha zero) is an explicit "no color"
/// state, not a no-op: it suppresses every subsequent stroke, fill and
/// text operation until a color is set again.  Clearing is unaffected —
/// it carries its own color.
pub proof fn lemma_transparent_color_suppresses(
    dh: u32,
    st: RenderState,
    r: u8,
    g: u8,
    b: u8,
    cmd: DrawCommand,
)
    requires
        cmd is Line || cmd is Rect || cmd is Triangle || cmd is Print,
    ensures
        spec_step(dh, st, (DrawCommand::SetColor { r, g, b, a: 0 })).1 =~= Seq::<
            PixelOpV,
        >::empty(),
        spec_step(
            dh,
            spec_step(dh, st, (DrawCommand::SetColor { r, g, b, a: 0 })).0,
            cmd,
        ).1 =~= Seq::<PixelOpV>::empty(),
{
}

/// A reset zeroes the translation and nothing else: colors and stroke
/// width persist, and no pixel operation is emitted.
pub proof fn lemma_reset_zeroes_translation_only(dh: u32, st: RenderState)
    ensures
        spec_step(dh, st, DrawCommand::Reset).0.translate_x == 0,
        spec_step(dh, st, DrawCommand::Reset).0.translate_y == 0,
        spec_step(dh, st, DrawCommand::Reset).0.stroke_color == st.stroke_color,
        spec_step(dh, st, DrawCommand::Reset).0.fill_color == st.fill_color,
        spec_step(dh, st, DrawCommand::Reset).0.text_color == st.text_color,
        spec_step(dh, st, DrawCommand::Reset).0.stroke_width == st.stroke_width,
        spec_step(dh, st, DrawCommand::Reset).1 =~= Seq::<PixelOpV>::empty(),
{
}

/// Rectangle anchoring, on coordinates where no wrapping occurs: a
/// filled rectangle given by its bottom-left logical corner `(x, y)`
/// fills the device region whose top-left corner is
/// `(x + tx, dh - (y + height) - ty)` — the bottom-left anchor shifted
/// up by the height, Y-inverted, with the renderer's one-pixel
/// horizontal calibration folded in — and whose extent is
/// `width x height`.
pub proof fn lemma_rect_anchoring(dh: u32, st: RenderState, x: i16, y: i16, w: i16, h: i16)
    requires
        st.fill_color is Some,
        w >= 0,
        h >= 0,
        dh <= 0x7FFF_FFFF,
        -0x8000 <= y + h <= 0x7FFF,
        -0x7FFF_FFFF <= x + st.translate_x <= 0x7FFF_FFFF,
        -0x7FFF_FFFE <= y + h + st.translate_y <= 0x7FFF_FFFF,
        -0x7FFF_FFFF <= dh - (y + h + st.translate_y - 1) <= 0x7FFF_FFFF,
    ensures
        spec_step(dh, st, (DrawCommand::Rect { x, y, width: w, height: h, fill: true })).1 =~= seq![
            PixelOpV::FillRect {
                x: (x + st.translate_x) as i32,
                y: (dh - (y + h) - st.translate_y) as i32,
                width: w as u32,
                height: h as u32,
                color: st.fill_color->Some_0,
            },
        ],
{
    assert(i16_specs::wrapping_add(y, h) == y + h);
}

} // verus!
