//! The display protocol: the reset sequence of the panel and the drawing
//! steps of one render (clear, framed background, text, flush).
use vstd::prelude::*;

verus! {

/// Width of the panel in pixels.
pub const DISPLAY_WIDTH: u32 = 128;

/// Height of the panel in pixels.
pub const DISPLAY_HEIGHT: u32 = 64;

/// Horizontal inset of the text from the left edge, in pixels.
pub const TEXT_INSET: i32 = 10;

/// Height subtracted from the panel's before halving it to place the text's
/// baseline.
pub const TEXT_CENTER_OFFSET: u32 = 10;

/// Hold time with the reset line high before it is pulled low, in ms.
pub const RESET_HIGH_MS: u32 = 1;

/// Hold time with the reset line low, in ms.
pub const RESET_LOW_MS: u32 = 10;

/// One step on the panel's reset line.
#[derive(Clone, Copy, Debug, PartialEq, Eq, Structural)]
pub enum ResetStep {
    DriveHigh,
    DriveLow,
    WaitMillis(u32),
}

/// The reset line's protocol: high, hold, low, hold, high again. The line
/// stays high afterwards for as long as the panel is in use.
pub open spec fn reset_protocol() -> Seq<ResetStep> {
    seq![
        ResetStep::DriveHigh,
        ResetStep::WaitMillis(RESET_HIGH_MS),
        ResetStep::DriveLow,
        ResetStep::WaitMillis(RESET_LOW_MS),
        ResetStep::DriveHigh,
    ]
}

/// The steps that take the panel out of reset.
pub fn reset_sequence() -> (r: Vec<ResetStep>)
    ensures
        r@ == reset_protocol(),
        r@.last() == ResetStep::DriveHigh,
{
    let r = vec![
        ResetStep::DriveHigh,
        ResetStep::WaitMillis(RESET_HIGH_MS),
        ResetStep::DriveLow,
        ResetStep::WaitMillis(RESET_LOW_MS),
        ResetStep::DriveHigh,
    ];
    assert(r@ =~= reset_protocol());
    r
}

/// A pixel of the monochrome panel.
#[derive(Clone, Copy, Debug, PartialEq, Eq, Structural)]
pub enum PixelColor {
    Off,
    On,
}

/// One drawing step of a render.
#[derive(Clone, Debug)]
pub enum DrawOp {
    /// Fill the off-screen buffer with one color.
    Clear(PixelColor),
    /// A rectangle with its top-left corner, size, fill, stroke and stroke
    /// width.
    Rectangle { x: i32, y: i32, width: u32, height: u32, fill: PixelColor, stroke: PixelColor, stroke_width: u32 },
    /// Text in the fixed-width font, with its baseline's left end at
    /// `(x, y)`.
    Text { x: i32, y: i32, color: PixelColor, text: String },
    /// Send the buffer to the panel.
    Flush,
}

/// Where the text of a render starts on a panel `height` pixels high: inset
/// from the left edge and centered vertically.
pub open spec fn text_origin(height: u32) -> (i32, i32) {
    (TEXT_INSET, ((height - TEXT_CENTER_OFFSET) / 2) as i32)
}

/// The steps of one render of `text` on a panel of the given size, in
/// order: clear to the background, draw a rectangle over the whole panel
/// with a light stroke, draw the text, flush.
pub open spec fn render_steps(text: Seq<char>, width: u32, height: u32, r: Seq<DrawOp>) -> bool {
    &&& r.len() == 4
    &&& r[0] == DrawOp::Clear(PixelColor::Off)
    &&& r[1] == DrawOp::Rectangle {
        x: 0,
        y: 0,
        width,
        height,
        fill: PixelColor::Off,
        stroke: PixelColor::On,
        stroke_width: 1,
    }
    &&& r[2] matches DrawOp::Text { x, y, color, text: t }
        && (x, y) == text_origin(height) && color == PixelColor::On && t@ == text
    &&& r[3] == DrawOp::Flush
}

/// The drawing steps that show `text` on a panel of the given size.
pub fn render_plan(text: &str, width: u32, height: u32) -> (r: Vec<DrawOp>)
    requires
        TEXT_CENTER_OFFSET <= height,
    ensures
        render_steps(text@, width, height, r@),
{
    let (x, y) = (TEXT_INSET, ((height - TEXT_CENTER_OFFSET) / 2) as i32);
    let mut r: Vec<DrawOp> = Vec::new();
    r.push(DrawOp::Clear(PixelColor::Off));
    r.push(
        DrawOp::Rectangle {
            x: 0,
            y: 0,
            width,
            height,
            fill: PixelColor::Off,
            stroke: PixelColor::On,
            stroke_width: 1,
        },
    );
    r.push(DrawOp::Text { x, y, color: PixelColor::On, text: text.to_owned() });
    r.push(DrawOp::Flush);
    r
}

} // verus!
