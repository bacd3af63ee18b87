use vstd::prelude::*;
use crate::request::{decimal, decimal_string};

verus! {

/// Characters that fit on one line of the panel in the body font.
pub const LINE_CHARS: usize = 18;

/// Left margin of every text line, in pixels.
pub const TEXT_X: i32 = 8;

/// The two fonts of the layouts.
#[derive(Clone, Copy, Debug, PartialEq, Eq, Structural)]
pub enum Font {
    /// Bold, for the title line.
    Title,
    /// Regular, for the body lines.
    Body,
}

/// One drawing primitive of a frame, in the order a renderer applies them.
#[derive(Clone, Debug, PartialEq, Eq)]
pub enum DrawOp {
    /// Blank the whole surface.
    Clear,
    /// A two-pixel outline around the whole panel.
    Border,
    /// A one-pixel rule under the title.
    Separator,
    /// One line of text whose top-left corner is at (`x`, `y`).
    Text { text: String, x: i32, y: i32, font: Font },
    /// Send the surface to the panel.
    Flush,
}

/// Mathematical model of a `DrawOp`.
pub enum DrawSpec {
    Clear,
    Border,
    Separator,
    Text { text: Seq<char>, x: int, y: int, font: Font },
    Flush,
}

impl View for DrawOp {
    type V = DrawSpec;

    open spec fn view(&self) -> DrawSpec {
        match self {
            DrawOp::Clear => DrawSpec::Clear,
            DrawOp::Border => DrawSpec::Border,
            DrawOp::Separator => DrawSpec::Separator,
            DrawOp::Text { text, x, y, font } => DrawSpec::Text {
                text: text@,
                x: *x as int,
                y: *y as int,
                font: *font,
            },
            DrawOp::Flush => DrawSpec::Flush,
        }
    }
}

pub open spec fn ops_view(ops: Seq<DrawOp>) -> Seq<DrawSpec> {
    ops.map_values(|op: DrawOp| op@)
}

pub open spec fn line_at(text: Seq<char>, y: int, font: Font) -> DrawSpec {
    DrawSpec::Text { text, x: TEXT_X as int, y, font }
}

/// A full frame: clear, border, separator, the title, the body lines, flush.
pub open spec fn frame(title: Seq<char>, body: Seq<DrawSpec>) -> Seq<DrawSpec> {
    seq![DrawSpec::Clear, DrawSpec::Border, DrawSpec::Separator, line_at(title, 3, Font::Title)]
        + body + seq![DrawSpec::Flush]
}

/// The sensor view for the given temperature and humidity texts.
pub open spec fn sensor_frame(temperature: Seq<char>, humidity: Seq<char>) -> Seq<DrawSpec> {
    frame(
        "DHT11 Sensor"@,
        seq![
            line_at("Temperature: "@ + temperature + "C"@, 22, Font::Body),
            line_at("Humidity: "@ + humidity + "%"@, 40, Font::Body),
        ],
    )
}

/// The lines a parameter is shown on: itself when it fits on one line,
/// otherwise its first line's worth and at most one more, the rest dropped.
pub open spec fn wrapped_lines(p: Seq<char>) -> Seq<Seq<char>> {
    let w = LINE_CHARS as int;
    if p.len() <= w {
        seq![p]
    } else if p.len() <= 2 * w {
        seq![p.subrange(0, w), p.subrange(w, p.len() as int)]
    } else {
        seq![p.subrange(0, w), p.subrange(w, 2 * w)]
    }
}

pub open spec fn parameter_lines(p: Seq<char>) -> Seq<DrawSpec> {
    let lines = wrapped_lines(p);
    if lines.len() == 1 {
        seq![line_at(lines[0], 43, Font::Body)]
    } else {
        seq![line_at(lines[0], 35, Font::Body), line_at(lines[1], 46, Font::Body)]
    }
}

/// The request view for `count` requests and the last parameter `p`.
pub open spec fn requests_frame(count: nat, p: Seq<char>) -> Seq<DrawSpec> {
    frame(
        "Requests: "@ + decimal(count),
        seq![line_at("Ultimo params:"@, 22, Font::Body)] + parameter_lines(p),
    )
}

/// Splits a parameter into the lines it is shown on.
pub fn wrap_parameter(p: &str) -> (r: Vec<String>)
    ensures
        r.deep_view() == wrapped_lines(p@),
{
    let n = p.unicode_len();
    let mut r: Vec<String> = Vec::new();
    if n <= LINE_CHARS {
        r.push(String::from_str(p));
    } else {
        let end = if n <= 2 * LINE_CHARS { n } else { 2 * LINE_CHARS };
        r.push(String::from_str(p.substring_char(0, LINE_CHARS)));
        r.push(String::from_str(p.substring_char(LINE_CHARS, end)));
    }
    assert(r.deep_view() =~= wrapped_lines(p@));
    r
}

fn text_line(text: String, y: i32, font: Font) -> (r: DrawOp)
    ensures
        r@ == line_at(text@, y as int, font),
{
    DrawOp::Text { text, x: TEXT_X, y, font }
}

/// Fills an empty list with the opening of a frame: clear, border,
/// separator and title.
fn push_frame_start(ops: &mut Vec<DrawOp>, title: String)
    requires
        old(ops)@.len() == 0,
    ensures
        ops_view(final(ops)@) == seq![
            DrawSpec::Clear,
            DrawSpec::Border,
            DrawSpec::Separator,
            line_at(title@, 3, Font::Title),
        ],
{
    ops.push(DrawOp::Clear);
    ops.push(DrawOp::Border);
    ops.push(DrawOp::Separator);
    ops.push(text_line(title, 3, Font::Title));
    assert(ops_view(ops@) =~= seq![
        DrawSpec::Clear,
        DrawSpec::Border,
        DrawSpec::Separator,
        line_at(title@, 3, Font::Title),
    ]);
}

/// The draw operations of the sensor view, given the temperature and
/// humidity already written as text.
pub fn sensor_layout(temperature: &str, humidity: &str) -> (r: Vec<DrawOp>)
    ensures
        ops_view(r@) == sensor_frame(temperature@, humidity@),
{
    let mut ops: Vec<DrawOp> = Vec::new();
    push_frame_start(&mut ops, String::from_str("DHT11 Sensor"));
    let t = String::from_str("Temperature: ").concat(temperature).concat("C");
    let h = String::from_str("Humidity: ").concat(humidity).concat("%");
    ops.push(text_line(t, 22, Font::Body));
    ops.push(text_line(h, 40, Font::Body));
    ops.push(DrawOp::Flush);
    assert(ops_view(ops@) =~= sensor_frame(temperature@, humidity@));
    ops
}

/// The draw operations of the request view for `count` requests and the
/// last parameter `parameter`.
pub fn requests_layout(count: u32, parameter: &str) -> (r: Vec<DrawOp>)
    ensures
        ops_view(r@) == requests_frame(count as nat, parameter@),
{
    let mut ops: Vec<DrawOp> = Vec::new();
    push_frame_start(&mut ops, String::from_str("Requests: ").concat(decimal_string(count).as_str()));
    ops.push(text_line(String::from_str("Ultimo params:"), 22, Font::Body));
    let lines = wrap_parameter(parameter);
    assert(lines.deep_view().len() == lines@.len());
    if lines.len() == 1 {
        assert(lines@[0]@ == lines.deep_view()[0]);
        ops.push(text_line(lines[0].clone(), 43, Font::Body));
    } else {
        assert(lines@[0]@ == lines.deep_view()[0]);
        assert(lines@[1]@ == lines.deep_view()[1]);
        ops.push(text_line(lines[0].clone(), 35, Font::Body));
        ops.push(text_line(lines[1].clone(), 46, Font::Body));
    }
    ops.push(DrawOp::Flush);
    assert(ops_view(ops@) =~= requests_frame(count as nat, parameter@));
    ops
}

} // verus!
