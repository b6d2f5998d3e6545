//! Drawing a chart on a canvas of RGB pixels.

use crate::calendar::current_utc_year;
use crate::chart::{
    annual_chart, blank_canvas, hourly_chart, make_png, png_encoding, Chart, ChartError,
    CANVAS_BYTES, HEIGHT, WIDTH,
};
use plotters::prelude::{
    BitMapBackend, ChartBuilder, Color, Histogram, IntoDrawingArea, IntoFont, BLACK, WHITE,
};
use plotters::style::{ShapeStyle, TextStyle};
use vstd::prelude::*;

verus! {

/// Space around the chart, in pixels.
pub const MARGIN: u32 = 10;

/// Height of the area under the category axis and width of the area beside
/// the value axis, in pixels.
pub const LABEL_AREA: u32 = 50;

/// Size of the caption's font.
pub const CAPTION_SIZE: u32 = 30;

/// Size of the font of the axes' descriptions and tick labels.
pub const LABEL_SIZE: u32 = 15;

/// How plotters draws a shape: colour, filling and stroke.
#[verifier::external_type_specification]
#[verifier::external_body]
pub struct ExShapeStyle(ShapeStyle);

/// How plotters draws a text: font, colour and anchor.
#[verifier::external_type_specification]
#[verifier::external_body]
pub struct ExTextStyle<'a>(TextStyle<'a>);

/// Trusted: plotters' `into_font` on a family and a size, then
/// `FontDesc::color` with `WHITE`. Nothing is claimed of the style.
#[verifier::external_body]
fn white_text(family: &'static str, size: u32) -> TextStyle<'static> {
    (family, size).into_font().color(&WHITE)
}

/// Trusted: plotters' `Color::filled` on `WHITE`. Nothing is claimed of the
/// style.
#[verifier::external_body]
fn white_fill() -> ShapeStyle {
    WHITE.filled()
}

/// Trusted: opens plotters' `BitMapBackend::with_buffer` on the canvas,
/// fills the drawing area with `BLACK`, builds a chart on it with
/// `ChartBuilder` (margin, caption, label areas, `build_cartesian_2d` over
/// `0..n` and `0..y_upper`), draws its mesh with `configure_mesh` (styles,
/// descriptions, `n` labels, tick texts from `Chart::tick_label`) and its
/// bars with `draw_series` on `Histogram::vertical`, then calls `present`.
/// The result is `None` where one of them reported an error. `with_buffer`
/// panics on a canvas of fewer than three bytes per pixel, which `requires`
/// leaves out; the rest of `requires` fixes what is drawn: one tick and one
/// bar per entry of the chart, each bar at its index with its value, and a
/// value axis up to `y_upper` of the chart, which is never 0. The backend
/// writes into the bytes it was given, so their number stays. The text is
/// drawn with a font that the machine provides, so nothing is claimed of the
/// pixels.
#[verifier::external_body]
fn plot(
    buffer: &mut Vec<u8>,
    size: (u32, u32),
    chart: &Chart,
    n: usize,
    y_upper: usize,
    bars: Vec<(usize, usize)>,
    title: TextStyle<'static>,
    text: TextStyle<'static>,
    fill: ShapeStyle,
    margin: u32,
    area: u32,
) -> (done: Option<()>)
    requires
        old(buffer)@.len() >= 3 * size.0 * size.1,
        size.0 * size.1 <= u32::MAX,
        size == (WIDTH, HEIGHT),
        margin == MARGIN,
        area == LABEL_AREA,
        n == chart.data@.len(),
        y_upper == crate::chart::y_upper(chart.data@),
        bars@.len() == n,
        forall|i: int|
            0 <= i < n ==> (#[trigger] bars@[i]).0 == i && bars@[i].1 == chart.data@[i].value,
    ensures
        final(buffer)@.len() == old(buffer)@.len(),
{
    let root = BitMapBackend::with_buffer(buffer, size).into_drawing_area();
    root.fill(&BLACK).ok()?;
    let mut ctx = ChartBuilder::on(&root).margin(margin).caption(&chart.caption, title)
        .x_label_area_size(area).y_label_area_size(area)
        .build_cartesian_2d(0..n, 0..y_upper).ok()?;
    ctx.configure_mesh().axis_style(fill).axis_desc_style(text.clone())
        .x_desc(&chart.x_desc).y_desc(&chart.y_desc).label_style(text)
        .x_labels(n).x_label_formatter(&|i| chart.tick_label(*i)).draw().ok()?;
    ctx.draw_series(Histogram::vertical(&ctx).style(fill).data(bars)).ok()?;
    root.present().ok()
}

/// Draws the chart on the canvas: a black ground, then caption, axes and
/// white bars. A canvas of fewer than `CANVAS_BYTES` bytes is refused and
/// left as it is, and no other is refused; whether the drawing itself
/// succeeds is the drawing backend's to say.
pub fn draw_chart(chart: &Chart, buffer: &mut Vec<u8>) -> (r: Result<(), ChartError>)
    ensures
        r == Err::<(), ChartError>(ChartError::BufferTooSmall) <==> old(buffer)@.len()
            < CANVAS_BYTES,
        old(buffer)@.len() < CANVAS_BYTES ==> final(buffer)@ == old(buffer)@,
        r matches Err(e) ==> e == ChartError::BufferTooSmall || e == ChartError::Drawing,
        final(buffer)@.len() == old(buffer)@.len(),
{
    if buffer.len() < CANVAS_BYTES {
        return Err(ChartError::BufferTooSmall);
    }
    let y_upper = chart.y_axis_upper();
    let drawn = plot(
        buffer,
        (WIDTH, HEIGHT),
        chart,
        chart.data.len(),
        y_upper,
        chart.bars(),
        white_text("sans-serif", CAPTION_SIZE),
        white_text("sans-serif", LABEL_SIZE),
        white_fill(),
        MARGIN,
        LABEL_AREA,
    );
    match drawn {
        Some(()) => Ok(()),
        None => Err(ChartError::Drawing),
    }
}

/// The chart as a PNG file: drawn on a black canvas and encoded. It is never
/// refused for the canvas's size. Whether the drawing succeeds is the
/// drawing backend's to say; a canvas that was drawn gives the encoder's
/// file wherever the encoder gives one.
pub fn render(chart: &Chart) -> (r: Result<Vec<u8>, ChartError>)
    ensures
        r matches Err(e) ==> e == ChartError::Drawing || e == ChartError::Encoding,
        r matches Ok(bytes) ==> is_chart_png(bytes@),
        r is Err && r.unwrap_err() == ChartError::Encoding ==> some_canvas_is_refused(),
{
    let mut buffer = blank_canvas();
    match draw_chart(chart, &mut buffer) {
        Ok(()) => {},
        Err(e) => {
            return Err(e);
        },
    }
    make_png(buffer)
}

/// Whether the encoder reports an error for some canvas of `WIDTH` by
/// `HEIGHT` pixels.
pub open spec fn some_canvas_is_refused() -> bool {
    exists|canvas: Seq<u8>|
        canvas.len() == CANVAS_BYTES && #[trigger] png_encoding(
            WIDTH as int,
            HEIGHT as int,
            canvas,
        ) is None
}

/// Whether `bytes` is the PNG file of some canvas of `WIDTH` by `HEIGHT`
/// pixels.
pub open spec fn is_chart_png(bytes: Seq<u8>) -> bool {
    exists|canvas: Seq<u8>|
        canvas.len() == CANVAS_BYTES && #[trigger] png_encoding(
            WIDTH as int,
            HEIGHT as int,
            canvas,
        ) == Some(bytes)
}

/// The PNG file of the chart of one user's events by month, for the given
/// year or, where none is given, for the year that the clock shows in UTC:
/// `annual_chart` says what is drawn.
pub fn generate_personal_annual_chart(
    username: &str,
    timestamps: Vec<i64>,
    year: Option<i32>,
) -> (r: Result<Vec<u8>, ChartError>)
    ensures
        r matches Err(e) ==> e == ChartError::Drawing || e == ChartError::Encoding,
        r matches Ok(bytes) ==> is_chart_png(bytes@),
        r is Err && r.unwrap_err() == ChartError::Encoding ==> some_canvas_is_refused(),
{
    let year: i32 = match year {
        Some(y) => y,
        None => current_utc_year(),
    };
    let chart = annual_chart(username, timestamps, year);
    render(&chart)
}

/// The PNG file of the chart of one user's events by hour of the day:
/// `hourly_chart` says what is drawn.
pub fn generate_personal_hourly_chart(username: &str, timestamps: Vec<i64>) -> (r: Result<
    Vec<u8>,
    ChartError,
>)
    ensures
        r matches Err(e) ==> e == ChartError::Drawing || e == ChartError::Encoding,
        r matches Ok(bytes) ==> is_chart_png(bytes@),
        r is Err && r.unwrap_err() == ChartError::Encoding ==> some_canvas_is_refused(),
{
    let chart = hourly_chart(username, timestamps);
    render(&chart)
}

} // verus!
