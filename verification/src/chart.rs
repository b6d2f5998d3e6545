//! What a histogram chart shows: its texts, its bars, the range of its value
//! axis and the labels of its ticks; and the PNG encoding of a drawn canvas.

use crate::buckets::{
    bucket_hourly, bucket_monthly, hourly_count, monthly_count, total, valid_count, year_count,
};
use crate::decimal::{decimal_int, decimal_nat, push_signed_decimal, unsigned_to_decimal};
use image::{DynamicImage, ImageBuffer, ImageFormat, Rgb};
use std::io::Cursor;
use vstd::prelude::*;

verus! {

/// Width of the canvas in pixels.
pub const WIDTH: u32 = 640;

/// Height of the canvas in pixels.
pub const HEIGHT: u32 = 480;

/// Bytes of an RGB canvas of `WIDTH` by `HEIGHT` pixels.
pub const CANVAS_BYTES: usize = 921600;

/// One bar of a histogram.
#[derive(Debug)]
pub struct ChartData {
    pub value: usize,
    /// The text under the bar; the bar's index is shown where there is none.
    pub label: Option<String>,
}

/// A histogram as it is to be drawn.
#[derive(Debug)]
pub struct Chart {
    pub caption: String,
    pub x_desc: String,
    pub y_desc: String,
    pub data: Vec<ChartData>,
}

/// Why a chart could not be produced.
#[derive(Clone, Copy, Debug, PartialEq, Eq)]
pub enum ChartError {
    /// The canvas holds fewer bytes than its dimensions need.
    BufferTooSmall,
    /// The canvas holds more bytes than its dimensions need.
    BufferTooLarge,
    /// The drawing backend reported a failure.
    Drawing,
    /// The encoder reported a failure.
    Encoding,
}

/// The values of the bars, in order.
pub open spec fn values(data: Seq<ChartData>) -> Seq<usize> {
    Seq::new(data.len(), |i: int| data[i].value)
}

/// The greatest value among the bars, 0 where there is none.
pub open spec fn max_value(data: Seq<ChartData>) -> int
    decreases data.len(),
{
    if data.len() == 0 {
        0
    } else {
        let m = max_value(data.drop_last());
        if data.last().value > m {
            data.last().value as int
        } else {
            m
        }
    }
}

/// The upper end of the value axis: the greatest value, but 1 where every bar
/// is zero, so that the axis never collapses.
pub open spec fn y_upper(data: Seq<ChartData>) -> int {
    if max_value(data) == 0 {
        1
    } else {
        max_value(data)
    }
}

/// The text of tick `i`: the bar's label, else the index in decimal.
pub open spec fn tick_text(data: Seq<ChartData>, i: int) -> Seq<char>
    recommends
        0 <= i,
{
    if 0 <= i < data.len() && data[i].label is Some {
        data[i].label.unwrap()@
    } else {
        decimal_nat(i as nat)
    }
}

/// Every bar is at most the greatest value, and a bar attains it unless it
/// is 0.
pub proof fn lemma_max_value(data: Seq<ChartData>)
    ensures
        forall|i: int| 0 <= i < data.len() ==> (#[trigger] data[i]).value <= max_value(data),
        max_value(data) == 0 || exists|i: int|
            0 <= i < data.len() && (#[trigger] data[i]).value == max_value(data),
    decreases data.len(),
{
    if data.len() > 0 {
        let front = data.drop_last();
        lemma_max_value(front);
        assert forall|i: int| 0 <= i < data.len() implies (#[trigger] data[i]).value <= max_value(
            data,
        ) by {
            if i < front.len() {
                assert(front[i] == data[i]);
            }
        }
        if max_value(data) != 0 {
            if data.last().value > max_value(front) {
                assert(data[data.len() - 1].value == max_value(data));
            } else {
                let i = choose|i: int|
                    0 <= i < front.len() && (#[trigger] front[i]).value == max_value(front);
                assert(data[i] == front[i]);
            }
        }
    }
}

/// The value axis of a chart is never empty: its upper end is at least 1,
/// also where every bar is zero.
pub proof fn lemma_y_axis_visible(data: Seq<ChartData>)
    ensures
        y_upper(data) >= 1,
        forall|i: int| 0 <= i < data.len() ==> (#[trigger] data[i]).value <= y_upper(data),
        (forall|i: int| 0 <= i < data.len() ==> (#[trigger] data[i]).value == 0) ==> y_upper(data)
            == 1,
{
    lemma_max_value(data);
}

impl Chart {
    /// The upper end of the value axis, which starts at 0.
    pub fn y_axis_upper(&self) -> (r: usize)
        ensures
            r == y_upper(self.data@),
            r >= 1,
    {
        let mut m: usize = 0;
        let mut i: usize = 0;
        assert(self.data@.take(0).len() == 0);
        while i < self.data.len()
            invariant
                i <= self.data@.len(),
                m == max_value(self.data@.take(i as int)),
            decreases self.data@.len() - i,
        {
            assert(self.data@.take(i + 1).drop_last() =~= self.data@.take(i as int));
            if self.data[i].value > m {
                m = self.data[i].value;
            }
            i += 1;
        }
        assert(self.data@.take(i as int) =~= self.data@);
        if m == 0 {
            1
        } else {
            m
        }
    }

    /// The text of the tick at index `i` of the category axis.
    pub fn tick_label(&self, i: usize) -> (r: String)
        ensures
            r@ == tick_text(self.data@, i as int),
    {
        if i < self.data.len() {
            match &self.data[i].label {
                Some(text) => {
                    return text.clone();
                },
                None => {},
            }
        }
        unsigned_to_decimal(i as u64)
    }

    /// The bars as pairs of index and value, in order.
    pub fn bars(&self) -> (r: Vec<(usize, usize)>)
        ensures
            r@.len() == self.data@.len(),
            forall|i: int|
                0 <= i < r@.len() ==> (#[trigger] r@[i]).0 == i && r@[i].1 == self.data@[i].value,
    {
        let mut out: Vec<(usize, usize)> = Vec::new();
        let mut i: usize = 0;
        while i < self.data.len()
            invariant
                i <= self.data@.len(),
                out@.len() == i,
                forall|j: int|
                    0 <= j < i ==> (#[trigger] out@[j]).0 == j && out@[j].1 == self.data@[j].value,
            decreases self.data@.len() - i,
        {
            out.push((i, self.data[i].value));
            i += 1;
        }
        out
    }
}

/// Bars without labels for the given counts, in order.
fn unlabelled(counts: &[usize]) -> (data: Vec<ChartData>)
    ensures
        data@.len() == counts@.len(),
        forall|i: int|
            0 <= i < data@.len() ==> (#[trigger] data@[i]).value == counts@[i] && data@[i].label
                is None,
        values(data@) == counts@,
{
    let mut data: Vec<ChartData> = Vec::new();
    let mut i: usize = 0;
    while i < counts.len()
        invariant
            i <= counts@.len(),
            data@.len() == i,
            forall|j: int|
                0 <= j < i ==> (#[trigger] data@[j]).value == counts@[j] && data@[j].label is None,
        decreases counts@.len() - i,
    {
        data.push(ChartData { value: counts[i], label: None });
        i += 1;
    }
    assert(values(data@) =~= counts@);
    data
}

/// The twelve bars of the year `year`: how many of the timestamps fall in
/// each of its months, January first.
pub fn prepare_annual_data(timestamps: Vec<i64>, year: i32) -> (data: Vec<ChartData>)
    ensures
        data@.len() == 12,
        forall|m: int|
            0 <= m < 12 ==> (#[trigger] data@[m]).value == monthly_count(
                timestamps@,
                year as int,
                m,
            ) && data@[m].label is None,
        total(values(data@)) == year_count(timestamps@, year as int),
        total(values(data@)) <= timestamps@.len(),
{
    let counts = bucket_monthly(&timestamps, year);
    unlabelled(counts.as_slice())
}

/// The twenty-four bars of the day: how many of the timestamps fall in each
/// hour, on whatever day.
pub fn prepare_hourly_data(timestamps: Vec<i64>) -> (data: Vec<ChartData>)
    ensures
        data@.len() == 24,
        forall|h: int|
            0 <= h < 24 ==> (#[trigger] data@[h]).value == hourly_count(timestamps@, h)
                && data@[h].label is None,
        total(values(data@)) == valid_count(timestamps@),
        total(values(data@)) <= timestamps@.len(),
{
    let counts = bucket_hourly(&timestamps);
    unlabelled(counts.as_slice())
}

/// The caption of the annual chart: the name, then the year.
pub open spec fn annual_caption(username: Seq<char>, year: int) -> Seq<char> {
    username + " - "@ + decimal_int(year)
}

/// The chart of one user's events of the year `year`, by month.
pub fn annual_chart(username: &str, timestamps: Vec<i64>, year: i32) -> (chart: Chart)
    ensures
        chart.caption@ == annual_caption(username@, year as int),
        chart.x_desc@ == "Month"@,
        chart.y_desc@ == "Score"@,
        chart.data@.len() == 12,
        forall|m: int|
            0 <= m < 12 ==> (#[trigger] chart.data@[m]).value == monthly_count(
                timestamps@,
                year as int,
                m,
            ) && chart.data@[m].label is None,
{
    let mut caption = username.to_owned();
    caption.push_str(" - ");
    push_signed_decimal(&mut caption, year as i64);
    let data = prepare_annual_data(timestamps, year);
    Chart { caption, x_desc: "Month".to_owned(), y_desc: "Score".to_owned(), data }
}

/// The chart of one user's events by hour of the day.
pub fn hourly_chart(username: &str, timestamps: Vec<i64>) -> (chart: Chart)
    ensures
        chart.caption@ == username@,
        chart.x_desc@ == "Hour, UTC"@,
        chart.y_desc@ == "Score"@,
        chart.data@.len() == 24,
        forall|h: int|
            0 <= h < 24 ==> (#[trigger] chart.data@[h]).value == hourly_count(timestamps@, h)
                && chart.data@[h].label is None,
{
    let data = prepare_hourly_data(timestamps);
    Chart {
        caption: username.to_owned(),
        x_desc: "Hour, UTC".to_owned(),
        y_desc: "Score".to_owned(),
        data,
    }
}

/// A black canvas: `CANVAS_BYTES` zero bytes.
pub fn blank_canvas() -> (buffer: Vec<u8>)
    ensures
        buffer@.len() == CANVAS_BYTES,
        forall|i: int| 0 <= i < buffer@.len() ==> buffer@[i] == 0,
{
    let mut buffer: Vec<u8> = Vec::new();
    let mut i: usize = 0;
    while i < CANVAS_BYTES
        invariant
            i <= CANVAS_BYTES,
            buffer@.len() == i,
            forall|j: int| 0 <= j < i ==> buffer@[j] == 0,
        decreases CANVAS_BYTES - i,
    {
        buffer.push(0u8);
        i += 1;
    }
    buffer
}

/// The error that the image crate's encoder reports.
#[verifier::external_type_specification]
#[verifier::external_body]
pub struct ExImageError(image::ImageError);

/// What the image crate's PNG encoder gives for an RGB image of the given
/// width and height whose pixels are the bytes of `buffer`, three per pixel,
/// row by row: the file it writes, or `None` where it reports an error.
pub uninterp spec fn png_encoding(width: int, height: int, buffer: Seq<u8>) -> Option<Seq<u8>>;

/// Trusted: calls `image::ImageBuffer::from_raw` for an `Rgb<u8>` image and
/// `image::DynamicImage::write_to` with `ImageFormat::Png`, into a vector.
/// The encoder panics on a buffer that is longer than three bytes per pixel,
/// which `requires` leaves out. The contract claims that the result is `None`
/// exactly where `from_raw` refuses the buffer, which it does where the
/// buffer holds fewer than three bytes per pixel, and that what the encoder
/// reports, and the bytes it writes, depend on the arguments alone
/// (`png_encoding`). Nothing is claimed of when the encoder succeeds.
#[verifier::external_body]
fn encode_rgb_png(width: u32, height: u32, buffer: Vec<u8>) -> (r: Option<
    Result<Vec<u8>, image::ImageError>,
>)
    requires
        buffer@.len() <= 3 * width * height,
    ensures
        r is None <==> buffer@.len() < 3 * width * height,
        r matches Some(Ok(bytes)) ==> png_encoding(width as int, height as int, buffer@) == Some(
            bytes@,
        ),
        r matches Some(Err(_)) ==> png_encoding(width as int, height as int, buffer@) is None,
{
    let image: ImageBuffer<Rgb<u8>, Vec<u8>> = ImageBuffer::from_raw(width, height, buffer)?;
    let mut png: Vec<u8> = Vec::new();
    let written = DynamicImage::ImageRgb8(image).write_to(&mut Cursor::new(&mut png), ImageFormat::Png);
    Some(written.map(|_| png))
}

/// What `make_png` returns for what the encoder handed back: `None` stands
/// for a buffer that the image crate refused.
pub fn png_outcome(encoded: Option<Result<Vec<u8>, image::ImageError>>) -> (r: Result<
    Vec<u8>,
    ChartError,
>)
    ensures
        encoded is None ==> r == Err::<Vec<u8>, ChartError>(ChartError::BufferTooSmall),
        encoded matches Some(Err(_)) ==> r == Err::<Vec<u8>, ChartError>(ChartError::Encoding),
        encoded matches Some(Ok(bytes)) ==> r == Ok::<Vec<u8>, ChartError>(bytes),
{
    match encoded {
        None => Err(ChartError::BufferTooSmall),
        Some(Err(_)) => Err(ChartError::Encoding),
        Some(Ok(bytes)) => Ok(bytes),
    }
}

/// Encodes a drawn canvas of `WIDTH` by `HEIGHT` RGB pixels as a PNG file.
/// A canvas that does not hold exactly `CANVAS_BYTES` bytes is refused; one
/// that does is encoded: the result is the encoder's file wherever the
/// encoder gives one, and `ChartError::Encoding` wherever it does not.
pub fn make_png(buffer: Vec<u8>) -> (r: Result<Vec<u8>, ChartError>)
    ensures
        r is Ok <==> buffer@.len() == CANVAS_BYTES && png_encoding(
            WIDTH as int,
            HEIGHT as int,
            buffer@,
        ) is Some,
        r == Err::<Vec<u8>, ChartError>(ChartError::BufferTooSmall) <==> buffer@.len()
            < CANVAS_BYTES,
        r == Err::<Vec<u8>, ChartError>(ChartError::BufferTooLarge) <==> buffer@.len()
            > CANVAS_BYTES,
        r == Err::<Vec<u8>, ChartError>(ChartError::Encoding) <==> buffer@.len() == CANVAS_BYTES
            && png_encoding(WIDTH as int, HEIGHT as int, buffer@) is None,
        r matches Ok(bytes) ==> buffer@.len() == CANVAS_BYTES && png_encoding(
            WIDTH as int,
            HEIGHT as int,
            buffer@,
        ) == Some(bytes@),
{
    if buffer.len() > CANVAS_BYTES {
        return Err(ChartError::BufferTooLarge);
    }
    png_outcome(encode_rgb_png(WIDTH, HEIGHT, buffer))
}

} // verus!
