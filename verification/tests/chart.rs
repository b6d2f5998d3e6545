use done_bot::chart::{
    annual_chart, blank_canvas, hourly_chart, make_png, png_outcome, Chart, ChartData, ChartError,
    CANVAS_BYTES, HEIGHT, WIDTH,
};

fn chart_of(values: &[usize]) -> Chart {
    Chart {
        caption: String::from("c"),
        x_desc: String::from("x"),
        y_desc: String::from("y"),
        data: values.iter().map(|v| ChartData { value: *v, label: None }).collect(),
    }
}

#[test]
fn axis_of_all_zero_chart_is_visible() {
    assert_eq!(chart_of(&[0; 24]).y_axis_upper(), 1);
    assert_eq!(chart_of(&[]).y_axis_upper(), 1);
}

#[test]
fn axis_reaches_the_greatest_bar() {
    assert_eq!(chart_of(&[0, 3, 7, 2]).y_axis_upper(), 7);
    assert_eq!(chart_of(&[9, 3]).y_axis_upper(), 9);
    assert_eq!(chart_of(&[1]).y_axis_upper(), 1);
}

#[test]
fn tick_label_is_label_or_index() {
    let mut chart = chart_of(&[1, 2, 3]);
    chart.data[1].label = Some(String::from("Feb"));
    assert_eq!(chart.tick_label(0), "0");
    assert_eq!(chart.tick_label(1), "Feb");
    assert_eq!(chart.tick_label(2), "2");
    assert_eq!(chart.tick_label(23), "23");
    assert_eq!(chart.tick_label(100), "100");
}

#[test]
fn bars_pair_index_and_value() {
    assert_eq!(chart_of(&[4, 0, 6]).bars(), vec![(0, 4), (1, 0), (2, 6)]);
    assert!(chart_of(&[]).bars().is_empty());
}

#[test]
fn annual_chart_texts() {
    let chart = annual_chart("alice", vec![1_704_067_200, 1_709_251_200, 0], 2024);
    assert_eq!(chart.caption, "alice - 2024");
    assert_eq!(chart.x_desc, "Month");
    assert_eq!(chart.y_desc, "Score");
    assert_eq!(chart.data.len(), 12);
    assert_eq!(chart.data[0].value, 1);
    assert_eq!(chart.data[2].value, 1);
    assert_eq!(chart.y_axis_upper(), 1);
}

#[test]
fn annual_chart_of_a_year_before_the_common_era() {
    let chart = annual_chart("a", Vec::new(), -5);
    assert_eq!(chart.caption, "a - -5");
}

#[test]
fn annual_chart_counts_by_month() {
    let chart = annual_chart("bob", vec![0, 1, 86_400 * 40], 1970);
    assert_eq!(chart.caption, "bob - 1970");
    assert_eq!(chart.data[0].value, 2);
    assert_eq!(chart.data[1].value, 1);
    assert_eq!(chart.y_axis_upper(), 2);
}

#[test]
fn hourly_chart_texts() {
    let chart = hourly_chart("carol", vec![3600, 7200, 7201]);
    assert_eq!(chart.caption, "carol");
    assert_eq!(chart.x_desc, "Hour, UTC");
    assert_eq!(chart.y_desc, "Score");
    assert_eq!(chart.data.len(), 24);
    assert_eq!(chart.data[1].value, 1);
    assert_eq!(chart.data[2].value, 2);
}

#[test]
fn blank_canvas_is_black() {
    let canvas = blank_canvas();
    assert_eq!(canvas.len(), CANVAS_BYTES);
    assert_eq!(canvas.len(), (WIDTH * HEIGHT * 3) as usize);
    assert!(canvas.iter().all(|b| *b == 0));
}

#[test]
fn png_of_a_canvas_decodes_to_its_pixels() {
    let mut canvas = blank_canvas();
    canvas[0] = 255;
    canvas[5] = 7;
    let png = make_png(canvas.clone()).unwrap();
    assert_ne!(png, canvas);
    assert_eq!(&png[..8], &[0x89, b'P', b'N', b'G', 0x0d, 0x0a, 0x1a, 0x0a]);
    let decoded = image::load_from_memory(&png).unwrap().to_rgb8();
    assert_eq!(decoded.width(), WIDTH);
    assert_eq!(decoded.height(), HEIGHT);
    assert_eq!(decoded.into_raw(), canvas);
}

#[test]
fn png_is_the_same_for_the_same_canvas() {
    assert_eq!(make_png(blank_canvas()).unwrap(), make_png(blank_canvas()).unwrap());
}

#[test]
fn png_of_a_short_canvas_is_refused() {
    assert_eq!(make_png(vec![0u8; CANVAS_BYTES - 1]), Err(ChartError::BufferTooSmall));
    assert_eq!(make_png(Vec::new()), Err(ChartError::BufferTooSmall));
}

#[test]
fn png_of_a_long_canvas_is_refused() {
    assert_eq!(make_png(vec![0u8; CANVAS_BYTES + 1]), Err(ChartError::BufferTooLarge));
    assert_eq!(make_png(vec![0u8; 2 * CANVAS_BYTES]), Err(ChartError::BufferTooLarge));
}

#[test]
fn png_of_an_exact_canvas_is_encoded() {
    assert!(make_png(vec![200u8; CANVAS_BYTES]).is_ok());
}

#[test]
fn png_outcome_of_each_case() {
    assert_eq!(png_outcome(None), Err(ChartError::BufferTooSmall));
    assert_eq!(png_outcome(Some(Ok(vec![1, 2, 3]))), Ok(vec![1, 2, 3]));
    let failure = image::ImageError::IoError(std::io::Error::other("closed"));
    assert_eq!(png_outcome(Some(Err(failure))), Err(ChartError::Encoding));
}
