use font_raster::error::Error;
use font_raster::metrics::{metrics_from_design, scale_metrics, DesignMetrics, Metrics};
use font_raster::types::Size;

fn design() -> DesignMetrics {
    DesignMetrics {
        units_per_em: 1000,
        ascent: 800,
        descent: 200,
        line_gap: 90,
        underline_position: -100,
        underline_thickness: 50,
        strikeout_position: 300,
        strikeout_thickness: 50,
    }
}

#[test]
fn design_values_are_scaled_by_the_size() {
    let metrics = scale_metrics(&design(), Size::from_px(10), 600);
    assert_eq!(
        metrics,
        Metrics {
            descent: -200 * 640,
            average_advance: 600 * 640,
            line_height: 1090 * 640,
            underline_position: -100 * 640,
            underline_thickness: 50 * 640,
            strikeout_position: 300 * 640,
            strikeout_thickness: 50 * 640,
            denominator: 64_000,
        }
    );
    assert_eq!(metrics.line_height as f64 / metrics.denominator as f64, 10.9);
    assert_eq!(metrics.average_advance as f64 / metrics.denominator as f64, 6.0);
    assert_eq!(metrics.descent as f64 / metrics.denominator as f64, -2.0);
}

#[test]
fn the_line_height_is_ascent_less_descent_plus_line_gap() {
    let size = Size::from_units(777);
    let metrics = scale_metrics(&design(), size, 1);
    let ascent = 800 * 777;
    let line_gap = 90 * 777;
    assert_eq!(metrics.line_height, ascent - metrics.descent + line_gap);
    assert!(metrics.descent <= 0);
}

#[test]
fn a_negative_line_gap_shortens_the_line() {
    let mut tight = design();
    tight.line_gap = -90;
    let metrics = scale_metrics(&tight, Size::from_px(1), 0);
    assert_eq!(metrics.line_height, 910 * 64);
    assert_eq!(metrics.average_advance, 0);
}

#[test]
fn the_largest_values_do_not_overflow() {
    let extreme = DesignMetrics {
        units_per_em: u16::MAX,
        ascent: u16::MAX,
        descent: u16::MAX,
        line_gap: i16::MAX,
        underline_position: i16::MIN,
        underline_thickness: u16::MAX,
        strikeout_position: i16::MAX,
        strikeout_thickness: u16::MAX,
    };
    let metrics = scale_metrics(&extreme, Size::from_units(u32::MAX), u32::MAX);
    assert_eq!(metrics.average_advance, 18_446_744_065_119_617_025);
    assert_eq!(metrics.line_height, (65535 + 65535 + 32767) * 4_294_967_295i64);
    assert_eq!(metrics.descent, -65535 * 4_294_967_295i64);
    assert_eq!(metrics.underline_position, -32768 * 4_294_967_295i64);
    assert_eq!(metrics.denominator, 65535 * 64);
}

#[test]
fn a_face_without_units_per_em_has_a_zero_denominator() {
    let mut broken = design();
    broken.units_per_em = 0;
    let metrics = scale_metrics(&broken, Size::from_px(16), 500);
    assert_eq!(metrics.denominator, 0);
    assert_eq!(metrics.average_advance, 500 * 1024);
}

#[test]
fn size_zero_gives_zero_metrics() {
    let metrics = scale_metrics(&design(), Size::from_px(0), 600);
    assert_eq!(metrics.line_height, 0);
    assert_eq!(metrics.descent, 0);
    assert_eq!(metrics.average_advance, 0);
    assert_eq!(metrics.denominator, 64_000);
}

#[test]
fn the_first_advance_is_the_one_measured_with() {
    let size = Size::from_px(2);
    assert_eq!(
        metrics_from_design(&design(), size, &Ok(vec![500, 700])).unwrap(),
        scale_metrics(&design(), size, 500)
    );
    assert_eq!(
        metrics_from_design(&design(), size, &Ok(vec![0])).unwrap().average_advance,
        0
    );
}

#[test]
fn without_an_advance_there_are_no_metrics() {
    let size = Size::from_px(2);
    assert!(matches!(
        metrics_from_design(&design(), size, &Ok(vec![])),
        Err(Error::MetricsNotFound)
    ));
    assert!(matches!(
        metrics_from_design(&design(), size, &Err(-2147467259)),
        Err(Error::MetricsNotFound)
    ));
}

#[test]
fn twice_the_size_gives_twice_the_metrics() {
    let once = scale_metrics(&design(), Size::from_px(7), 600);
    let twice = scale_metrics(&design(), Size::from_px(14), 600);
    assert_eq!(twice.line_height, 2 * once.line_height);
    assert_eq!(twice.descent, 2 * once.descent);
    assert_eq!(twice.average_advance, 2 * once.average_advance);
    assert_eq!(twice.denominator, once.denominator);
}
