use hexplot::color::{Color, PlotStyle};
use hexplot::layout::PlotConfig;
use hexplot::canvas::canvas_fits;
use hexplot::plot::{config_from_measurements, setup, PlotError};
use plotters::style::full_palette::{GREY_100, GREY_300, GREY_600};
use plotters::style::{RGBColor, BLACK, WHITE};

fn color_of(c: RGBColor) -> Color {
    Color { r: c.0, g: c.1, b: c.2 }
}

fn stub() -> PlotConfig {
    PlotConfig::from_metrics((10, 20), 20, 80).unwrap()
}

#[test]
fn stub_metrics_give_the_expected_geometry() {
    let config = stub();
    assert_eq!(config.offset_width, 80);
    assert_eq!(config.hex_width, 20);
    assert_eq!(config.char_width, 10);
    assert_eq!(config.char_height, 20);
    assert_eq!(config.hex_view_width, 510);
    assert_eq!(config.char_view_width, 160);
    assert_eq!(config.width, 760);
    assert_eq!(config.height, 640);
}

#[test]
fn widths_follow_the_formulas() {
    for &(cw, ch, hw, ow) in &[(1u32, 1u32, 1u32, 1u32), (7, 13, 15, 61), (11, 14, 21, 86), (0, 0, 0, 0), (3, 0, 0, 9)] {
        let config = PlotConfig::from_metrics((cw, ch), hw, ow).unwrap();
        assert_eq!(config.hex_view_width, cw * 16 + hw * 16 + cw * 3);
        assert_eq!(config.char_view_width, cw * 16);
        assert_eq!(config.width, ow + config.hex_view_width + cw * 16 + cw);
        assert_eq!(config.height, ch * 32);
    }
}

#[test]
fn default_styles_are_the_palette_colours() {
    let config = stub();
    assert_eq!(config.offset, PlotStyle { bg: color_of(GREY_300), fg: color_of(GREY_600) });
    assert_eq!(config.hex, PlotStyle { bg: color_of(WHITE), fg: color_of(BLACK) });
    assert_eq!(config.char, PlotStyle { bg: color_of(GREY_100), fg: color_of(BLACK) });
    assert_eq!(config.text, color_of(BLACK));
    assert_eq!(config.offset.bg, Color { r: 224, g: 224, b: 224 });
    assert_eq!(config.offset.fg, Color { r: 117, g: 117, b: 117 });
    assert_eq!(config.char.bg, Color { r: 245, g: 245, b: 245 });
    assert_eq!(config.hex.bg, Color { r: 255, g: 255, b: 255 });
}

#[test]
fn geometry_at_the_limit_of_a_side() {
    assert!(PlotConfig::from_metrics((0, 0), 0, 0x3fff_ffff).is_some());
    assert!(PlotConfig::from_metrics((0, 0), 0, 0x4000_0000).is_none());
    assert!(PlotConfig::from_metrics((0, 0x3fff_ffff / 32), 0, 0).is_some());
    assert!(PlotConfig::from_metrics((0, 0x3fff_ffff / 32 + 1), 0, 0).is_none());
}

#[test]
fn geometry_at_the_limit_of_the_byte_count() {
    let at_limit = PlotConfig::from_metrics((0, 1), 0, 22_369_621).unwrap();
    assert_eq!((at_limit.width, at_limit.height), (22_369_621, 32));
    assert!(PlotConfig::from_metrics((0, 1), 0, 22_369_622).is_none());
}

#[test]
fn geometry_that_overflows_is_refused() {
    assert!(PlotConfig::from_metrics((u32::MAX, u32::MAX), u32::MAX, u32::MAX).is_none());
    assert!(PlotConfig::from_metrics((u32::MAX, 1), 0, 0).is_none());
    assert!(PlotConfig::from_metrics((1, u32::MAX), 0, 0).is_none());
}

#[test]
fn hex_cells_leave_a_gap_after_the_eighth() {
    let config = stub();
    assert_eq!(config.hex_cell_x(0), 90);
    assert_eq!(config.hex_cell_x(1), 120);
    assert_eq!(config.hex_cell_x(7), 300);
    assert_eq!(config.hex_cell_x(8), 340);
    assert_eq!(config.hex_cell_x(15), 550);
}

#[test]
fn char_cells_follow_the_hex_panel() {
    let config = stub();
    assert_eq!(config.char_cell_x(0), 590);
    assert_eq!(config.char_cell_x(1), 600);
    assert_eq!(config.char_cell_x(15), 740);
}

#[test]
fn rows_are_one_character_high() {
    let config = stub();
    assert_eq!(config.row_y(0), 0);
    assert_eq!(config.row_y(1), 20);
    assert_eq!(config.row_y(15), 300);
}

#[test]
fn configurations_from_metrics_are_valid() {
    assert!(stub().is_valid());
    assert!(PlotConfig::from_metrics((0, 0), 0, 0).unwrap().is_valid());
    assert!(PlotConfig::from_metrics((0, 1), 0, 22_369_621).unwrap().is_valid());
}

#[test]
fn inconsistent_configurations_are_not_valid() {
    let mut wider = stub();
    wider.width += 1;
    assert!(!wider.is_valid());
    let mut taller = stub();
    taller.height = 641;
    assert!(!taller.is_valid());
    let mut hex = stub();
    hex.hex_view_width = 511;
    assert!(!hex.is_valid());
    let mut chars = stub();
    chars.char_view_width = 0;
    assert!(!chars.is_valid());
    let mut huge = stub();
    huge.char_height = 0x0200_0000;
    huge.height = 0x4000_0000;
    assert!(!huge.is_valid());
    let mut recoloured = stub();
    recoloured.text = Color { r: 9, g: 9, b: 9 };
    assert!(recoloured.is_valid());
}

#[test]
fn canvas_fits_at_its_limits() {
    assert!(canvas_fits(0, 0));
    assert!(canvas_fits(760, 640));
    assert!(canvas_fits(0x3fff_ffff, 0));
    assert!(!canvas_fits(0x4000_0000, 0));
    assert!(!canvas_fits(0, 0x4000_0000));
    assert!(canvas_fits(22_369_621, 32));
    assert!(!canvas_fits(22_369_622, 32));
    assert!(canvas_fits(1, 715_827_882));
    assert!(!canvas_fits(1, 715_827_883));
    assert!(!canvas_fits(u32::MAX, u32::MAX));
}

#[test]
fn failed_measurement_is_a_font_error() {
    let size = Some((10, 20));
    assert_eq!(config_from_measurements(None, size, size).unwrap_err(), PlotError::Font);
    assert_eq!(config_from_measurements(size, None, size).unwrap_err(), PlotError::Font);
    assert_eq!(config_from_measurements(size, size, None).unwrap_err(), PlotError::Font);
    assert_eq!(config_from_measurements(None, None, None).unwrap_err(), PlotError::Font);
    let huge = Some((u32::MAX, u32::MAX));
    assert_eq!(config_from_measurements(None, huge, huge).unwrap_err(), PlotError::Font);
}

#[test]
fn oversized_measurement_is_a_geometry_error() {
    let huge = Some((u32::MAX, 20));
    let size = Some((10, 20));
    assert_eq!(config_from_measurements(huge, size, size).unwrap_err(), PlotError::Geometry);
    assert_eq!(config_from_measurements(size, huge, size).unwrap_err(), PlotError::Geometry);
    assert_eq!(config_from_measurements(size, size, huge).unwrap_err(), PlotError::Geometry);
}

#[test]
fn measurements_take_widths_and_the_character_height() {
    let config = config_from_measurements(Some((10, 20)), Some((20, 99)), Some((80, 77))).unwrap();
    assert_eq!(config.char_width, 10);
    assert_eq!(config.char_height, 20);
    assert_eq!(config.hex_width, 20);
    assert_eq!(config.offset_width, 80);
    assert_eq!(config.width, 760);
    assert_eq!(config.height, 640);
}

#[test]
fn setup_gives_a_consistent_geometry_or_a_font_error() {
    match setup() {
        Ok(config) => {
            let cw = config.char_width as u64;
            let hw = config.hex_width as u64;
            let ow = config.offset_width as u64;
            assert_eq!(config.hex_view_width as u64, cw * 16 + hw * 16 + cw * 3);
            assert_eq!(config.char_view_width as u64, cw * 16);
            assert_eq!(config.width as u64, ow + config.hex_view_width as u64 + cw * 16 + cw);
            assert_eq!(config.height as u64, config.char_height as u64 * 32);
            assert!(canvas_fits(config.width, config.height));
            assert_eq!(config.offset.bg, Color { r: 224, g: 224, b: 224 });
        }
        Err(e) => assert!(e == PlotError::Font || e == PlotError::Geometry),
    }
}
