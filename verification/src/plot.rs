//! Painting: the three panels, the text over them, and the frames that are
//! rendered from one painted template.

use vstd::prelude::*;
use crate::backend::{draw_text, fill_rect, measure_text};
use crate::canvas::{
    buffer_bytes, buffer_height, buffer_width, canvas_fits, clone_buffer, height_of, new_buffer,
    spec_canvas_fits, spec_pixel, width_of,
};
use crate::layout::{spec_config, spec_geometry_fits, PlotConfig};
use crate::plan::{spec_draw_in_rows, text_draws};

verus! {

/// Family of the font that the text is set in.
pub const FONT_FAMILY: &'static str = "Courier New";

/// Size of the font, in points.
pub const FONT_SIZE: u32 = 18;

/// Why a rendering was given up.
#[derive(Clone, Copy, Debug, PartialEq, Eq, Structural)]
pub enum PlotError {
    /// The font could not be measured.
    Font,
    /// The measured font gives a canvas too large to draw into.
    Geometry,
    /// The canvas handed in is too large to draw into.
    Canvas,
    /// The backend failed to draw a piece of text.
    Draw,
}

/// What three measurements give: `Font` where one of them failed,
/// `Geometry` where the canvas would be too large to draw into, the
/// configuration otherwise.
pub open spec fn spec_config_from_measurements(
    char_size: Option<(u32, u32)>,
    hex_size: Option<(u32, u32)>,
    offset_size: Option<(u32, u32)>,
) -> Result<PlotConfig, PlotError> {
    if char_size.is_none() || hex_size.is_none() || offset_size.is_none() {
        Err(PlotError::Font)
    } else if !spec_geometry_fits(char_size.unwrap(), hex_size.unwrap().0, offset_size.unwrap().0) {
        Err(PlotError::Geometry)
    } else {
        Ok(spec_config(char_size.unwrap(), hex_size.unwrap().0, offset_size.unwrap().0))
    }
}

/// The configuration for three measurements: of one character, of two hex
/// digits and of eight.
pub fn config_from_measurements(
    char_size: Option<(u32, u32)>,
    hex_size: Option<(u32, u32)>,
    offset_size: Option<(u32, u32)>,
) -> (r: Result<PlotConfig, PlotError>)
    ensures
        r == spec_config_from_measurements(char_size, hex_size, offset_size),
        r matches Ok(c) ==> c.wf(),
{
    match (char_size, hex_size, offset_size) {
        (Some(c), Some(h), Some(o)) => match PlotConfig::from_metrics(c, h.0, o.0) {
            Some(config) => Ok(config),
            None => Err(PlotError::Geometry),
        },
        _ => Err(PlotError::Font),
    }
}

/// Measures the font and derives the configuration from it. What the font
/// measures depends on the machine; whatever it does, the result is what
/// `config_from_measurements` gives for some three measurements.
pub fn setup() -> (r: Result<PlotConfig, PlotError>)
    ensures
        exists|char_size: Option<(u32, u32)>, hex_size: Option<(u32, u32)>, offset_size: Option<(u32, u32)>|
            r == #[trigger] spec_config_from_measurements(char_size, hex_size, offset_size),
        r matches Ok(c) ==> c.wf(),
{
    let char_size = measure_text(FONT_FAMILY, FONT_SIZE, "C");
    let hex_size = measure_text(FONT_FAMILY, FONT_SIZE, "HH");
    let offset_size = measure_text(FONT_FAMILY, FONT_SIZE, "00000000");
    config_from_measurements(char_size, hex_size, offset_size)
}

/// Paints the background of the three panels: the whole canvas in the hex
/// panel's colour, then the offset panel on the left and the character panel
/// on the right in theirs. A canvas too large to draw into is left as it is.
pub fn pre_do_plot(config: &PlotConfig, pixel_buffer: &mut slint::SharedPixelBuffer<rgb::RGB<u8>>) -> (r:
    Result<(), PlotError>)
    requires
        config.wf(),
    ensures
        buffer_width(*final(pixel_buffer)) == buffer_width(*old(pixel_buffer)),
        buffer_height(*final(pixel_buffer)) == buffer_height(*old(pixel_buffer)),
        r == if spec_canvas_fits(
            buffer_width(*old(pixel_buffer)) as int,
            buffer_height(*old(pixel_buffer)) as int,
        ) {
            Ok::<(), PlotError>(())
        } else {
            Err::<(), PlotError>(PlotError::Canvas)
        },
        r.is_err() ==> buffer_bytes(*final(pixel_buffer)) == buffer_bytes(*old(pixel_buffer)),
        r.is_ok() ==> forall|x: int, y: int|
            0 <= x < buffer_width(*old(pixel_buffer)) && 0 <= y < buffer_height(*old(pixel_buffer))
                ==> #[trigger] spec_pixel(*final(pixel_buffer), x, y) == config.spec_panel_color(x),
{
    let size = (width_of(pixel_buffer), height_of(pixel_buffer));
    if !canvas_fits(size.0, size.1) {
        return Err(PlotError::Canvas);
    }
    let bottom = size.1 as i32;
    let left = config.offset_width as i32;
    let middle = (config.offset_width + config.hex_view_width) as i32;
    let right = (config.offset_width + config.hex_view_width + config.char_view_width) as i32;
    let _ = fill_rect(pixel_buffer, size, (0, 0), (size.0 as i32, bottom), config.hex.bg);
    let _ = fill_rect(pixel_buffer, size, (0, 0), (left, bottom), config.offset.bg);
    let _ = fill_rect(pixel_buffer, size, (middle, 0), (right, bottom), config.char.bg);
    Ok(())
}

/// Draws the labels and the cells of all bytes over a painted canvas, in
/// drawing order, and stops at the first that the backend fails to draw.
/// What the glyphs look like is the font's affair; the rows of pixels below
/// the last row of text stay as they were. A canvas too large to draw into
/// is left as it is.
pub fn do_plot(config: &PlotConfig, pixel_buffer: &mut slint::SharedPixelBuffer<rgb::RGB<u8>>) -> (r:
    Result<(), PlotError>)
    requires
        config.wf(),
    ensures
        buffer_width(*final(pixel_buffer)) == buffer_width(*old(pixel_buffer)),
        buffer_height(*final(pixel_buffer)) == buffer_height(*old(pixel_buffer)),
        buffer_bytes(*final(pixel_buffer)).len() == buffer_bytes(*old(pixel_buffer)).len(),
        r == Err::<(), PlotError>(PlotError::Canvas) <==> !spec_canvas_fits(
            buffer_width(*old(pixel_buffer)) as int,
            buffer_height(*old(pixel_buffer)) as int,
        ),
        r == Err::<(), PlotError>(PlotError::Canvas) ==> buffer_bytes(*final(pixel_buffer))
            == buffer_bytes(*old(pixel_buffer)),
        r matches Err(e) ==> e == PlotError::Canvas || e == PlotError::Draw,
        forall|x: int, y: int|
            0 <= x < buffer_width(*old(pixel_buffer)) && config.spec_text_bottom(FONT_SIZE as int) <= y
                < buffer_height(*old(pixel_buffer)) ==> #[trigger] spec_pixel(
                *final(pixel_buffer),
                x,
                y,
            ) == spec_pixel(*old(pixel_buffer), x, y),
{
    let size = (width_of(pixel_buffer), height_of(pixel_buffer));
    if !canvas_fits(size.0, size.1) {
        return Err(PlotError::Canvas);
    }
    let draws = text_draws(config);
    let mut next: usize = 0;
    while next < draws.len()
        invariant
            config.wf(),
            buffer_width(*pixel_buffer) == size.0 == buffer_width(*old(pixel_buffer)),
            buffer_height(*pixel_buffer) == size.1 == buffer_height(*old(pixel_buffer)),
            buffer_bytes(*pixel_buffer).len() == buffer_bytes(*old(pixel_buffer)).len(),
            spec_canvas_fits(size.0 as int, size.1 as int),
            forall|k: int| 0 <= k < draws@.len() ==> spec_draw_in_rows(#[trigger] draws@[k]@, *config),
            forall|x: int, y: int|
                0 <= x < size.0 && config.spec_text_bottom(FONT_SIZE as int) <= y < size.1
                    ==> #[trigger] spec_pixel(*pixel_buffer, x, y) == spec_pixel(*old(pixel_buffer), x, y),
        decreases draws.len() - next,
    {
        let draw = &draws[next];
        assert(spec_draw_in_rows(draws@[next as int]@, *config));
        let done = draw_text(
            pixel_buffer,
            size,
            FONT_FAMILY,
            FONT_SIZE,
            draw.color,
            draw.text.as_str(),
            draw.x,
            draw.y,
        );
        if !done {
            return Err(PlotError::Draw);
        }
        next += 1;
    }
    Ok(())
}

/// A new canvas of the configuration's size with the three panels painted.
pub fn render_template(config: &PlotConfig) -> (template: slint::SharedPixelBuffer<rgb::RGB<u8>>)
    requires
        config.wf(),
    ensures
        buffer_width(template) == config.width,
        buffer_height(template) == config.height,
        forall|x: int, y: int|
            0 <= x < config.width && 0 <= y < config.height ==> #[trigger] spec_pixel(template, x, y)
                == config.spec_panel_color(x),
{
    let mut template = new_buffer(config.width, config.height);
    let _ = pre_do_plot(config, &mut template);
    template
}

/// Whether a frame has the size of the template and, below the last row of
/// text, its pixels.
pub open spec fn spec_frame_of(
    frame: slint::SharedPixelBuffer<rgb::RGB<u8>>,
    template: slint::SharedPixelBuffer<rgb::RGB<u8>>,
    config: PlotConfig,
) -> bool {
    &&& buffer_width(frame) == buffer_width(template)
    &&& buffer_height(frame) == buffer_height(template)
    &&& forall|x: int, y: int|
        0 <= x < buffer_width(template) && config.spec_text_bottom(FONT_SIZE as int) <= y
            < buffer_height(template) ==> #[trigger] spec_pixel(frame, x, y) == spec_pixel(
            template,
            x,
            y,
        )
}

/// Renders `count` frames, each on a copy of its own of the template, and
/// stops at the first that fails. The template is not drawn into.
pub fn render_frames(
    config: &PlotConfig,
    template: &slint::SharedPixelBuffer<rgb::RGB<u8>>,
    count: usize,
) -> (r: Result<Vec<slint::SharedPixelBuffer<rgb::RGB<u8>>>, PlotError>)
    requires
        config.wf(),
    ensures
        r matches Ok(frames) ==> {
            &&& frames@.len() == count
            &&& forall|k: int| 0 <= k < count ==> spec_frame_of(#[trigger] frames@[k], *template, *config)
        },
        count == 0 ==> r.is_ok(),
        count > 0 ==> (r == Err::<Vec<slint::SharedPixelBuffer<rgb::RGB<u8>>>, PlotError>(
            PlotError::Canvas,
        ) <==> !spec_canvas_fits(
            buffer_width(*template) as int,
            buffer_height(*template) as int,
        )),
        r matches Err(e) ==> e == PlotError::Canvas || e == PlotError::Draw,
{
    let mut frames: Vec<slint::SharedPixelBuffer<rgb::RGB<u8>>> = Vec::new();
    let mut made: usize = 0;
    while made < count
        invariant
            config.wf(),
            made <= count,
            frames@.len() == made,
            made > 0 ==> spec_canvas_fits(
                buffer_width(*template) as int,
                buffer_height(*template) as int,
            ),
            forall|k: int| 0 <= k < made ==> spec_frame_of(#[trigger] frames@[k], *template, *config),
        decreases count - made,
    {
        let mut frame = clone_buffer(template);
        match do_plot(config, &mut frame) {
            Ok(()) => {},
            Err(e) => {
                return Err(e);
            },
        }
        frames.push(frame);
        made += 1;
    }
    Ok(frames)
}

/// Two frames of one template have the same size and, below the last row of
/// text, the same pixels. Of the pixels of the text itself nothing is said:
/// they are the font's.
pub proof fn lemma_frames_agree_below_text(
    first: slint::SharedPixelBuffer<rgb::RGB<u8>>,
    second: slint::SharedPixelBuffer<rgb::RGB<u8>>,
    template: slint::SharedPixelBuffer<rgb::RGB<u8>>,
    config: PlotConfig,
)
    requires
        spec_frame_of(first, template, config),
        spec_frame_of(second, template, config),
    ensures
        buffer_width(first) == buffer_width(second),
        buffer_height(first) == buffer_height(second),
        forall|x: int, y: int|
            0 <= x < buffer_width(template) && config.spec_text_bottom(FONT_SIZE as int) <= y
                < buffer_height(template) ==> #[trigger] spec_pixel(first, x, y) == spec_pixel(
                second,
                x,
                y,
            ),
{
    assert forall|x: int, y: int|
        0 <= x < buffer_width(template) && config.spec_text_bottom(FONT_SIZE as int) <= y
            < buffer_height(template) implies #[trigger] spec_pixel(first, x, y) == spec_pixel(
        second,
        x,
        y,
    ) by {
        assert(spec_pixel(first, x, y) == spec_pixel(template, x, y));
        assert(spec_pixel(second, x, y) == spec_pixel(template, x, y));
    }
}

} // verus!
