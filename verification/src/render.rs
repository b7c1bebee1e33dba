//! The per-key image renderer: a 100 by 100 canvas from a color or icon,
//! the button's text centered on it, a darkened band behind widget text
//! over an icon, a 180 degree rotation, and JPEG bytes out.
//!
//! The image value itself is opaque; its pixel contents and dimensions are
//! named, and every trusted wrapper below states its effect on them as the
//! image crate's source shows it. Every image this module constructs is
//! carried as RGB with eight bits per channel — the constructors convert —
//! and the pixel names read the RGB channels of that representation.

use vstd::prelude::*;
use crate::color::parse_hex_color;
use crate::config::ButtonConfig;
use crate::widget::{WidgetEnv, TimerState, is_widget_command, get_widget_text, spec_widget_text,
    spec_is_widget_command, spec_timer_after};

verus! {

/// image's dynamically typed image value.
#[verifier::external_type_specification]
#[verifier::external_body]
pub struct ExDynamicImage(image::DynamicImage);

/// ab_glyph's borrowed font.
#[verifier::external_type_specification]
#[verifier::external_body]
pub struct ExFontRef<'a>(ab_glyph::FontRef<'a>);

/// ab_glyph's pixel scale of a font.
#[verifier::external_type_specification]
#[verifier::external_body]
pub struct ExPxScale(ab_glyph::PxScale);

/// What an image holds: the RGB triple at each coordinate.
pub uninterp spec fn image_pixels(img: image::DynamicImage) -> Map<(int, int), (u8, u8, u8)>;

/// An image's width and height.
pub uninterp spec fn image_dims(img: image::DynamicImage) -> (u32, u32);

/// The JPEG encoding of an image with the given pixels and dimensions,
/// named: it depends on them alone.
pub uninterp spec fn jpeg_of(pixels: Map<(int, int), (u8, u8, u8)>, dims: (u32, u32)) -> Seq<u8>;

/// What the bytes decode as, carried as RGB — the pixel map and the
/// dimensions — or nothing when they decode as no image. Named: decoding
/// depends on the bytes alone.
pub uninterp spec fn decoded_image(data: Seq<u8>) -> Option<
    (Map<(int, int), (u8, u8, u8)>, (u32, u32)),
>;

/// The Lanczos resize of an image to a target size, named: it depends on
/// the source pixels, their dimensions and the target alone.
pub uninterp spec fn resized_pixels(
    pixels: Map<(int, int), (u8, u8, u8)>,
    dims: (u32, u32),
    w: u32,
    h: u32,
) -> Map<(int, int), (u8, u8, u8)>;

/// The bytes are the JPEG of some image with the given dimensions.
pub open spec fn is_jpeg_with_dims(b: Seq<u8>, w: u32, h: u32) -> bool {
    exists|px: Map<(int, int), (u8, u8, u8)>| b == jpeg_of(px, (w, h))
}

/// The coordinates an image of the given dimensions holds pixels for.
pub open spec fn image_domain(w: u32, h: u32) -> Set<(int, int)> {
    Set::new(|xy: (int, int)| 0 <= xy.0 < w && 0 <= xy.1 < h)
}

/// The pixel map of a solid-colored image.
pub open spec fn solid_pixels(w: u32, h: u32, color: (u8, u8, u8)) -> Map<
    (int, int),
    (u8, u8, u8),
> {
    Map::new(|xy: (int, int)| 0 <= xy.0 < w && 0 <= xy.1 < h, |xy: (int, int)| color)
}

/// The pixel map of an image rotated 180 degrees.
pub open spec fn spec_rotated(px: Map<(int, int), (u8, u8, u8)>, w: u32, h: u32) -> Map<
    (int, int),
    (u8, u8, u8),
> {
    Map::new(
        |xy: (int, int)| 0 <= xy.0 < w && 0 <= xy.1 < h,
        |xy: (int, int)| px[(w - 1 - xy.0, h - 1 - xy.1)],
    )
}

/// Relies on image's `ImageBuffer::from_pixel`: a `w` by `h` RGB image
/// with every pixel the given color.
#[verifier::external_body]
fn new_canvas(w: u32, h: u32, red: u8, green: u8, blue: u8) -> (r: image::DynamicImage)
    requires
        w as nat * h as nat <= 0x1000000,
    ensures
        image_dims(r) == (w, h),
        image_pixels(r) == solid_pixels(w, h, (red, green, blue)),
        image_pixels(r).dom() == image_domain(w, h),
{
    image::DynamicImage::ImageRgb8(
        image::ImageBuffer::from_pixel(w, h, image::Rgb([red, green, blue])),
    )
}

/// Relies on image's `load_from_memory` and `to_rgb8`: the bytes decoded
/// as an image, carried as RGB, or nothing when they decode as none;
/// decoding is a function of the bytes alone.
#[verifier::external_body]
fn decode_icon(data: &[u8]) -> (r: Option<image::DynamicImage>)
    ensures
        match r {
            Some(img) => decoded_image(data@) == Some((image_pixels(img), image_dims(img)))
                && image_pixels(img).dom() == image_domain(
                image_dims(img).0,
                image_dims(img).1,
            ),
            None => decoded_image(data@) is None,
        },
{
    match image::load_from_memory(data) {
        Ok(img) => Some(image::DynamicImage::ImageRgb8(img.to_rgb8())),
        Err(_) => None,
    }
}

/// Relies on image's `DynamicImage::resize_exact` with the Lanczos filter:
/// a new image of exactly the requested dimensions, a function of the
/// source pixels, their dimensions and the target alone (the source is
/// RGB, as every image here is).
#[verifier::external_body]
fn resize_exact_rgb(img: &image::DynamicImage, w: u32, h: u32) -> (r: image::DynamicImage)
    requires
        1 <= w <= 4096,
        1 <= h <= 4096,
    ensures
        image_dims(r) == (w, h),
        image_pixels(r) == resized_pixels(image_pixels(*img), image_dims(*img), w, h),
        image_pixels(r).dom() == image_domain(w, h),
{
    image::DynamicImage::ImageRgb8(
        img.resize_exact(w, h, image::imageops::FilterType::Lanczos3).to_rgb8(),
    )
}

/// Relies on image's `GenericImageView::get_pixel`: the RGB triple at the
/// coordinate, which must be in bounds. (On the RGB images this module
/// constructs the triple is the stored channel data.)
#[verifier::external_body]
fn get_pixel_rgb(img: &image::DynamicImage, x: u32, y: u32) -> (r: (u8, u8, u8))
    requires
        x < image_dims(*img).0,
        y < image_dims(*img).1,
    ensures
        r == image_pixels(*img)[(x as int, y as int)],
{
    let p = image::GenericImageView::get_pixel(img, x, y);
    (p.0[0], p.0[1], p.0[2])
}

/// Relies on image's `GenericImage::put_pixel`: sets the RGB triple at the
/// coordinate, which must be in bounds; nothing else changes. (On the RGB
/// images this module constructs the triple is stored as given.)
#[verifier::external_body]
fn put_pixel_rgb(img: &mut image::DynamicImage, x: u32, y: u32, color: (u8, u8, u8))
    requires
        x < image_dims(*old(img)).0,
        y < image_dims(*old(img)).1,
    ensures
        image_dims(*final(img)) == image_dims(*old(img)),
        image_pixels(*final(img)) == image_pixels(*old(img)).insert(
            (x as int, y as int),
            color,
        ),
{
    image::GenericImage::put_pixel(img, x, y, image::Rgba([color.0, color.1, color.2, 255]));
}

/// Relies on imageproc's `text_size`: the pixel width and height of the
/// text in the font at the scale. The measurement depends on all three, so
/// nothing is promised of it.
#[verifier::external_body]
fn text_size_px(scale: &ab_glyph::PxScale, font: &ab_glyph::FontRef<'_>, text: &str) -> (r: (
    u32,
    u32,
))
{
    imageproc::drawing::text_size(*scale, font, text)
}

/// Relies on imageproc's `draw_text_mut`: draws the text in white onto the
/// image, clipped to its bounds; the dimensions stay as they were.
#[verifier::external_body]
fn draw_label(
    img: &mut image::DynamicImage,
    x: i32,
    y: i32,
    scale: &ab_glyph::PxScale,
    font: &ab_glyph::FontRef<'_>,
    text: &str,
)
    ensures
        image_dims(*final(img)) == image_dims(*old(img)),
{
    imageproc::drawing::draw_text_mut(
        img,
        image::Rgba([255u8, 255u8, 255u8, 255u8]),
        x,
        y,
        *scale,
        font,
        text,
    );
}

/// Relies on image's `DynamicImage::rotate180`: a new image of the same
/// dimensions whose pixel at `(x, y)` is the old pixel at
/// `(w - 1 - x, h - 1 - y)`.
#[verifier::external_body]
fn rotate180_image(img: &image::DynamicImage) -> (r: image::DynamicImage)
    ensures
        image_dims(r) == image_dims(*img),
        image_pixels(r).dom() == image_domain(image_dims(*img).0, image_dims(*img).1),
        forall|x: int, y: int|
            0 <= x < image_dims(*img).0 && 0 <= y < image_dims(*img).1
                ==> #[trigger] image_pixels(r)[(x, y)] == image_pixels(*img)[(image_dims(*img).0 - 1 - x, image_dims(*img).1 - 1 - y)],
{
    img.rotate180()
}

/// Relies on image's `DynamicImage::write_to` with the JPEG format, on an
/// RGB copy of the image: the encoding of its pixels and dimensions alone.
/// The encoder accepts every width and height in 1..=65535, and writing
/// into an in-memory buffer cannot fail, so within those bounds it
/// succeeds, with at least the JPEG markers in the output.
#[verifier::external_body]
fn encode_jpeg(img: &image::DynamicImage) -> (r: Result<Vec<u8>, String>)
    requires
        1 <= image_dims(*img).0 <= 65535,
        1 <= image_dims(*img).1 <= 65535,
    ensures
        r is Ok,
        r matches Ok(b) ==> b@ == jpeg_of(image_pixels(*img), image_dims(*img)) && b@.len() > 0,
{
    let rgb = image::DynamicImage::ImageRgb8(img.to_rgb8());
    let mut out: Vec<u8> = Vec::new();
    match rgb.write_to(&mut std::io::Cursor::new(&mut out), image::ImageFormat::Jpeg) {
        Ok(_) => Ok(out),
        Err(e) => Err(format!("Failed to encode JPEG: {}", e)),
    }
}

/// A loaded font and the three scales the renderer draws at: 28, 20 and
/// 16 pixels. The embedding program builds it once from its font bytes.
pub struct FontAssets<'a> {
    pub font: ab_glyph::FontRef<'a>,
    pub scale28: ab_glyph::PxScale,
    pub scale20: ab_glyph::PxScale,
    pub scale16: ab_glyph::PxScale,
}

/// The scale a text is drawn at: 28 px up to five characters, 20 px up to
/// eight, 16 px beyond.
pub enum ScalePick {
    Large,
    Mid,
    Small,
}

/// Which of the three scales a text of this length gets.
pub open spec fn spec_scale_pick(len: nat) -> ScalePick {
    if len > 8 {
        ScalePick::Small
    } else if len > 5 {
        ScalePick::Mid
    } else {
        ScalePick::Large
    }
}

/// Picks the scale for a text length: the shorter the text, the larger
/// the glyphs.
pub fn scale_for_len<'a, 'f>(assets: &'a FontAssets<'f>, len: usize) -> (r: &'a ab_glyph::PxScale)
    ensures
        spec_scale_pick(len as nat) is Small ==> r == &assets.scale16,
        spec_scale_pick(len as nat) is Mid ==> r == &assets.scale20,
        spec_scale_pick(len as nat) is Large ==> r == &assets.scale28,
{
    if len > 8 {
        &assets.scale16
    } else if len > 5 {
        &assets.scale20
    } else {
        &assets.scale28
    }
}

/// Where the text's top-left corner goes: centered, clamped to (2, 2).
pub open spec fn spec_text_origin(tw: u32, th: u32) -> (i32, i32) {
    (
        if tw <= 96 {
            ((100 - tw) / 2) as i32
        } else {
            2
        },
        if th <= 96 {
            ((100 - th) / 2) as i32
        } else {
            2
        },
    )
}

/// Centers a measured text on the canvas, clamping the corner to (2, 2).
pub fn text_origin(tw: u32, th: u32) -> (r: (i32, i32))
    ensures
        r == spec_text_origin(tw, th),
        2 <= r.0 <= 50,
        2 <= r.1 <= 50,
{
    let x: i32 = if tw <= 96 {
        ((100 - tw) / 2) as i32
    } else {
        2
    };
    let y: i32 = if th <= 96 {
        ((100 - th) / 2) as i32
    } else {
        2
    };
    (x, y)
}

/// One color component darkened to forty percent.
pub open spec fn spec_darken(c: u8) -> u8 {
    (c * 40 / 100) as u8
}

/// A pixel darkened to forty percent, component by component.
pub open spec fn spec_darken_pixel(p: (u8, u8, u8)) -> (u8, u8, u8) {
    (spec_darken(p.0), spec_darken(p.1), spec_darken(p.2))
}

/// Darkens one color component to forty percent.
fn darken_component(c: u8) -> (r: u8)
    ensures
        r == spec_darken(c),
{
    (c as u16 * 40 / 100) as u8
}

/// Darkens the rows `y0..y1` of the image to forty percent, leaving the
/// rest untouched: the band behind widget text drawn over an icon.
fn darken_band(img: &mut image::DynamicImage, y0: u32, y1: u32)
    requires
        y0 <= y1,
        y1 <= image_dims(*old(img)).1,
    ensures
        image_dims(*final(img)) == image_dims(*old(img)),
        forall|x: int, y: int|
            0 <= x < image_dims(*old(img)).0 && 0 <= y < image_dims(*old(img)).1
                ==> #[trigger] image_pixels(*final(img))[(x, y)] == (if y0 <= y < y1 {
                spec_darken_pixel(image_pixels(*old(img))[(x, y)])
            } else {
                image_pixels(*old(img))[(x, y)]
            }),
{
    let w = {
        let ghost d = image_dims(*img);
        image_width(img)
    };
    let mut y: u32 = y0;
    while y < y1
        invariant
            y0 <= y <= y1,
            y1 <= image_dims(*img).1,
            w == image_dims(*img).0,
            image_dims(*img) == image_dims(*old(img)),
            forall|xx: int, yy: int|
                0 <= xx < image_dims(*old(img)).0 && 0 <= yy < image_dims(*old(img)).1
                    ==> #[trigger] image_pixels(*img)[(xx, yy)] == (if y0 <= yy < y {
                    spec_darken_pixel(image_pixels(*old(img))[(xx, yy)])
                } else {
                    image_pixels(*old(img))[(xx, yy)]
                }),
        decreases y1 - y,
    {
        let mut x: u32 = 0;
        while x < w
            invariant
                y0 <= y < y1,
                y1 <= image_dims(*img).1,
                x <= w,
                w == image_dims(*img).0,
                image_dims(*img) == image_dims(*old(img)),
                forall|xx: int, yy: int|
                    0 <= xx < image_dims(*old(img)).0 && 0 <= yy < image_dims(*old(img)).1
                        ==> #[trigger] image_pixels(*img)[(xx, yy)] == (if y0 <= yy < y || (yy == y
                        && xx < x) {
                        spec_darken_pixel(image_pixels(*old(img))[(xx, yy)])
                    } else {
                        image_pixels(*old(img))[(xx, yy)]
                    }),
            decreases w - x,
        {
            let p = get_pixel_rgb(img, x, y);
            let dark = (darken_component(p.0), darken_component(p.1), darken_component(p.2));
            put_pixel_rgb(img, x, y, dark);
            x += 1;
        }
        y += 1;
    }
}

/// Relies on image's `DynamicImage::width`.
#[verifier::external_body]
fn image_width(img: &image::DynamicImage) -> (r: u32)
    ensures
        r == image_dims(*img).0,
{
    img.width()
}

} // verus!

verus! {

/// The text a button shows: its widget text when the command is a widget
/// command and produces one, else its label.
pub open spec fn spec_display_text(button: ButtonConfig, env: WidgetEnv, t: TimerState) -> Seq<
    char,
> {
    if spec_is_widget_command(button.command@) {
        match spec_widget_text(button.command@, env, t) {
            Some(s) => s,
            None => button.label@,
        }
    } else {
        button.label@
    }
}

/// Renders one key's image: the icon bytes resized to 100 by 100 when
/// given and decodable, else the button's color; the display text centered
/// in white, over a darkened band when widget text lies on an icon; the
/// whole rotated 180 degrees for the panel's mounting; JPEG bytes out.
///
/// Rendering always succeeds, with non-empty bytes that are the JPEG of a
/// 100 by 100 image. When nothing is drawn over the background — no text,
/// or no font to draw it with — the bytes are pinned exactly: the JPEG of
/// the button's solid color when there is no usable icon (none named, none
/// given, or undecodable bytes), and the JPEG of the rotated, resized icon
/// otherwise. Reading a timer widget's text that has just run out resets
/// the timer.
pub fn generate_button_image(
    button: &ButtonConfig,
    icon_bytes: Option<&[u8]>,
    env: &WidgetEnv,
    timer: &mut TimerState,
    assets: Option<&FontAssets<'_>>,
) -> (r: Result<Vec<u8>, String>)
    ensures
        r is Ok,
        r matches Ok(b) ==> b@.len() > 0 && is_jpeg_with_dims(b@, 100, 100),
        (button.icon@.len() == 0 || icon_bytes is None || (icon_bytes matches Some(d)
            && decoded_image(d@) is None)) && (spec_display_text(*button, *env, *old(timer)).len()
            == 0 || assets is None) ==> (r matches Ok(b) ==> b@ == jpeg_of(
            solid_pixels(100, 100, crate::color::spec_parse_hex_color(button.color@)),
            (100u32, 100u32),
        )),
        button.icon@.len() > 0 ==> (icon_bytes matches Some(d) ==> (decoded_image(d@) matches Some(
            dp,
        ) ==> ((spec_display_text(*button, *env, *old(timer)).len() == 0 || assets is None) ==> (
        r matches Ok(b) ==> b@ == jpeg_of(
            spec_rotated(resized_pixels(dp.0, dp.1, 100, 100), 100, 100),
            (100u32, 100u32),
        ))))),
        *final(timer) == (if spec_is_widget_command(button.command@) {
            spec_timer_after(button.command@, *old(timer), env.now)
        } else {
            *old(timer)
        }),
{
    let color = parse_hex_color(button.color.as_str());
    let mut img: image::DynamicImage;
    let mut solid = false;
    if button.icon.unicode_len() > 0 {
        match icon_bytes {
            Some(data) => {
                match decode_icon(data) {
                    Some(icon) => {
                        img = resize_exact_rgb(&icon, 100, 100);
                    },
                    None => {
                        img = new_canvas(100, 100, color.0, color.1, color.2);
                        solid = true;
                    },
                }
            },
            None => {
                img = new_canvas(100, 100, color.0, color.1, color.2);
                solid = true;
            },
        }
    } else {
        img = new_canvas(100, 100, color.0, color.1, color.2);
        solid = true;
    }
    let ghost base = image_pixels(img);
    let widget = is_widget_command(button.command.as_str());
    let display_text: String = if widget {
        match get_widget_text(button.command.as_str(), env, timer) {
            Some(s) => s,
            None => button.label.clone(),
        }
    } else {
        button.label.clone()
    };
    proof {
        assert(display_text@ == spec_display_text(*button, *env, *old(timer)));
    }
    if display_text.unicode_len() > 0 {
        match assets {
            Some(fonts) => {
                let scale = scale_for_len(fonts, display_text.as_str().len());
                let measured = text_size_px(scale, &fonts.font, display_text.as_str());
                let origin = text_origin(measured.0, measured.1);
                if widget && button.icon.unicode_len() > 0 {
                    let y0 = origin.1 as u32;
                    let band_end: u32 = if measured.1 >= 100 - y0 {
                        100
                    } else {
                        y0 + measured.1
                    };
                    darken_band(&mut img, y0, band_end);
                }
                draw_label(
                    &mut img,
                    origin.0,
                    origin.1,
                    scale,
                    &fonts.font,
                    display_text.as_str(),
                );
            },
            None => {},
        }
    }
    let rotated = rotate180_image(&img);
    let encoded = encode_jpeg(&rotated);
    proof {
        let b = encoded->Ok_0;
        assert(is_jpeg_with_dims(b@, 100, 100)) by {
            assert(b@ == jpeg_of(image_pixels(rotated), (100u32, 100u32)));
        }
        if display_text@.len() == 0 || assets is None {
            let px = image_pixels(img);
            assert(px == base);
            assert(image_pixels(rotated) =~= spec_rotated(px, 100, 100)) by {
                assert(image_pixels(rotated).dom() =~= spec_rotated(px, 100, 100).dom());
                assert forall|xy: (int, int)|
                    image_pixels(rotated).dom().contains(xy) implies #[trigger] image_pixels(
                    rotated,
                )[xy] == spec_rotated(px, 100, 100)[xy] by {
                    assert(image_pixels(rotated)[(xy.0, xy.1)] == px[(99 - xy.0, 99 - xy.1)]);
                }
            }
            if solid {
                let c = crate::color::spec_parse_hex_color(button.color@);
                assert(spec_rotated(px, 100, 100) =~= solid_pixels(100, 100, c)) by {
                    assert(spec_rotated(px, 100, 100).dom() =~= solid_pixels(100, 100, c).dom());
                    assert forall|xy: (int, int)|
                        spec_rotated(px, 100, 100).dom().contains(xy) implies #[trigger] spec_rotated(
                        px,
                        100,
                        100,
                    )[xy] == solid_pixels(100, 100, c)[xy] by {
                        assert(spec_rotated(px, 100, 100)[xy] == px[(99 - xy.0, 99 - xy.1)]);
                    }
                }
            }
        }
    }
    encoded
}

} // verus!
