//! The mouse cursor of a window.

use vstd::prelude::*;

use crate::geometry::Point;

verus! {

/// A cursor made from an image, by its number among those that the application has made.
#[derive(Clone, Copy, Debug, PartialEq, Eq, Structural)]
pub struct CustomCursor {
    pub key: u64,
}

/// A mouse cursor.
#[derive(Clone, Copy, Debug, PartialEq, Eq, Structural)]
pub enum Cursor {
    Arrow,
    IBeam,
    Pointer,
    Crosshair,
    OpenHand,
    NotAllowed,
    ResizeLeftRight,
    ResizeUpDown,
    Custom(CustomCursor),
}

/// Where the toolkit has a cursor from.
#[derive(Clone, Copy, Debug, PartialEq, Eq)]
pub enum CursorSource {
    /// A cursor that was made before.
    Custom(CustomCursor),
    /// The cursor of this name in the theme.
    Theme(&'static str),
}

/// The name that a cursor has in CSS, and so in a cursor theme.
pub open spec fn theme_name(cursor: Cursor) -> Option<Seq<char>> {
    match cursor {
        Cursor::Arrow => Some("default"@),
        Cursor::IBeam => Some("text"@),
        Cursor::Pointer => Some("pointer"@),
        Cursor::Crosshair => Some("crosshair"@),
        Cursor::OpenHand => Some("grab"@),
        Cursor::NotAllowed => Some("not-allowed"@),
        Cursor::ResizeLeftRight => Some("ew-resize"@),
        Cursor::ResizeUpDown => Some("ns-resize"@),
        Cursor::Custom(_) => None,
    }
}

/// The source is that of the cursor: the theme for a cursor with a name in it, and for a custom
/// cursor the cursor itself.
pub open spec fn is_source(source: CursorSource, cursor: Cursor) -> bool {
    match source {
        CursorSource::Custom(custom) => cursor == Cursor::Custom(custom),
        CursorSource::Theme(name) => theme_name(cursor) == Some(name@),
    }
}

/// Where the toolkit has the cursor from.
pub fn make_gdk_cursor(cursor: &Cursor) -> (r: CursorSource)
    ensures
        is_source(r, *cursor),
{
    match *cursor {
        Cursor::Custom(custom) => CursorSource::Custom(custom),
        Cursor::Arrow => CursorSource::Theme("default"),
        Cursor::IBeam => CursorSource::Theme("text"),
        Cursor::Pointer => CursorSource::Theme("pointer"),
        Cursor::Crosshair => CursorSource::Theme("crosshair"),
        Cursor::OpenHand => CursorSource::Theme("grab"),
        Cursor::NotAllowed => CursorSource::Theme("not-allowed"),
        Cursor::ResizeLeftRight => CursorSource::Theme("ew-resize"),
        Cursor::ResizeUpDown => CursorSource::Theme("ns-resize"),
    }
}

/// The format of an image's pixels.
#[derive(Clone, Copy, Debug, PartialEq, Eq, Structural)]
pub enum ImageFormat {
    Grayscale,
    Rgb,
    RgbaSeparate,
    RgbaPremul,
}

impl ImageFormat {
    /// How many bytes a pixel takes.
    pub open spec fn pixel_bytes(self) -> usize {
        match self {
            ImageFormat::Grayscale => 1,
            ImageFormat::Rgb => 3,
            ImageFormat::RgbaSeparate => 4,
            ImageFormat::RgbaPremul => 4,
        }
    }
}

/// `piet::ImageFormat::bytes_per_pixel`: one byte for gray, three for colour, four for colour
/// with an alpha channel.
#[verifier::external_body]
fn bytes_per_pixel(format: ImageFormat) -> (r: usize)
    ensures
        r == format.pixel_bytes(),
{
    match format {
        ImageFormat::Grayscale => piet::ImageFormat::Grayscale.bytes_per_pixel(),
        ImageFormat::Rgb => piet::ImageFormat::Rgb.bytes_per_pixel(),
        ImageFormat::RgbaSeparate => piet::ImageFormat::RgbaSeparate.bytes_per_pixel(),
        ImageFormat::RgbaPremul => piet::ImageFormat::RgbaPremul.bytes_per_pixel(),
    }
}

/// How a cursor image is laid out in memory.
#[derive(Clone, Copy, Debug, PartialEq, Eq, Structural)]
pub struct PixbufLayout {
    pub has_alpha: bool,
    pub bits_per_sample: i32,
    pub width: i32,
    pub height: i32,
    /// The number of bytes from one row to the next.
    pub row_stride: i32,
}

/// An image of which a cursor is to be made.
#[derive(Clone, Copy, Debug, PartialEq, Eq, Structural)]
pub struct CursorDesc {
    pub width: usize,
    pub height: usize,
    pub format: ImageFormat,
    /// The point of the image that points.
    pub hot: Point,
}

/// What the toolkit makes a cursor from, besides the pixels.
#[derive(Clone, Copy, Debug, PartialEq, Eq, Structural)]
pub struct CursorImage {
    pub layout: PixbufLayout,
    /// The point of the image that points, which is rounded to whole pixels.
    pub hot: Point,
}

/// The layout of an image of this size and format. Every format but plain colour is taken to
/// have an alpha channel.
pub open spec fn layout_of(width: usize, height: usize, format: ImageFormat) -> PixbufLayout {
    PixbufLayout {
        has_alpha: format != ImageFormat::Rgb,
        bits_per_sample: 8,
        width: width as i32,
        height: height as i32,
        row_stride: (width * format.pixel_bytes()) as i32,
    }
}

/// The layout of an image of this size and format.
pub fn pixbuf_layout(width: usize, height: usize, format: ImageFormat) -> (r: PixbufLayout)
    requires
        width * format.pixel_bytes() <= usize::MAX,
    ensures
        r == layout_of(width, height, format),
{
    let bytes: usize = bytes_per_pixel(format);
    PixbufLayout {
        has_alpha: format != ImageFormat::Rgb,
        bits_per_sample: 8,
        width: #[verifier::truncate] (width as i32),
        height: #[verifier::truncate] (height as i32),
        row_stride: #[verifier::truncate] ((width * bytes) as i32),
    }
}

}
