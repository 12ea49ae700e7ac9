//! The picture that a line of text is drawn on: a field of one colour, and
//! the same picture turned upside down for an engine whose rows run upward.
//!
//! Pixels are four bytes each (red, green, blue, alpha), row after row from
//! the top.

use vstd::prelude::*;
use image::imageops::flip_vertical;
use image::ImageBuffer;
use image::Rgba;

verus! {

pub const TEXT_IMAGE_WIDTH: u32 = 200;

pub const TEXT_IMAGE_HEIGHT: u32 = 100;

/// Where the text starts, in pixels from the left edge.
pub const TEXT_LEFT: i32 = 55;

/// Where the text starts, in pixels from the top edge.
pub const TEXT_TOP: i32 = 21;

/// Height of the text, in pixels.
pub const TEXT_SCALE: u32 = 60;

pub const CHANNELS: usize = 4;

/// A colour of four channels.
#[derive(Clone, Copy, Debug, PartialEq, Eq, Structural)]
pub struct Pixel {
    pub red: u8,
    pub green: u8,
    pub blue: u8,
    pub alpha: u8,
}

/// A picture of `width` by `height` pixels.
pub struct TextImage {
    width: u32,
    height: u32,
    pixels: Vec<u8>,
}

/// The channel of `pixel` that byte `k` of a picture holds.
pub open spec fn channel(pixel: Pixel, k: int) -> u8 {
    if k % 4 == 0 {
        pixel.red
    } else if k % 4 == 1 {
        pixel.green
    } else if k % 4 == 2 {
        pixel.blue
    } else {
        pixel.alpha
    }
}

/// The bytes of a picture of `pixels` pixels that all have one colour.
pub open spec fn uniform(pixels: int, color: Pixel) -> Seq<u8> {
    Seq::new((pixels * 4) as nat, |k: int| channel(color, k))
}

/// The bytes of a picture of `width` by `height` pixels with its rows in
/// reverse order: the last row first, each row as it was.
pub open spec fn rows_reversed(bytes: Seq<u8>, width: int, height: int) -> Seq<u8> {
    Seq::new(
        bytes.len(),
        |k: int|
            {
                let row = k / (4 * width);
                let column = k % (4 * width);
                bytes[(height - 1 - row) * (4 * width) + column]
            },
    )
}

/// The bytes of the picture before any text is drawn: the background all over.
pub open spec fn blank() -> Seq<u8> {
    uniform(TEXT_IMAGE_WIDTH as int * TEXT_IMAGE_HEIGHT as int, background())
}

/// `image` is what becomes of the drawn bytes `drawn`: the picture with its
/// rows reversed where `drawn` holds the picture's pixels, and none otherwise.
pub open spec fn finished(image: Option<TextImage>, drawn: Seq<u8>) -> bool {
    &&& image.is_some() == (drawn.len() == TEXT_IMAGE_WIDTH as int * TEXT_IMAGE_HEIGHT as int * 4)
    &&& image matches Some(made) ==> {
        &&& made.spec_width() == TEXT_IMAGE_WIDTH as int
        &&& made.spec_height() == TEXT_IMAGE_HEIGHT as int
        &&& made@ == rows_reversed(drawn, TEXT_IMAGE_WIDTH as int, TEXT_IMAGE_HEIGHT as int)
    }
}

/// The text's background: opaque red.
pub open spec fn background() -> Pixel {
    Pixel { red: 255, green: 0, blue: 0, alpha: 255 }
}

/// The text's own colour: opaque white.
pub open spec fn foreground() -> Pixel {
    Pixel { red: 255, green: 255, blue: 255, alpha: 255 }
}

pub fn background_color() -> (color: Pixel)
    ensures
        color == background(),
{
    Pixel { red: 255, green: 0, blue: 0, alpha: 255 }
}

pub fn foreground_color() -> (color: Pixel)
    ensures
        color == foreground(),
{
    Pixel { red: 255, green: 255, blue: 255, alpha: 255 }
}

/// The number of pixels in a picture of `width` by `height` pixels.
fn area_of(width: u32, height: u32) -> (area: u64)
    ensures
        area as int == width as int * height as int,
{
    assert(width as int * height as int <= 0xffff_ffff * 0xffff_ffff) by (nonlinear_arith)
        requires
            0 <= width as int <= 0xffff_ffff,
            0 <= height as int <= 0xffff_ffff,
    ;
    width as u64 * height as u64
}

/// Reverses the order of a picture's rows with `image::imageops::flip_vertical`.
///
/// The bytes go into an `ImageBuffer` of four-channel pixels with
/// `ImageBuffer::from_raw` and come out of the flipped copy with `into_raw`.
/// `from_raw` counts the bytes it needs as four times the width, times the
/// height, and takes the buffer only where neither product is more than the
/// machine can count: so a row has to fit, even where there are no rows.
/// Trusted: for such a picture the buffer is taken, and the copy has the
/// pixel of column `x` and row `y` at column `x` and row `height - 1 - y`.
#[verifier::external_body]
fn flip_rows(width: u32, height: u32, bytes: Vec<u8>) -> (flipped: Option<Vec<u8>>)
    requires
        4 * width as int <= usize::MAX as int,
        bytes@.len() == width as int * height as int * 4,
    ensures
        flipped.is_some(),
        flipped.unwrap()@ == rows_reversed(bytes@, width as int, height as int),
{
    match ImageBuffer::<Rgba<u8>, Vec<u8>>::from_raw(width, height, bytes) {
        Some(buffer) => Some(flip_vertical(&buffer).into_raw()),
        None => None,
    }
}

impl TextImage {
    /// The picture's bytes.
    pub closed spec fn view(self) -> Seq<u8> {
        self.pixels@
    }

    pub closed spec fn spec_width(self) -> int {
        self.width as int
    }

    pub closed spec fn spec_height(self) -> int {
        self.height as int
    }

    /// A picture holds exactly the bytes of its pixels.
    #[verifier::type_invariant]
    spec fn holds_its_pixels(self) -> bool {
        self.pixels@.len() == self.width as int * self.height as int * 4
    }

    pub fn width(&self) -> (width: u32)
        ensures
            width as int == self.spec_width(),
    {
        self.width
    }

    pub fn height(&self) -> (height: u32)
        ensures
            height as int == self.spec_height(),
    {
        self.height
    }

    /// Takes the picture apart into its bytes.
    pub fn into_raw(self) -> (bytes: Vec<u8>)
        ensures
            bytes@ == self@,
    {
        self.pixels
    }

    /// Makes a picture of bytes that hold exactly `width` by `height` pixels.
    pub fn from_raw(width: u32, height: u32, bytes: Vec<u8>) -> (image: Option<TextImage>)
        ensures
            image.is_some() == (bytes@.len() == width as int * height as int * 4),
            image matches Some(made) ==> made@ == bytes@ && made.spec_width() == width as int
                && made.spec_height() == height as int,
    {
        let area: u64 = area_of(width, height);
        let needed: u128 = area as u128 * 4;
        if bytes.len() as u128 == needed {
            Some(TextImage { width, height, pixels: bytes })
        } else {
            None
        }
    }

    /// A picture of `width` by `height` pixels that all have the colour `color`;
    /// none where its bytes would be more than the machine can count.
    pub fn filled(width: u32, height: u32, color: Pixel) -> (image: Option<TextImage>)
        ensures
            image.is_some() == (width as int * height as int * 4 <= usize::MAX as int),
            image matches Some(made) ==> made@ == uniform(width as int * height as int, color)
                && made.spec_width() == width as int && made.spec_height() == height as int,
    {
        let area: u64 = area_of(width, height);
        if area > (usize::MAX / CHANNELS) as u64 {
            return None;
        }
        let count: usize = area as usize;
        let mut pixels: Vec<u8> = Vec::new();
        let mut i: usize = 0;
        while i < count
            invariant
                i <= count,
                count * 4 <= usize::MAX,
                pixels@ == uniform(i as int, color),
            decreases count - i,
        {
            pixels.push(color.red);
            pixels.push(color.green);
            pixels.push(color.blue);
            pixels.push(color.alpha);
            i += 1;
            assert(pixels@ =~= uniform(i as int, color));
        }
        Some(TextImage { width, height, pixels })
    }

    /// The same picture with its rows in reverse order.
    pub fn flip_vertical(self) -> (flipped: TextImage)
        ensures
            flipped.spec_width() == self.spec_width(),
            flipped.spec_height() == self.spec_height(),
            flipped@ == rows_reversed(self@, self.spec_width(), self.spec_height()),
    {
        proof {
            use_type_invariant(&self);
        }
        let width = self.width;
        let height = self.height;
        if height == 0 {
            // No rows: nothing to reverse, and no row whose length would have to fit.
            assert(width as int * 0 * 4 == 0) by (nonlinear_arith);
            assert(self.pixels@ =~= rows_reversed(self.pixels@, width as int, 0));
            return self;
        }
        assert(4 * width as int <= width as int * height as int * 4) by (nonlinear_arith)
            requires
                0 <= width as int,
                1 <= height as int,
        ;
        let count: usize = self.pixels.len();
        assert(4 * width as int <= count);
        let flipped = flip_rows(width, height, self.pixels);
        TextImage { width, height, pixels: flipped.unwrap() }
    }
}

/// The picture that text is drawn on, before any text: the background colour
/// all over.
pub fn text_background() -> (image: TextImage)
    ensures
        image.spec_width() == TEXT_IMAGE_WIDTH,
        image.spec_height() == TEXT_IMAGE_HEIGHT,
        image@ == blank(),
{
    let image = TextImage::filled(TEXT_IMAGE_WIDTH, TEXT_IMAGE_HEIGHT, background_color());
    image.unwrap()
}

/// Makes the picture of a line of text for an engine whose rows run upward.
///
/// `draw` is handed the width, the height and the bytes of the blank
/// background and gives back the bytes with the text drawn on them. What it
/// gives back is turned upside down; where it does not hold the picture's
/// pixels any more, there is no picture.
pub fn text_to_image<F: FnOnce(u32, u32, Vec<u8>) -> Vec<u8>>(draw: F) -> (image: Option<TextImage>)
    requires
        forall|canvas: Vec<u8>|
            canvas@ == blank() ==> call_requires(
                draw,
                (TEXT_IMAGE_WIDTH, TEXT_IMAGE_HEIGHT, canvas),
            ),
    ensures
        exists|canvas: Vec<u8>, drawn: Vec<u8>|
            canvas@ == blank() && call_ensures(
                draw,
                (TEXT_IMAGE_WIDTH, TEXT_IMAGE_HEIGHT, canvas),
                drawn,
            ) && finished(image, drawn@),
{
    let canvas = text_background().into_raw();
    let ghost blank_canvas = canvas;
    let drawn = draw(TEXT_IMAGE_WIDTH, TEXT_IMAGE_HEIGHT, canvas);
    let ghost drawn_bytes = drawn;
    let image = match TextImage::from_raw(TEXT_IMAGE_WIDTH, TEXT_IMAGE_HEIGHT, drawn) {
        Some(upright) => Some(upright.flip_vertical()),
        None => None,
    };
    assert(blank_canvas@ == blank() && call_ensures(
        draw,
        (TEXT_IMAGE_WIDTH, TEXT_IMAGE_HEIGHT, blank_canvas),
        drawn_bytes,
    ) && finished(image, drawn_bytes@));
    image
}

} // verus!
