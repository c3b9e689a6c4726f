use vstd::prelude::*;

verus! {

/// An owned RGBA bitmap: four bytes per pixel, rows top to bottom.
pub struct Image {
    data: Vec<u8>,
    width: u32,
    height: u32,
}

/// Mathematical model of an `Image`.
pub struct ImageView {
    pub data: Seq<u8>,
    pub width: u32,
    pub height: u32,
}

impl View for Image {
    type V = ImageView;

    closed spec fn view(&self) -> ImageView {
        ImageView { data: self.data@, width: self.width, height: self.height }
    }
}

impl Image {
    /// A fully transparent black image of the given size.
    pub fn new(width: u32, height: u32) -> (img: Image)
        requires
            width * height * 4 <= u32::MAX,
        ensures
            img@.width == width,
            img@.height == height,
            img@.data.len() == width * height * 4,
            forall|i: int| 0 <= i < img@.data.len() ==> img@.data[i] == 0u8,
    {
        let size = (width * height * 4) as usize;
        let mut data: Vec<u8> = Vec::new();
        let mut i: usize = 0;
        while i < size
            invariant
                i <= size,
                data@.len() == i,
                forall|j: int| 0 <= j < i ==> data@[j] == 0u8,
            decreases size - i,
        {
            data.push(0);
            i = i + 1;
        }
        Image { data, width, height }
    }

    /// Wraps raw RGBA bytes as an image of the given size.
    pub fn from_rgba(data: Vec<u8>, width: u32, height: u32) -> (img: Image)
        ensures
            img@.data == data@,
            img@.width == width,
            img@.height == height,
    {
        Image { data, width, height }
    }

    pub fn width(&self) -> (w: u32)
        ensures
            w == self@.width,
    {
        self.width
    }

    pub fn height(&self) -> (h: u32)
        ensures
            h == self@.height,
    {
        self.height
    }

    pub fn data(&self) -> (d: &Vec<u8>)
        ensures
            d@ == self@.data,
    {
        &self.data
    }
}

/// Whether pixel (x, y) lies on the letter glyph drawn in the icon centre:
/// two vertical strokes, a top bar and a middle bar.
pub open spec fn in_letter(x: int, y: int) -> bool {
    (x == 15 && 10 <= y <= 20) || (x == 17 && 10 <= y <= 20) || (y == 10 && 15 <= x <= 17) || (y
        == 15 && 14 <= x <= 18)
}

/// Whether pixel (x, y) lies in the disc of radius 12 around the centre
/// (16, 16) of the icon.
pub open spec fn in_circle(x: int, y: int) -> bool {
    (x - 16) * (x - 16) + (y - 16) * (y - 16) <= 144
}

/// Channel `c` (0 red, 1 green, 2 blue, 3 alpha) of the icon's blue accent.
pub open spec fn blue_channel(c: int) -> u8 {
    if c == 0 {
        52
    } else if c == 1 {
        152
    } else if c == 2 {
        219
    } else {
        255
    }
}

/// The final value of channel `c` of pixel (x, y): the letter in blue, over
/// a white disc, over the blue background.
pub open spec fn icon_channel(x: int, y: int, c: int) -> u8 {
    if in_letter(x, y) {
        blue_channel(c)
    } else if in_circle(x, y) {
        255
    } else {
        blue_channel(c)
    }
}

/// Byte offset of channel `c` of pixel (x, y) in 32 by 32 RGBA data.
pub open spec fn pixel_index(x: int, y: int, c: int) -> int {
    (y * 32 + x) * 4 + c
}

/// Draws the default 32 by 32 tray icon: a white disc with a letter glyph
/// on a blue background. Every byte of the result is pinned by
/// `icon_channel`.
pub fn create_icon_image() -> (img: Image)
    ensures
        img@.width == 32,
        img@.height == 32,
        img@.data.len() == 4096,
        forall|x: int, y: int, c: int|
            0 <= x < 32 && 0 <= y < 32 && 0 <= c < 4 ==> img@.data[pixel_index(x, y, c)]
                == icon_channel(x, y, c),
{
    let mut data: Vec<u8> = Vec::new();
    let mut y: usize = 0;
    while y < 32
        invariant
            y <= 32,
            data@.len() == y * 128,
            forall|xx: int, yy: int, c: int|
                0 <= xx < 32 && 0 <= yy < y && 0 <= c < 4 ==> data@[pixel_index(xx, yy, c)]
                    == icon_channel(xx, yy, c),
        decreases 32 - y,
    {
        let mut x: usize = 0;
        while x < 32
            invariant
                y < 32,
                x <= 32,
                data@.len() == y * 128 + x * 4,
                forall|xx: int, yy: int, c: int|
                    0 <= xx < 32 && 0 <= yy < y && 0 <= c < 4 ==> data@[pixel_index(xx, yy, c)]
                        == icon_channel(xx, yy, c),
                forall|xx: int, c: int|
                    0 <= xx < x && 0 <= c < 4 ==> data@[pixel_index(xx, y as int, c)]
                        == icon_channel(xx, y as int, c),
            decreases 32 - x,
        {
            let xi = x as i32;
            let yi = y as i32;
            let dx = xi - 16;
            let dy = yi - 16;
            let letter = (xi == 15 && yi >= 10 && yi <= 20) || (xi == 17 && yi >= 10 && yi <= 20)
                || (yi == 10 && xi >= 15 && xi <= 17) || (yi == 15 && xi >= 14 && xi <= 18);
            proof {
                assert(dx * dx <= 256 && dx * dx >= 0) by (nonlinear_arith)
                    requires
                        -16 <= dx <= 15,
                ;
                assert(dy * dy <= 256 && dy * dy >= 0) by (nonlinear_arith)
                    requires
                        -16 <= dy <= 15,
                ;
            }
            let circle = dx * dx + dy * dy <= 144;
            if letter {
                data.push(52);
                data.push(152);
                data.push(219);
                data.push(255);
            } else if circle {
                data.push(255);
                data.push(255);
                data.push(255);
                data.push(255);
            } else {
                data.push(52);
                data.push(152);
                data.push(219);
                data.push(255);
            }
            proof {
                assert(letter == in_letter(x as int, y as int));
                assert(circle == in_circle(x as int, y as int));
                assert(data@[pixel_index(x as int, y as int, 0)] == icon_channel(
                    x as int,
                    y as int,
                    0,
                ));
                assert(data@[pixel_index(x as int, y as int, 1)] == icon_channel(
                    x as int,
                    y as int,
                    1,
                ));
                assert(data@[pixel_index(x as int, y as int, 2)] == icon_channel(
                    x as int,
                    y as int,
                    2,
                ));
                assert(data@[pixel_index(x as int, y as int, 3)] == icon_channel(
                    x as int,
                    y as int,
                    3,
                ));
            }
            x = x + 1;
        }
        y = y + 1;
    }
    Image::from_rgba(data, 32, 32)
}

} // verus!
