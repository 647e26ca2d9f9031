//! The screen: a toroidal monochrome bitmap with a back buffer that pixel
//! writes modify, a front buffer (the displayed image) that an explicit
//! commit copies the back buffer into, and a write cursor used by the pixel
//! ports. Coordinates wrap modulo the width and height, and pixel (x, y)
//! maps to bit `(x + y*width) % 8` of byte `(x + y*width) / 8`.

use vstd::prelude::*;

use crate::emod;
use crate::machine::zero_words;
use crate::machine::zeroed_words;
use crate::machine::Word;

verus! {

/// A byte with one bit forced on or off.
pub open spec fn spec_set_bit(byte: Word, bit: Word, value: bool) -> Word {
    if value {
        byte | (1u8 << bit)
    } else {
        byte & !(1u8 << bit)
    }
}

/// The screen's abstract state.
#[verifier::ext_equal]
pub ghost struct ScreenView {
    pub x: int,
    pub y: int,
    pub width: nat,
    pub height: nat,
    pub buffer: Seq<Word>,
    pub image: Seq<Word>,
    pub updated: bool,
}

impl ScreenView {
    /// How many bytes hold the packed pixels: one bit per pixel, rounded up.
    pub open spec fn data_length(self) -> nat {
        (self.width * self.height + 7) / 8
    }

    /// The dimensions are positive and small enough for index arithmetic,
    /// and both buffers hold exactly the packed pixel bytes.
    pub open spec fn wf(self) -> bool {
        &&& self.width >= 1
        &&& self.height >= 1
        &&& self.width * self.height <= isize::MAX
        &&& self.buffer.len() == self.data_length()
        &&& self.image.len() == self.data_length()
    }

    /// The bit number of pixel (x, y) in the packed buffers, after per-axis
    /// wraparound: the screen is toroidal.
    pub open spec fn bit_position(self, x: int, y: int) -> int {
        (x % self.width as int) + (y % self.height as int) * self.width as int
    }

    /// The freshly constructed screen: cursor at the origin, both buffers
    /// zeroed, marked for redisplay.
    pub open spec fn spec_new(width: nat, height: nat) -> ScreenView {
        ScreenView {
            x: 0,
            y: 0,
            width,
            height,
            buffer: zero_words((width * height + 7) / 8),
            image: zero_words((width * height + 7) / 8),
            updated: true,
        }
    }

    /// Whether the back-buffer pixel under the cursor is on.
    pub open spec fn spec_pix(self) -> bool {
        let position = self.bit_position(self.x, self.y);
        (self.buffer[position / 8] >> ((position % 8) as u8)) & 1 != 0
    }

    /// The state after writing the pixel under the cursor.
    pub open spec fn set_pix_model(self, value: bool) -> ScreenView {
        let position = self.bit_position(self.x, self.y);
        let updated_byte = spec_set_bit(self.buffer[position / 8], (position % 8) as u8, value);
        ScreenView { buffer: self.buffer.update(position / 8, updated_byte), ..self }
    }
}

pub struct Screen {
    pub x: isize,
    pub y: isize,

    width: usize,
    height: usize,

    buffer: Vec<Word>,

    image: Vec<Word>,
    image_updated: bool,
}

impl View for Screen {
    type V = ScreenView;

    closed spec fn view(&self) -> ScreenView {
        ScreenView {
            x: self.x as int,
            y: self.y as int,
            width: self.width as nat,
            height: self.height as nat,
            buffer: self.buffer@,
            image: self.image@,
            updated: self.image_updated,
        }
    }
}

impl Screen {
    pub fn new(width: usize, height: usize) -> (result: Self)
        requires
            1 <= width,
            1 <= height,
            width * height <= isize::MAX,
        ensures
            result@ == ScreenView::spec_new(width as nat, height as nat),
            result@.wf(),
    {
        let data_length = (width * height + 7) / 8;

        Self {
            x: 0,
            y: 0,

            width,
            height,

            buffer: zeroed_words(data_length),

            image: zeroed_words(data_length),
            image_updated: true,
        }
    }

    /// Moves the write cursor's x coordinate (any integer: reads and writes
    /// wrap it around the width).
    pub fn set_x(&mut self, x: isize)
        ensures
            final(self)@ == (ScreenView { x: x as int, ..old(self)@ }),
    {
        self.x = x;
    }

    /// Moves the write cursor's y coordinate (any integer: reads and writes
    /// wrap it around the height).
    pub fn set_y(&mut self, y: isize)
        ensures
            final(self)@ == (ScreenView { y: y as int, ..old(self)@ }),
    {
        self.y = y;
    }

    pub fn width(&self) -> (result: usize)
        ensures
            result == self@.width,
    {
        self.width
    }

    pub fn height(&self) -> (result: usize)
        ensures
            result == self@.height,
    {
        self.height
    }

    /// Whether the back-buffer pixel under the cursor is on.
    pub fn pix(&self) -> (result: bool)
        requires
            self@.wf(),
        ensures
            result == self@.spec_pix(),
    {
        let (byte, bit) = self.get_index(self.x, self.y);

        ((self.buffer[byte] >> (bit as u8)) & 1) != 0
    }

    /// Writes the back-buffer pixel under the cursor.
    pub fn set_pix(&mut self, value: bool)
        requires
            old(self)@.wf(),
        ensures
            final(self)@ == old(self)@.set_pix_model(value),
            final(self)@.wf(),
    {
        let (byte, bit) = self.get_index(self.x, self.y);

        if value {
            self.buffer[byte] = self.buffer[byte] | (1u8 << (bit as u8));
        } else {
            self.buffer[byte] = self.buffer[byte] & !(1u8 << (bit as u8));
        }
    }

    /// Commits the back buffer: copies it into the displayed image.
    pub fn push_buffer(&mut self)
        requires
            old(self)@.wf(),
        ensures
            final(self)@ == (ScreenView { image: old(self)@.buffer, updated: true, ..old(self)@ }),
    {
        let length = self.buffer.len();
        let mut i: usize = 0;
        while i < length
            invariant
                i <= length,
                self.buffer@.len() == length,
                self.image@.len() == length,
                self.x == old(self).x,
                self.y == old(self).y,
                self.width == old(self).width,
                self.height == old(self).height,
                self.buffer@ == old(self).buffer@,
                self.image_updated == old(self).image_updated,
                forall|j: int| 0 <= j < i ==> self.image@[j] == self.buffer@[j],
            decreases length - i,
        {
            let word = self.buffer[i];
            self.image[i] = word;
            i = i + 1;
        }
        self.image_updated = true;
        proof {
            assert(self@.image =~= old(self)@.buffer);
        }
    }

    /// Zeroes the back buffer without touching what is displayed.
    pub fn clear_buffer(&mut self)
        ensures
            final(self)@ == (ScreenView {
                buffer: zero_words(old(self)@.buffer.len()),
                ..old(self)@
            }),
    {
        let length = self.buffer.len();
        let mut i: usize = 0;
        while i < length
            invariant
                i <= length,
                self.buffer@.len() == length,
                self.x == old(self).x,
                self.y == old(self).y,
                self.width == old(self).width,
                self.height == old(self).height,
                self.image@ == old(self).image@,
                self.image_updated == old(self).image_updated,
                forall|j: int| 0 <= j < i ==> self.buffer@[j] == 0,
            decreases length - i,
        {
            self.buffer[i] = 0;
            i = i + 1;
        }
        proof {
            assert(self@.buffer =~= zero_words(old(self)@.buffer.len()));
        }
    }

    /// Zeroes both buffers.
    pub fn clear(&mut self)
        ensures
            final(self)@ == (ScreenView {
                buffer: zero_words(old(self)@.buffer.len()),
                image: zero_words(old(self)@.image.len()),
                updated: true,
                ..old(self)@
            }),
    {
        self.clear_buffer();

        let length = self.image.len();
        let mut i: usize = 0;
        while i < length
            invariant
                i <= length,
                self.image@.len() == length,
                self.x == old(self).x,
                self.y == old(self).y,
                self.width == old(self).width,
                self.height == old(self).height,
                self.buffer@ == zero_words(old(self)@.buffer.len()),
                forall|j: int| 0 <= j < i ==> self.image@[j] == 0,
            decreases length - i,
        {
            self.image[i] = 0;
            i = i + 1;
        }
        self.image_updated = true;
        proof {
            assert(self@.image =~= zero_words(old(self)@.image.len()));
        }
    }

    /// The displayed image: the packed bytes committed by the last
    /// `push_buffer`.
    pub fn image(&self) -> (result: &Vec<Word>)
        ensures
            result@ == self@.image,
    {
        &self.image
    }

    pub fn image_updated(&self) -> (result: bool)
        ensures
            result == self@.updated,
    {
        self.image_updated
    }

    pub fn disable_image_updated(&mut self)
        ensures
            final(self)@ == (ScreenView { updated: false, ..old(self)@ }),
    {
        self.image_updated = false;
    }

    /// The packed position of pixel (x, y): byte index and bit index, after
    /// wraparound of both coordinates.
    pub fn get_index(&self, x: isize, y: isize) -> (result: (usize, usize))
        requires
            self@.wf(),
        ensures
            result.0 == self@.bit_position(x as int, y as int) / 8,
            result.1 == self@.bit_position(x as int, y as int) % 8,
            result.0 < self@.buffer.len(),
            result.1 < 8,
    {
        proof {
            assert(self.width <= self.width * self.height && self.height <= self.width
                * self.height) by (nonlinear_arith)
                requires
                    self.width >= 1,
                    self.height >= 1,
            ;
        }
        let x = emod(x, self.width);
        let y = emod(y, self.height);

        proof {
            assert(y * self.width <= (self.height - 1) * self.width) by (nonlinear_arith)
                requires
                    y <= self.height - 1,
                    self.width >= 0,
            ;
            assert((self.height - 1) * self.width == self.height * self.width - self.width)
                by (nonlinear_arith);
            assert(self.width as int * self.height as int == self.height as int
                * self.width as int) by (nonlinear_arith);
        }
        let i = x + y * self.width;

        let byte = i / 8;
        let bit = i % 8;

        (byte, bit)
    }
}

/// Wraparound: a pixel write at (x + width, y) addresses the same packed bit
/// as one at (x, y), for all integer coordinates.
pub proof fn lemma_pixel_wraparound(v: ScreenView, x: int, y: int)
    requires
        v.wf(),
    ensures
        v.bit_position(x + v.width, y) == v.bit_position(x, y),
{
    vstd::arithmetic::div_mod::lemma_mod_multiples_vanish(1, x, v.width as int);
}

} // verus!
