//! The raster buffer of the LED matrix: 64 cells of two bytes each, kept in
//! logical (unrotated) order, and the orientation under which it is shown.
//!
//! The buffer is turned only when it is rendered for the device. Reading a
//! single pixel goes through the orientation; reading the whole grid does
//! not.

use crate::error::{SenseHatError, SenseHatResult};
use crate::gamma::{
    low_light_curve, low_light_request, low_light_table, set_gamma_outcome, GammaPreset,
    GammaRequest,
};
use crate::orientation::{lemma_index_inverse, logical_index, on_grid, physical_index, Orientation};
use crate::pixel::{convert_from_pixel, convert_to_pixel, lemma_unpack_stable, pack, unpack, Pixel};
use crate::wire::{high_byte, lemma_word_bytes, low_byte, read_u16_le, word_of, write_u16_le};
use vstd::prelude::*;

verus! {

/// The word stored in cell `cell` of a frame.
pub open spec fn word_at(frame: Seq<u8>, cell: int) -> u16 {
    word_of(frame[2 * cell], frame[2 * cell + 1])
}

/// The frame with the word `w` stored in cell `cell`.
pub open spec fn with_word(frame: Seq<u8>, cell: int, w: u16) -> Seq<u8> {
    frame.update(2 * cell, low_byte(w)).update(2 * cell + 1, high_byte(w))
}

/// The frame whose cells hold the packed colours of `pixels`, in order.
pub open spec fn packed_frame(pixels: Seq<Pixel>) -> Seq<u8> {
    Seq::new(
        128,
        |k: int|
            if k % 2 == 0 {
                low_byte(pack(pixels[k / 2]))
            } else {
                high_byte(pack(pixels[k / 2]))
            },
    )
}

/// The colours that the cells of a frame are read back as, in order.
pub open spec fn unpacked_grid(frame: Seq<u8>) -> Seq<Pixel> {
    Seq::new(64, |i: int| unpack(word_at(frame, i)))
}

/// The frame with every byte zero: the matrix switched off.
pub open spec fn blank_frame() -> Seq<u8> {
    Seq::new(128, |k: int| 0u8)
}

/// The grid that shows the colour `c` in every cell.
pub open spec fn solid_grid(c: Pixel) -> Seq<Pixel> {
    Seq::new(64, |i: int| c)
}

/// The bytes sent to the device for a frame under an orientation: each cell
/// of the result holds the two bytes of the logical cell that it shows.
pub open spec fn rendered(frame: Seq<u8>, o: Orientation) -> Seq<u8> {
    Seq::new(128, |k: int| frame[2 * logical_index(k / 2, o) + k % 2])
}

/// The grid with every row reversed.
pub open spec fn flipped_h(grid: Seq<Pixel>) -> Seq<Pixel> {
    Seq::new(64, |i: int| grid[8 * (i / 8) + (7 - i % 8)])
}

/// The grid with row `r` and row `7 - r` exchanged, for every `r`.
pub open spec fn flipped_v(grid: Seq<Pixel>) -> Seq<Pixel> {
    Seq::new(64, |i: int| grid[8 * (7 - i / 8) + i % 8])
}

/// The frame that holds the grid of `frame` with every row reversed.
pub open spec fn stored_flip_h(frame: Seq<u8>) -> Seq<u8> {
    packed_frame(flipped_h(unpacked_grid(frame)))
}

/// The frame that holds the grid of `frame` with its rows exchanged top to
/// bottom.
pub open spec fn stored_flip_v(frame: Seq<u8>) -> Seq<u8> {
    packed_frame(flipped_v(unpacked_grid(frame)))
}

/// The LED matrix as the library holds it.
#[derive(Debug)]
pub struct Display {
    frame: [u8; 128],
    orientation: Orientation,
}

impl Display {
    /// The 128 bytes of the buffer, in logical order.
    pub closed spec fn frame(&self) -> Seq<u8> {
        self.frame@
    }

    /// The current orientation.
    pub closed spec fn orientation(&self) -> Orientation {
        self.orientation
    }

    /// The colours of the 64 cells, in logical order.
    pub open spec fn pixels(&self) -> Seq<Pixel> {
        unpacked_grid(self.frame())
    }

    /// The buffer is 128 bytes long.
    pub proof fn lemma_frame_len(&self)
        ensures
            self.frame().len() == 128,
    {
    }

    /// A display with a blank buffer, not turned.
    pub fn new() -> (d: Self)
        ensures
            d.frame() == blank_frame(),
            d.orientation() == Orientation::Deg0,
    {
        let d = Display { frame: [0u8; 128], orientation: Orientation::Deg0 };
        assert(d.frame@ =~= blank_frame());
        d
    }

    /// The current orientation.
    pub fn rotation(&self) -> (o: Orientation)
        ensures
            o == self.orientation(),
    {
        self.orientation
    }

    /// The position in the buffer of the first byte of the cell that shows
    /// `(x, y)` under the current orientation.
    pub fn map_position(&self, x: usize, y: usize) -> (pos: usize)
        requires
            x <= 7,
            y <= 7,
        ensures
            pos == 2 * physical_index(x as int, y as int, self.orientation()),
            pos + 1 < 128,
    {
        match self.orientation {
            Orientation::Deg0 => 2 * (x + 8 * y),
            Orientation::Deg90 => 2 * ((7 - y) + 8 * x),
            Orientation::Deg180 => 126 - 2 * (x + 8 * y),
            Orientation::Deg270 => 2 * (y + 8 * (7 - x)),
        }
    }

    /// The bytes to send to the device: the buffer as it is when the
    /// display is not turned, else the buffer with every cell moved to the
    /// place where the orientation shows it. The buffer itself stays in
    /// logical order.
    pub fn draw(&self) -> (out: [u8; 128])
        ensures
            out@ == rendered(self.frame(), self.orientation()),
    {
        if self.orientation == Orientation::Deg0 {
            proof {
                lemma_upright_render_is_verbatim(self.frame@);
            }
            self.frame
        } else {
            let mut temp = [0u8; 128];
            let mut i: usize = 0;
            for y in 0..8usize
                invariant
                    i == 16 * y,
                    forall|k: int|
                        0 <= k < 128 && 2 * logical_index(k / 2, self.orientation) < i
                            ==> #[trigger] temp@[k] == self.frame@[2 * logical_index(
                            k / 2,
                            self.orientation,
                        ) + k % 2],
            {
                for x in 0..8usize
                    invariant
                        y < 8,
                        i == 16 * y + 2 * x,
                        forall|k: int|
                            0 <= k < 128 && 2 * logical_index(k / 2, self.orientation) < i
                                ==> #[trigger] temp@[k] == self.frame@[2 * logical_index(
                                k / 2,
                                self.orientation,
                            ) + k % 2],
                {
                    let cor: usize = self.map_position(x, y);
                    let pixel: u16 = read_u16_le(self.frame[i], self.frame[i + 1]);
                    let bytes = write_u16_le(pixel);
                    proof {
                        lemma_index_inverse(self.orientation);
                        lemma_word_bytes(0, self.frame@[i as int], self.frame@[i + 1]);
                        assert(on_grid(x as int, y as int));
                        assert(logical_index(cor as int / 2, self.orientation) == x + 8 * y);
                    }
                    temp[cor] = bytes[0];
                    temp[cor + 1] = bytes[1];
                    i += 2;
                }
            }
            assert(temp@ =~= rendered(self.frame@, self.orientation));
            temp
        }
    }

    /// Sets the orientation. With `redraw` the buffer is rendered under the
    /// new orientation and handed back for sending; without it nothing is
    /// sent, and the orientation shows at the next operation that draws.
    pub fn set_rotation(&mut self, ori: Orientation, redraw: bool) -> (out: Option<[u8; 128]>)
        ensures
            final(self).frame() == old(self).frame(),
            final(self).orientation() == ori,
            redraw ==> out.is_some() && out.unwrap()@ == rendered(old(self).frame(), ori),
            !redraw ==> out.is_none(),
    {
        self.orientation = ori;
        if redraw {
            Some(self.draw())
        } else {
            None
        }
    }

    /// Stores the 64 colours, packed, in logical order, and hands back the
    /// bytes to send.
    pub fn set_pixels(&mut self, pixels: &[Pixel; 64]) -> (out: [u8; 128])
        ensures
            final(self).frame() == packed_frame(pixels@),
            final(self).orientation() == old(self).orientation(),
            out@ == rendered(packed_frame(pixels@), old(self).orientation()),
    {
        let mut n: usize = 0;
        while n < 64
            invariant
                n <= 64,
                self.orientation == old(self).orientation,
                forall|k: int| 0 <= k < 2 * n ==> #[trigger] self.frame@[k] == packed_frame(pixels@)[k],
            decreases 64 - n,
        {
            let bytes = write_u16_le(convert_from_pixel(pixels[n]));
            self.frame[2 * n] = bytes[0];
            self.frame[2 * n + 1] = bytes[1];
            n += 1;
        }
        assert(self.frame@ =~= packed_frame(pixels@));
        self.draw()
    }

    /// The colours of the 64 cells in logical order, whatever the
    /// orientation.
    pub fn get_pixels(&self) -> (pixels: [Pixel; 64])
        ensures
            pixels@ == self.pixels(),
    {
        let mut pixels: [Pixel; 64] = [(0u8, 0u8, 0u8); 64];
        let mut n: usize = 0;
        while n < 64
            invariant
                n <= 64,
                forall|i: int| 0 <= i < n ==> #[trigger] pixels@[i] == unpack(word_at(self.frame@, i)),
            decreases 64 - n,
        {
            let word: u16 = read_u16_le(self.frame[2 * n], self.frame[2 * n + 1]);
            pixels[n] = convert_to_pixel(word);
            n += 1;
        }
        assert(pixels@ =~= unpacked_grid(self.frame@));
        pixels
    }

    /// Stores one colour, packed, in the logical cell of `(x, y)`, and hands
    /// back the bytes to send. A coordinate above 7 is refused and changes
    /// nothing.
    pub fn set_pixel(&mut self, x: usize, y: usize, p: Pixel) -> (out: SenseHatResult<[u8; 128]>)
        ensures
            final(self).orientation() == old(self).orientation(),
            x > 7 || y > 7 ==> out == Err::<[u8; 128], SenseHatError>(SenseHatError::OutOfBounds)
                && final(self).frame() == old(self).frame(),
            x <= 7 && y <= 7 ==> final(self).frame() == with_word(
                old(self).frame(),
                x + 8 * y,
                pack(p),
            ) && out.is_ok() && out.unwrap()@ == rendered(
                final(self).frame(),
                old(self).orientation(),
            ),
    {
        if x > 7 || y > 7 {
            return Err(SenseHatError::OutOfBounds);
        }
        let pos: usize = 2 * (x + 8 * y);
        let bytes = write_u16_le(convert_from_pixel(p));
        self.frame[pos] = bytes[0];
        self.frame[pos + 1] = bytes[1];
        Ok(self.draw())
    }

    /// The colour read from the cell that shows `(x, y)` under the current
    /// orientation. A coordinate above 7 is refused.
    pub fn get_pixel(&self, x: usize, y: usize) -> (out: SenseHatResult<Pixel>)
        ensures
            x > 7 || y > 7 ==> out == Err::<Pixel, SenseHatError>(SenseHatError::OutOfBounds),
            x <= 7 && y <= 7 ==> out == Ok::<Pixel, SenseHatError>(
                unpack(
                    word_at(self.frame(), physical_index(x as int, y as int, self.orientation())),
                ),
            ),
    {
        if x > 7 || y > 7 {
            return Err(SenseHatError::OutOfBounds);
        }
        let pos: usize = self.map_position(x, y);
        let value: u16 = read_u16_le(self.frame[pos], self.frame[pos + 1]);
        Ok(convert_to_pixel(value))
    }

    /// Fills the buffer with one colour, or with zeros where none is given,
    /// and hands back the bytes to send: the buffer as it is, not turned.
    pub fn clear(&mut self, color: Option<Pixel>) -> (out: [u8; 128])
        ensures
            final(self).orientation() == old(self).orientation(),
            final(self).frame() == match color {
                Some(c) => packed_frame(solid_grid(c)),
                None => blank_frame(),
            },
            out@ == final(self).frame(),
    {
        match color {
            Some(c) => {
                let bytes = write_u16_le(convert_from_pixel(c));
                let mut n: usize = 0;
                while n < 64
                    invariant
                        n <= 64,
                        self.orientation == old(self).orientation,
                        bytes@ == seq![low_byte(pack(c)), high_byte(pack(c))],
                        forall|k: int|
                            0 <= k < 2 * n ==> #[trigger] self.frame@[k] == packed_frame(
                                solid_grid(c),
                            )[k],
                    decreases 64 - n,
                {
                    self.frame[2 * n] = bytes[0];
                    self.frame[2 * n + 1] = bytes[1];
                    n += 1;
                }
                assert(self.frame@ =~= packed_frame(solid_grid(c)));
            },
            None => {
                let mut k: usize = 0;
                while k < 128
                    invariant
                        k <= 128,
                        self.orientation == old(self).orientation,
                        forall|j: int| 0 <= j < k ==> #[trigger] self.frame@[j] == 0u8,
                    decreases 128 - k,
                {
                    self.frame[k] = 0;
                    k += 1;
                }
                assert(self.frame@ =~= blank_frame());
            },
        }
        self.frame
    }

    /// The grid with every row reversed. With `redraw` the flipped grid is
    /// stored and the bytes to send are handed back with it; without it the
    /// buffer stays as it is and nothing is sent.
    pub fn flip_h(&mut self, redraw: bool) -> (out: ([Pixel; 64], Option<[u8; 128]>))
        ensures
            out.0@ == flipped_h(old(self).pixels()),
            final(self).orientation() == old(self).orientation(),
            redraw ==> final(self).frame() == stored_flip_h(old(self).frame()) && out.1.is_some() && out.1.unwrap()@ == rendered(
                final(self).frame(),
                old(self).orientation(),
            ),
            !redraw ==> final(self).frame() == old(self).frame() && out.1.is_none(),
    {
        let pixels = self.get_pixels();
        let mut flipped: [Pixel; 64] = [(0u8, 0u8, 0u8); 64];
        let mut i: usize = 0;
        while i < 64
            invariant
                i <= 64,
                forall|j: int| 0 <= j < i ==> #[trigger] flipped@[j] == pixels@[8 * (j / 8) + (7 - j % 8)],
            decreases 64 - i,
        {
            flipped[i] = pixels[8 * (i / 8) + (7 - i % 8)];
            i += 1;
        }
        assert(flipped@ =~= flipped_h(pixels@));
        if redraw {
            let sent = self.set_pixels(&flipped);
            (flipped, Some(sent))
        } else {
            (flipped, None)
        }
    }

    /// The grid with row `r` and row `7 - r` exchanged, for every `r`. With
    /// `redraw` the flipped grid is stored and the bytes to send are handed
    /// back with it; without it the buffer stays as it is and nothing is
    /// sent.
    pub fn flip_v(&mut self, redraw: bool) -> (out: ([Pixel; 64], Option<[u8; 128]>))
        ensures
            out.0@ == flipped_v(old(self).pixels()),
            final(self).orientation() == old(self).orientation(),
            redraw ==> final(self).frame() == stored_flip_v(old(self).frame()) && out.1.is_some() && out.1.unwrap()@ == rendered(
                final(self).frame(),
                old(self).orientation(),
            ),
            !redraw ==> final(self).frame() == old(self).frame() && out.1.is_none(),
    {
        let pixels = self.get_pixels();
        let mut flipped: [Pixel; 64] = [(0u8, 0u8, 0u8); 64];
        let mut i: usize = 0;
        while i < 64
            invariant
                i <= 64,
                forall|j: int| 0 <= j < i ==> #[trigger] flipped@[j] == pixels@[8 * (7 - j / 8) + j % 8],
            decreases 64 - i,
        {
            flipped[i] = pixels[8 * (7 - i / 8) + i % 8];
            i += 1;
        }
        assert(flipped@ =~= flipped_v(pixels@));
        if redraw {
            let sent = self.set_pixels(&flipped);
            (flipped, Some(sent))
        } else {
            (flipped, None)
        }
    }

    /// The control call that reads the gamma table. What the device answers
    /// is the table, taken as it comes.
    pub fn gamma(&self) -> (request: GammaRequest)
        ensures
            request == GammaRequest::Read,
    {
        GammaRequest::Read
    }

    /// The control call that writes a gamma table. A table with an entry
    /// above 31 is refused: no call is to be made.
    pub fn set_gamma(&mut self, buffer: &[u8; 32]) -> (out: SenseHatResult<GammaRequest>)
        ensures
            *final(self) == *old(self),
            out == set_gamma_outcome(*buffer),
    {
        let mut i: usize = 0;
        while i < 32
            invariant
                i <= 32,
                forall|j: int| 0 <= j < i ==> #[trigger] buffer@[j] <= 31,
            decreases 32 - i,
        {
            if buffer[i] > 31 {
                return Err(SenseHatError::InvalidGamma);
            }
            i += 1;
        }
        Ok(GammaRequest::Write(*buffer))
    }

    /// The control call that installs the hardware's default gamma table.
    pub fn reset_gamma(&mut self) -> (request: GammaRequest)
        ensures
            *final(self) == *old(self),
            request == GammaRequest::Reset(GammaPreset::Default),
    {
        GammaRequest::Reset(GammaPreset::Default)
    }

    /// Whether `current`, the gamma table as read from the device, is the
    /// low-light table, entry for entry.
    pub fn is_low_light(&self, current: &[u8; 32]) -> (low: bool)
        ensures
            low == (current@ == low_light_curve()),
    {
        let table = low_light_table();
        let mut i: usize = 0;
        while i < 32
            invariant
                i <= 32,
                table@ == low_light_curve(),
                forall|j: int| 0 <= j < i ==> #[trigger] current@[j] == table@[j],
            decreases 32 - i,
        {
            if current[i] != table[i] {
                return false;
            }
            i += 1;
        }
        assert(current@ =~= table@);
        true
    }

    /// The control call that switches low-light mode on or off: it installs
    /// the low-light table or the hardware's default.
    pub fn low_light(&mut self, set_low: bool) -> (request: GammaRequest)
        ensures
            *final(self) == *old(self),
            request == low_light_request(set_low),
    {
        if set_low {
            GammaRequest::Reset(GammaPreset::Low)
        } else {
            GammaRequest::Reset(GammaPreset::Default)
        }
    }
}

/// Not turned, a frame is sent as it is.
pub proof fn lemma_upright_render_is_verbatim(frame: Seq<u8>)
    requires
        frame.len() == 128,
    ensures
        rendered(frame, Orientation::Deg0) == frame,
{
    assert(rendered(frame, Orientation::Deg0) =~= frame);
}

/// Rendering copies the word of every logical coordinate into the cell that
/// shows it under the orientation.
pub proof fn lemma_rendered_cell(frame: Seq<u8>, o: Orientation, x: int, y: int)
    requires
        frame.len() == 128,
        on_grid(x, y),
    ensures
        0 <= physical_index(x, y, o) < 64,
        word_at(rendered(frame, o), physical_index(x, y, o)) == word_at(frame, x + 8 * y),
{
    lemma_index_inverse(o);
    let p = physical_index(x, y, o);
    assert(logical_index((2 * p) / 2, o) == x + 8 * y);
    assert(logical_index((2 * p + 1) / 2, o) == x + 8 * y);
}

/// Storing a word in a cell changes that cell and no other.
pub proof fn lemma_with_word(frame: Seq<u8>, cell: int, w: u16, other: int)
    requires
        frame.len() == 128,
        0 <= cell < 64,
        0 <= other < 64,
    ensures
        with_word(frame, cell, w).len() == 128,
        word_at(with_word(frame, cell, w), cell) == w,
        other != cell ==> word_at(with_word(frame, cell, w), other) == word_at(frame, other),
{
    lemma_word_bytes(w, 0, 0);
}

/// A colour stored at a coordinate is read back, packed and unpacked, from
/// every coordinate that the orientation maps to the same cell: under any
/// orientation but the upright one that is another coordinate than the one
/// written to.
pub proof fn lemma_pixel_read_back(
    frame: Seq<u8>,
    o: Orientation,
    x: int,
    y: int,
    p: Pixel,
    rx: int,
    ry: int,
)
    requires
        frame.len() == 128,
        on_grid(x, y),
        on_grid(rx, ry),
        physical_index(rx, ry, o) == x + 8 * y,
    ensures
        unpack(word_at(with_word(frame, x + 8 * y, pack(p)), physical_index(rx, ry, o))) == unpack(
            pack(p),
        ),
{
    lemma_with_word(frame, x + 8 * y, pack(p), 0);
}

/// What a grid is read back as after it was stored: each colour packed and
/// unpacked.
pub proof fn lemma_grid_read_back(grid: Seq<Pixel>)
    requires
        grid.len() == 64,
    ensures
        unpacked_grid(packed_frame(grid)) == Seq::new(64, |i: int| unpack(pack(grid[i]))),
{
    assert forall|i: int| 0 <= i < 64 implies unpacked_grid(packed_frame(grid))[i] == unpack(
        pack(grid[i]),
    ) by {
        lemma_word_bytes(pack(grid[i]), 0, 0);
        assert(packed_frame(grid)[2 * i] == low_byte(pack(grid[i])));
        assert(packed_frame(grid)[2 * i + 1] == high_byte(pack(grid[i])));
    }
    assert(unpacked_grid(packed_frame(grid)) =~= Seq::new(64, |i: int| unpack(pack(grid[i]))));
}

/// A grid that was read from a frame is read back unchanged after it was
/// stored.
pub proof fn lemma_stored_grid_is_stable(frame: Seq<u8>)
    requires
        frame.len() == 128,
    ensures
        unpacked_grid(packed_frame(unpacked_grid(frame))) == unpacked_grid(frame),
{
    let grid = unpacked_grid(frame);
    lemma_grid_read_back(grid);
    assert forall|i: int| 0 <= i < 64 implies unpack(pack(grid[i])) == grid[i] by {
        lemma_unpack_stable(word_at(frame, i));
    }
    assert(unpacked_grid(packed_frame(grid)) =~= grid);
}

/// Reversing the rows of a grid twice gives the grid back.
pub proof fn lemma_flip_h_involution(grid: Seq<Pixel>)
    requires
        grid.len() == 64,
    ensures
        flipped_h(flipped_h(grid)) == grid,
{
    assert(flipped_h(flipped_h(grid)) =~= grid);
}

/// Exchanging the rows of a grid top to bottom twice gives the grid back.
pub proof fn lemma_flip_v_involution(grid: Seq<Pixel>)
    requires
        grid.len() == 64,
    ensures
        flipped_v(flipped_v(grid)) == grid,
{
    assert(flipped_v(flipped_v(grid)) =~= grid);
}

/// Flipping a display horizontally twice, storing the result each time:
/// the second flip returns the grid that the display showed at first, and
/// that grid is what the display then holds.
pub proof fn lemma_flip_h_twice(frame: Seq<u8>)
    requires
        frame.len() == 128,
    ensures
        flipped_h(unpacked_grid(stored_flip_h(frame))) == unpacked_grid(frame),
        unpacked_grid(stored_flip_h(stored_flip_h(frame))) == unpacked_grid(frame),
{
    let grid = unpacked_grid(frame);
    let once = stored_flip_h(frame);
    lemma_grid_read_back(flipped_h(grid));
    assert forall|i: int| 0 <= i < 64 implies unpacked_grid(once)[i] == flipped_h(grid)[i] by {
        lemma_unpack_stable(word_at(frame, 8 * (i / 8) + (7 - i % 8)));
    }
    assert(unpacked_grid(once) =~= flipped_h(grid));
    lemma_flip_h_involution(grid);
    lemma_stored_grid_is_stable(frame);
}

/// Flipping a display vertically twice, storing the result each time: the
/// second flip returns the grid that the display showed at first, and that
/// grid is what the display then holds.
pub proof fn lemma_flip_v_twice(frame: Seq<u8>)
    requires
        frame.len() == 128,
    ensures
        flipped_v(unpacked_grid(stored_flip_v(frame))) == unpacked_grid(frame),
        unpacked_grid(stored_flip_v(stored_flip_v(frame))) == unpacked_grid(frame),
{
    let grid = unpacked_grid(frame);
    let once = stored_flip_v(frame);
    lemma_grid_read_back(flipped_v(grid));
    assert forall|i: int| 0 <= i < 64 implies unpacked_grid(once)[i] == flipped_v(grid)[i] by {
        lemma_unpack_stable(word_at(frame, 8 * (7 - i / 8) + i % 8));
    }
    assert(unpacked_grid(once) =~= flipped_v(grid));
    lemma_flip_v_involution(grid);
    lemma_stored_grid_is_stable(frame);
}

} // verus!
