//! The HT16K33 LED matrix displays: their frame buffer, the columns that a
//! text is drawn as, and the frames of a text scrolling across a row of
//! displays.
use vstd::prelude::*;
use crate::glyph::{glyph, Char};

verus! {

pub const HT16K33_BLINK_CMD: u8 = 0x80;
pub const HT16K33_BLINK_DISPLAYON: u8 = 0x01;
pub const HT16K33_BLINK_OFF: u8 = 0x00;
pub const HT16K33_BLINK_2HZ: u8 = 0x02;
pub const HT16K33_BLINK_1HZ: u8 = 0x04;
pub const HT16K33_BLINK_HALFHZ: u8 = 0x06;
pub const HT16K33_SYSTEM_SETUP: u8 = 0x20;
pub const HT16K33_OSCILLATOR: u8 = 0x01;
pub const HT16K33_CMD_BRIGHTNESS: u8 = 0xE0;

/// Scrolling speed, in milliseconds per column, when none is given.
pub const DEFAULT_SCROLL_MILLIS: u64 = 5;

/// Bit `i` of a byte.
pub open spec fn bit_of(b: u8, i: u8) -> bool {
    (b >> i) & 1u8 == 1u8
}

/// The bit of a row byte that holds column `x` of the matrix.
pub open spec fn column_bit(x: int) -> u8 {
    ((x + 7) % 8) as u8
}

/// The rows of one column of text: row `y` is lit when bit `7 - y` is set.
pub open spec fn column_bits(byte: u8) -> Seq<bool> {
    Seq::new(8, |y: int| byte & (1u8 << ((7 - y) as u8)) != 0u8)
}

/// The frame buffer of one 8x8 display. Row `y` is held in byte `2 * y`; the
/// odd bytes drive no LEDs of this matrix and are left alone.
#[derive(Clone, Copy, Debug, PartialEq, Eq)]
pub struct HT16K33 {
    pub buffer: [u8; 16],
}

proof fn lemma_set_bit(b: u8, o: u8)
    requires
        o < 8,
    ensures
        bit_of(b | (1u8 << o), o),
        forall|i: u8| i < 8 && i != o ==> bit_of(b | (1u8 << o), i) == bit_of(b, i),
        !bit_of(b & !(1u8 << o), o),
        forall|i: u8| i < 8 && i != o ==> bit_of(b & !(1u8 << o), i) == bit_of(b, i),
{
    assert(bit_of(b | (1u8 << o), o)) by (bit_vector)
        requires o < 8;
    assert(forall|i: u8| i < 8 && i != o ==> bit_of(b | (1u8 << o), i) == bit_of(b, i)) by (bit_vector)
        requires o < 8;
    assert(!bit_of(b & !(1u8 << o), o)) by (bit_vector)
        requires o < 8;
    assert(forall|i: u8| i < 8 && i != o ==> bit_of(b & !(1u8 << o), i) == bit_of(b, i)) by (bit_vector)
        requires o < 8;
}

impl HT16K33 {
    /// Whether the LED in column `x` and row `y` is lit.
    pub open spec fn lit(self, x: int, y: int) -> bool {
        bit_of(self.buffer@[2 * y], column_bit(x))
    }

    /// The odd bytes of two buffers agree.
    pub open spec fn same_spare_bytes(self, other: HT16K33) -> bool {
        forall|i: int| 0 <= i < 8 ==> #[trigger] self.buffer@[2 * i + 1] == other.buffer@[2 * i + 1]
    }

    /// The lit LEDs of two buffers agree everywhere but at (`x`, `y`).
    pub open spec fn same_but(self, other: HT16K33, x: int, y: int) -> bool {
        forall|x2: int, y2: int|
            0 <= x2 < 8 && 0 <= y2 < 8 && (x2 != x || y2 != y) ==> #[trigger] self.lit(x2, y2)
                == other.lit(x2, y2)
    }

    /// A buffer with every LED off.
    pub fn blank() -> (res: HT16K33)
        ensures
            forall|i: int| 0 <= i < 16 ==> res.buffer@[i] == 0,
    {
        HT16K33 { buffer: [0u8; 16] }
    }

    /// Turns one LED on or off.
    pub fn set_pixel(&mut self, x: u8, y: u8, on: bool)
        requires
            x <= 7,
            y <= 7,
        ensures
            final(self).lit(x as int, y as int) == on,
            final(self).same_but(*old(self), x as int, y as int),
            final(self).same_spare_bytes(*old(self)),
            forall|i: int| 0 <= i < 16 && i != 2 * y ==> final(self).buffer@[i] == old(self).buffer@[i],
    {
        let led: u8 = y * 16 + ((x + 7) % 8);
        let pos: u8 = led / 8;
        let offset: u8 = led % 8;
        assert(pos == 2 * y && offset == column_bit(x as int));
        let old_byte = self.buffer[pos as usize];
        proof {
            lemma_set_bit(old_byte, offset);
        }
        if on {
            self.buffer[pos as usize] = old_byte | (1u8 << offset);
        } else {
            self.buffer[pos as usize] = old_byte & !(1u8 << offset);
        }
        assert forall|x2: int, y2: int|
            0 <= x2 < 8 && 0 <= y2 < 8 && (x2 != x || y2 != y) implies #[trigger] self.lit(x2, y2)
                == old(self).lit(x2, y2) by {
            if y2 == y {
                assert(column_bit(x2) != offset);
            }
        }
    }

    /// Turns every LED on or off, one at a time.
    fn fill(&mut self, on: bool)
        ensures
            forall|x: int, y: int| 0 <= x < 8 && 0 <= y < 8 ==> #[trigger] final(self).lit(x, y) == on,
            final(self).same_spare_bytes(*old(self)),
    {
        let ghost start = *self;
        let mut x: u8 = 0;
        while x < 8
            invariant
                x <= 8,
                forall|x2: int, y2: int| 0 <= x2 < x && 0 <= y2 < 8 ==> #[trigger] self.lit(x2, y2) == on,
                self.same_spare_bytes(start),
            decreases 8 - x,
        {
            let mut y: u8 = 0;
            while y < 8
                invariant
                    x < 8,
                    y <= 8,
                    forall|x2: int, y2: int| 0 <= x2 < x && 0 <= y2 < 8 ==> #[trigger] self.lit(x2, y2) == on,
                    forall|y2: int| 0 <= y2 < y ==> #[trigger] self.lit(x as int, y2) == on,
                    self.same_spare_bytes(start),
                decreases 8 - y,
            {
                let ghost before = *self;
                self.set_pixel(x, y, on);
                assert forall|x2: int, y2: int| 0 <= x2 < x && 0 <= y2 < 8 implies #[trigger] self.lit(x2, y2) == on by {
                    assert(before.lit(x2, y2) == on);
                }
                assert forall|y2: int| 0 <= y2 < y + 1 implies #[trigger] self.lit(x as int, y2) == on by {
                    if y2 < y {
                        assert(before.lit(x as int, y2) == on);
                    }
                }
                y = y + 1;
            }
            x = x + 1;
        }
    }

    /// Lights every LED (the buffer part of turning the whole display on).
    pub fn all_on(&mut self)
        ensures
            forall|x: int, y: int| 0 <= x < 8 && 0 <= y < 8 ==> #[trigger] final(self).lit(x, y),
            final(self).same_spare_bytes(*old(self)),
    {
        self.fill(true);
    }

    /// Turns every LED off (the buffer part of clearing the display).
    pub fn clear(&mut self)
        ensures
            forall|x: int, y: int| 0 <= x < 8 && 0 <= y < 8 ==> !#[trigger] final(self).lit(x, y),
            final(self).same_spare_bytes(*old(self)),
    {
        self.fill(false);
    }

    /// The register writes that send the buffer to the display: each byte
    /// preceded by its address.
    pub fn buffer_writes(&self) -> (res: Vec<[u8; 2]>)
        ensures
            res@.len() == 16,
            forall|i: int| 0 <= i < 16 ==> #[trigger] res@[i]@ == seq![i as u8, self.buffer@[i]],
    {
        let mut res: Vec<[u8; 2]> = Vec::new();
        let mut i: usize = 0;
        while i < 16
            invariant
                i <= 16,
                res@.len() == i,
                forall|j: int| 0 <= j < i ==> #[trigger] res@[j]@ == seq![j as u8, self.buffer@[j]],
            decreases 16 - i,
        {
            let pair: [u8; 2] = [i as u8, self.buffer[i]];
            assert(pair@ == seq![i as u8, self.buffer@[i as int]]);
            res.push(pair);
            i = i + 1;
        }
        res
    }

    /// The command that sets the brightness to `level` (0 to 15).
    pub fn brightness_command(level: u8) -> (res: u8)
        requires
            level <= 15,
        ensures
            res == HT16K33_CMD_BRIGHTNESS | level,
    {
        HT16K33_CMD_BRIGHTNESS | level
    }
}


/// The columns that draw one character: the glyph's columns from left to
/// right, then one blank column unless the character is a space.
pub open spec fn char_columns(c: char) -> Seq<u8> {
    let w = glyph(c).0;
    let bits = glyph(c).1;
    Seq::new(w as nat, |i: int| ((bits >> (((4 - i) * 8) as u64)) & 0xFFu64) as u8) + if c != ' ' {
        seq![0u8]
    } else {
        Seq::<u8>::empty()
    }
}

/// The columns that draw a text: those of its characters, in order.
pub open spec fn text_columns_of(s: Seq<char>) -> Seq<u8>
    decreases s.len(),
{
    if s.len() == 0 {
        Seq::empty()
    } else {
        text_columns_of(s.drop_last()) + char_columns(s.last())
    }
}

/// The columns that draw a text, as they scroll across the displays.
pub fn text_columns(text: &str) -> (res: Vec<u8>)
    ensures
        res@ == text_columns_of(text@),
{
    let n = text.unicode_len();
    let mut columns: Vec<u8> = Vec::new();
    let mut i: usize = 0;
    while i < n
        invariant
            n == text@.len(),
            i <= n,
            columns@ == text_columns_of(text@.take(i as int)),
        decreases n - i,
    {
        let character = text.get_char(i);
        let c = Char::from(character);
        let ghost start = columns@;
        let ghost w = c.0 as int;
        let mut k: u8 = 5;
        while k > 5 - c.0
            invariant
                1 <= w <= 5,
                c.0 == w,
                5 - w <= k <= 5,
                columns@ == start + Seq::new((5 - k) as nat, |j: int| ((c.1 >> (((4 - j) * 8) as u64)) & 0xFFu64) as u8),
            decreases k,
        {
            k = k - 1;
            let row = ((c.1 >> ((k as u64) * 8)) & 0xFF) as u8;
            columns.push(row);
            assert(columns@ == start + Seq::new((5 - k) as nat, |j: int| ((c.1 >> (((4 - j) * 8) as u64)) & 0xFFu64) as u8));
        }
        if character != ' ' {
            columns.push(0);
        }
        assert(text@.take(i + 1).drop_last() == text@.take(i as int));
        assert(columns@ == text_columns_of(text@.take(i + 1)));
        i = i + 1;
    }
    assert(text@.take(n as int) == text@);
    columns
}

/// Byte `k` of a glyph bitmap, counting from the lowest byte.
pub open spec fn bitmap_byte(bits: u64, k: int) -> u8 {
    ((bits >> ((8 * k) as u64)) & 0xFFu64) as u8
}

/// The columns of a text are those of its first part followed by those of
/// the rest: characters are drawn left to right, in their order.
pub proof fn lemma_text_columns_concat(a: Seq<char>, b: Seq<char>)
    ensures
        text_columns_of(a + b) == text_columns_of(a) + text_columns_of(b),
    decreases b.len(),
{
    if b.len() == 0 {
        assert(a + b =~= a);
        assert(text_columns_of(a) + text_columns_of(b) =~= text_columns_of(a));
    } else {
        assert((a + b).drop_last() =~= a + b.drop_last());
        assert((a + b).last() == b.last());
        lemma_text_columns_concat(a, b.drop_last());
        assert(text_columns_of(a + b) =~= text_columns_of(a) + text_columns_of(b));
    }
}

/// A character adds, after the columns of what precedes it, the columns of
/// its glyph from left to right, where the leftmost is the bitmap's highest
/// byte: column `i` (`i` below the glyph's width `w`) is byte `4 - i`. Then
/// one blank column follows, unless the character is a space.
pub proof fn lemma_char_columns_from_glyph(s: Seq<char>, c: char)
    ensures
        ({
            let before = text_columns_of(s);
            let after = text_columns_of(s.push(c));
            let w = glyph(c).0 as int;
            &&& after.len() == before.len() + w + (if c == ' ' { 0int } else { 1int })
            &&& after.subrange(0, before.len() as int) == before
            &&& forall|i: int| 0 <= i < w ==> #[trigger] after[before.len() + i] == bitmap_byte(glyph(c).1, 4 - i)
            &&& c != ' ' ==> after[before.len() + w] == 0u8
        }),
{
    let before = text_columns_of(s);
    let after = text_columns_of(s.push(c));
    assert(s.push(c).drop_last() =~= s);
    assert(after == before + char_columns(c));
    assert(after.subrange(0, before.len() as int) =~= before);
}

/// The screen formed by a row of displays: column `p` is column `p % 8` of
/// display `p / 8`, each column given by its eight rows from the top.
pub open spec fn screen_column(devices: Seq<HT16K33>, p: int) -> Seq<bool> {
    Seq::new(8, |y: int| devices[p / 8].lit(p % 8, y))
}

pub open spec fn screen(devices: Seq<HT16K33>) -> Seq<Seq<bool>> {
    Seq::new(8 * devices.len(), |p: int| screen_column(devices, p))
}

/// Screen column `p` in frame `k` of a scroll: the text column that has
/// reached it, a blank column just behind the end of the text, or else what
/// it showed before.
pub open spec fn frame_column(before: Seq<bool>, columns: Seq<u8>, k: int, p: int) -> Seq<bool> {
    if p <= k && k - p < columns.len() {
        column_bits(columns[k - p])
    } else if p == k - columns.len() {
        column_bits(0)
    } else {
        before
    }
}

/// Frame `k` of a scroll: the text starts at column `k` and runs backwards.
pub open spec fn frame(scr: Seq<Seq<bool>>, columns: Seq<u8>, k: int) -> Seq<Seq<bool>> {
    Seq::new(scr.len(), |p: int| frame_column(scr[p], columns, k, p))
}

/// The screen after frames `0 .. n` of a scroll.
pub open spec fn frames(scr: Seq<Seq<bool>>, columns: Seq<u8>, n: nat) -> Seq<Seq<bool>>
    decreases n,
{
    if n == 0 {
        scr
    } else {
        frame(frames(scr, columns, (n - 1) as nat), columns, n - 1)
    }
}

/// The number of frames of a scroll: until the whole text has slid past.
pub open spec fn frame_count(columns: Seq<u8>, displays: nat) -> nat {
    columns.len() + 8 * displays
}

/// The number of frames of a scroll of `columns` across `devices`.
pub fn frame_total(columns: &[u8], devices: &Vec<HT16K33>) -> (res: usize)
    requires
        columns@.len() + 8 * devices@.len() <= usize::MAX,
    ensures
        res == frame_count(columns@, devices@.len()),
{
    columns.len() + 8 * devices.len()
}

/// The spare (odd) bytes of every display agree.
pub open spec fn same_spare_bytes_all(a: Seq<HT16K33>, b: Seq<HT16K33>) -> bool {
    &&& a.len() == b.len()
    &&& forall|d: int| 0 <= d < a.len() ==> #[trigger] a[d].same_spare_bytes(b[d])
}

/// Draws one column byte into screen column `p`.
fn set_column(devices: &mut Vec<HT16K33>, p: usize, byte: u8)
    requires
        p < 8 * old(devices)@.len(),
    ensures
        final(devices)@.len() == old(devices)@.len(),
        screen(final(devices)@) == screen(old(devices)@).update(p as int, column_bits(byte)),
        same_spare_bytes_all(final(devices)@, old(devices)@),
{
    let d = p / 8;
    let x = (p % 8) as u8;
    let ghost start = devices@;
    let mut y: u8 = 0;
    while y < 8
        invariant
            d < devices@.len(),
            devices@.len() == start.len(),
            x == p % 8,
            d == p / 8,
            y <= 8,
            forall|e: int| 0 <= e < start.len() && e != d ==> devices@[e] == start[e],
            forall|x2: int, y2: int|
                0 <= x2 < 8 && 0 <= y2 < 8 && x2 != x ==> #[trigger] devices@[d as int].lit(x2, y2)
                    == start[d as int].lit(x2, y2),
            forall|y2: int|
                0 <= y2 < y ==> #[trigger] devices@[d as int].lit(x as int, y2) == column_bits(byte)[y2],
            forall|y2: int| y <= y2 < 8 ==> #[trigger] devices@[d as int].lit(x as int, y2) == start[d as int].lit(x as int, y2),
            same_spare_bytes_all(devices@, start),
        decreases 8 - y,
    {
        let on = byte & (1u8 << (7 - y)) != 0;
        let ghost before = devices@[d as int];
        let mut dev = devices[d];
        dev.set_pixel(x, y, on);
        devices.set(d, dev);
        assert(devices@[d as int].same_but(before, x as int, y as int));
        assert forall|y2: int| 0 <= y2 < y + 1 implies #[trigger] devices@[d as int].lit(x as int, y2) == column_bits(byte)[y2] by {
            if y2 < y {
                assert(before.lit(x as int, y2) == column_bits(byte)[y2]);
            }
        }
        assert forall|y2: int| y + 1 <= y2 < 8 implies #[trigger] devices@[d as int].lit(x as int, y2) == start[d as int].lit(x as int, y2) by {
            assert(before.lit(x as int, y2) == start[d as int].lit(x as int, y2));
        }
        assert forall|x2: int, y2: int|
            0 <= x2 < 8 && 0 <= y2 < 8 && x2 != x implies #[trigger] devices@[d as int].lit(x2, y2)
                == start[d as int].lit(x2, y2) by {
            assert(before.lit(x2, y2) == start[d as int].lit(x2, y2));
        }
        assert forall|e: int| 0 <= e < devices@.len() implies #[trigger] devices@[e].same_spare_bytes(start[e]) by {
            if e == d {
                assert(before.same_spare_bytes(start[e]));
            }
        }
        y = y + 1;
    }
    assert(screen(devices@) =~= screen(start).update(p as int, column_bits(byte))) by {
        assert forall|q: int| 0 <= q < 8 * start.len() implies #[trigger] screen(devices@)[q]
            == screen(start).update(p as int, column_bits(byte))[q] by {
            if q == p {
                assert(screen_column(devices@, q) =~= column_bits(byte));
            } else {
                assert(screen_column(devices@, q) =~= screen_column(start, q)) by {
                    assert forall|y2: int| 0 <= y2 < 8 implies #[trigger] devices@[q / 8].lit(q % 8, y2) == start[q / 8].lit(q % 8, y2) by {
                        if q / 8 == d {
                            assert(q % 8 != x);
                        }
                    }
                }
            }
        }
    }
}

/// Draws frame `column_number` of a text scrolling across the displays
/// (given right to left): each text column that has reached the screen is
/// drawn where it has reached, and the column just behind the text is
/// cleared. The caller then sends the buffers and waits before the next frame.
pub fn scroll_frame(devices: &mut Vec<HT16K33>, columns: &[u8], column_number: usize)
    requires
        column_number < frame_count(columns@, old(devices)@.len()),
        8 * old(devices)@.len() <= usize::MAX,
    ensures
        final(devices)@.len() == old(devices)@.len(),
        screen(final(devices)@) == frame(screen(old(devices)@), columns@, column_number as int),
        same_spare_bytes_all(final(devices)@, old(devices)@),
{
    let ghost start = devices@;
    let width = 8 * devices.len();
    let k = column_number;
    let mut i: usize = column_number;
    let mut j: usize = 0;
    while j < columns.len()
        invariant_except_break
            i + j == k,
            forall|p: int| 0 <= p < width ==> #[trigger] screen(devices@)[p] == if k - j < p <= k && k - p < columns@.len() {
                column_bits(columns@[k - p])
            } else {
                screen(start)[p]
            },
        invariant
            width == 8 * start.len(),
            devices@.len() == start.len(),
            k < columns@.len() + width,
            j <= columns@.len(),
            screen(devices@).len() == width,
            same_spare_bytes_all(devices@, start),
        ensures
            devices@.len() == start.len(),
            forall|p: int| 0 <= p < width ==> #[trigger] screen(devices@)[p] == if p <= k && k - p < columns@.len() {
                column_bits(columns@[k - p])
            } else {
                screen(start)[p]
            },
            same_spare_bytes_all(devices@, start),
        decreases columns@.len() - j,
    {
        if i < width {
            let ghost before = devices@;
            set_column(devices, i, columns[j]);
            assert forall|p: int| 0 <= p < width implies #[trigger] screen(devices@)[p] == if k - (j + 1) < p <= k && k - p < columns@.len() {
                column_bits(columns@[k - p])
            } else {
                screen(start)[p]
            } by {
                if p != i {
                    assert(screen(devices@)[p] == screen(before)[p]);
                }
            }
            assert forall|e: int| 0 <= e < devices@.len() implies #[trigger] devices@[e].same_spare_bytes(start[e]) by {
                assert(devices@[e].same_spare_bytes(before[e]));
                assert(before[e].same_spare_bytes(start[e]));
            }
        }
        if i == 0 {
            break;
        }
        i = i - 1;
        j = j + 1;
    }
    if column_number >= columns.len() {
        let after = column_number - columns.len();
        let ghost before = devices@;
        set_column(devices, after, 0);
        assert forall|e: int| 0 <= e < devices@.len() implies #[trigger] devices@[e].same_spare_bytes(start[e]) by {
            assert(devices@[e].same_spare_bytes(before[e]));
            assert(before[e].same_spare_bytes(start[e]));
        }
    }
    assert(screen(devices@) =~= frame(screen(start), columns@, k as int));
}


/// A blank column has no lit row.
pub proof fn lemma_blank_column()
    ensures
        column_bits(0) == Seq::new(8, |y: int| false),
{
    assert forall|y: int| 0 <= y < 8 implies column_bits(0)[y] == false by {
        let sh = (7 - y) as u8;
        assert(0u8 & (1u8 << sh) == 0u8) by (bit_vector);
    }
    assert(column_bits(0) =~= Seq::new(8, |y: int| false));
}

/// While a text scrolls, each screen column that the text has reached shows
/// the text column that arrived there, or is blank once the text has slid
/// past it; the columns not yet reached show what they showed before.
pub proof fn lemma_scroll_screen(scr: Seq<Seq<bool>>, columns: Seq<u8>, n: nat)
    ensures
        frames(scr, columns, n).len() == scr.len(),
        forall|p: int| 0 <= p < scr.len() ==> #[trigger] frames(scr, columns, n)[p] == if p < n {
            if n - 1 - p < columns.len() {
                column_bits(columns[n - 1 - p])
            } else {
                column_bits(0)
            }
        } else {
            scr[p]
        },
    decreases n,
{
    if n > 0 {
        lemma_scroll_screen(scr, columns, (n - 1) as nat);
    }
}

/// Once every frame of a scroll has been drawn, the text has slid entirely
/// past and the whole screen is dark, whatever it showed at the start.
pub proof fn lemma_scroll_ends_blank(devices: Seq<HT16K33>, columns: Seq<u8>)
    ensures
        ({
            let last = frames(screen(devices), columns, frame_count(columns, devices.len()));
            &&& last.len() == 8 * devices.len()
            &&& forall|p: int| 0 <= p < last.len() ==> #[trigger] last[p] == Seq::new(8, |y: int| false)
        }),
{
    lemma_scroll_screen(screen(devices), columns, frame_count(columns, devices.len()));
    lemma_blank_column();
}


/// The steps of flashing a display on and off: for each duration, whether
/// the display is lit during it (lit first, then alternating) and how long.
pub fn flash_steps(durations: &[u64]) -> (res: Vec<(bool, u64)>)
    ensures
        res@.len() == durations@.len(),
        forall|i: int| 0 <= i < durations@.len() ==> #[trigger] res@[i] == (i % 2 == 0, durations@[i]),
{
    let mut res: Vec<(bool, u64)> = Vec::new();
    let mut is_on = false;
    let mut i: usize = 0;
    while i < durations.len()
        invariant
            i <= durations@.len(),
            res@.len() == i,
            is_on == (i % 2 == 1),
            forall|j: int| 0 <= j < i ==> #[trigger] res@[j] == (j % 2 == 0, durations@[j]),
        decreases durations@.len() - i,
    {
        // A lit display is cleared and a dark one lit.
        res.push((!is_on, durations[i]));
        is_on = !is_on;
        i = i + 1;
    }
    res
}

} // verus!
