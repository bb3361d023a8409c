//! A fixed-size rectangular grid of cells stored in row-major order,
//! with the two composition algorithms: `merge`, which places another
//! buffer at a linear position and returns a fresh copy, and `push`,
//! which overlays another buffer in place at the origin that buffer
//! carries.
use vstd::prelude::*;

use crate::character::Character;

verus! {

use vstd::arithmetic::div_mod::lemma_fundamental_div_mod_converse_div;
use vstd::arithmetic::div_mod::lemma_fundamental_div_mod_converse_mod;

/// Returned when a sub-buffer would extend past its target's edge.
#[derive(Debug, PartialEq, Eq, Structural)]
pub struct BufferMergeError;

/// A `width` x `height` grid of cells. The cell at column `x`, row `y`
/// lives at linear index `y * width + x`. The origin `x`, `y` is the
/// buffer's intended screen offset and is read only by `push`.
pub struct Buffer {
    pub width: u16,
    pub height: u16,
    pub x: u16,
    pub y: u16,
    pub characters: Vec<Character>,
}

impl View for Buffer {
    type V = Seq<Character>;

    open spec fn view(&self) -> Seq<Character> {
        self.characters@
    }
}

/// The cell at linear index `i` after the first `k` cells of `sub`
/// (in row-major order) have been overlaid on `base` at column `xo`,
/// row `yo`. `bw` is the base's width and `sw` the sub-buffer's.
pub open spec fn overlay_partial(
    base: Seq<Character>,
    bw: int,
    sub: Seq<Character>,
    sw: int,
    xo: int,
    yo: int,
    k: int,
    i: int,
) -> Character {
    let x = i % bw;
    let y = i / bw;
    if xo <= x < xo + sw && yo <= y && (y - yo) * sw + (x - xo) < k {
        sub[(y - yo) * sw + (x - xo)]
    } else {
        base[i]
    }
}

/// The cell at linear index `i` after all of `sub` has been overlaid on
/// `base` at column `xo`, row `yo`.
pub open spec fn overlay(
    base: Seq<Character>,
    bw: int,
    sub: Seq<Character>,
    sw: int,
    xo: int,
    yo: int,
    i: int,
) -> Character {
    overlay_partial(base, bw, sub, sw, xo, yo, sub.len() as int, i)
}

/// `base` with `chars` overlaid linearly from index `pos` on; whatever
/// would land past the end of `base` is dropped.
pub open spec fn write_clipped(base: Seq<Character>, pos: int, chars: Seq<Character>) -> Seq<
    Character,
> {
    Seq::new(
        base.len(),
        |i: int|
            if pos <= i < pos + chars.len() {
                chars[i - pos]
            } else {
                base[i]
            },
    )
}

impl Buffer {
    /// The storage always holds exactly `width * height` cells.
    pub open spec fn wf(self) -> bool {
        self@.len() == self.width as int * self.height as int
    }

    /// The x offset implied by a linear position.
    pub open spec fn x_offset_of(self, pos: int) -> int {
        pos % (self.width as int)
    }

    /// The y offset implied by a linear position.
    pub open spec fn y_offset_of(self, pos: int) -> int {
        pos / (self.width as int)
    }

    /// Whether `other`, placed at the offset implied by `pos`, stays
    /// inside this buffer.
    pub open spec fn merge_fits(self, pos: int, other: Buffer) -> bool {
        &&& self.x_offset_of(pos) + other.width <= self.width
        &&& self.y_offset_of(pos) + other.height <= self.height
    }

    /// Whether `other`, placed at the origin it carries, stays inside
    /// this buffer.
    pub open spec fn push_fits(self, other: Buffer) -> bool {
        &&& other.x + other.width <= self.width
        &&& other.y + other.height <= self.height
    }

    /// A `width` x `height` grid of blank cells at origin (0, 0). A
    /// zero-area buffer is legal and simply has no cells; the area
    /// `width * height` always fits a `usize`, so construction cannot
    /// fail.
    pub fn new(width: u16, height: u16) -> (b: Buffer)
        ensures
            b.wf(),
            b.width == width,
            b.height == height,
            b.x == 0,
            b.y == 0,
            forall|i: int| 0 <= i < b@.len() ==> b@[i] == Character::blank_spec(),
    {
        proof {
            assert((width as int) * (height as int) < 0x1_0000_0000) by (nonlinear_arith)
                requires
                    width <= 0xFFFF,
                    height <= 0xFFFF,
            ;
        }
        let area: usize = (width as usize) * (height as usize);
        let mut chars: Vec<Character> = Vec::new();
        for j in 0..area
            invariant
                chars@.len() == j,
                forall|i: int| 0 <= i < j ==> chars@[i] == Character::blank_spec(),
        {
            chars.push(Character::blank());
        }
        Buffer { width, height, x: 0, y: 0, characters: chars }
    }

    /// The number of cells.
    pub fn len(&self) -> (l: usize)
        ensures
            l == self@.len(),
    {
        self.characters.len()
    }

    /// The cell at linear index `i`. An out-of-range index is a caller
    /// error, not a recoverable condition.
    pub fn get(&self, i: usize) -> (c: Character)
        requires
            i < self@.len(),
        ensures
            c == self@[i as int],
    {
        self.characters[i]
    }

    /// Overwrites the cell at linear index `i`. An out-of-range index is
    /// a caller error, not a recoverable condition.
    pub fn set(&mut self, i: usize, c: Character)
        requires
            i < old(self)@.len(),
        ensures
            final(self)@ == old(self)@.update(i as int, c),
            final(self).width == old(self).width,
            final(self).height == old(self).height,
            final(self).x == old(self).x,
            final(self).y == old(self).y,
    {
        self.characters.set(i, c);
    }

    /// Moves the buffer's intended screen origin, leaving the cells as
    /// they are.
    pub fn move_to(&mut self, new_x: u16, new_y: u16)
        ensures
            *final(self) == (Buffer { x: new_x, y: new_y, ..*old(self) }),
    {
        self.x = new_x;
        self.y = new_y;
    }

    /// Overwrites the cells starting at `position` with `chars`, one to
    /// one. The caller guarantees the slice fits; cells outside the
    /// written range keep their value.
    pub fn insert_char_slice(&mut self, position: usize, chars: &Vec<Character>)
        requires
            position + chars@.len() <= old(self)@.len(),
        ensures
            final(self)@.len() == old(self)@.len(),
            forall|i: int|
                position <= i < position + chars@.len() ==> final(self)@[i] == chars@[
                    i - position
                ],
            forall|i: int|
                0 <= i < final(self)@.len() && !(position <= i < position + chars@.len())
                    ==> final(self)@[i] == old(self)@[i],
            final(self).width == old(self).width,
            final(self).height == old(self).height,
            final(self).x == old(self).x,
            final(self).y == old(self).y,
    {
        let n: usize = chars.len();
        let total: usize = self.characters.len();
        for j in 0..n
            invariant
                n == chars@.len(),
                position + n <= total,
                total == self@.len(),
                self@.len() == old(self)@.len(),
                self.width == old(self).width,
                self.height == old(self).height,
                self.x == old(self).x,
                self.y == old(self).y,
                forall|i: int| position <= i < position + j ==> self@[i] == chars@[i - position],
                forall|i: int|
                    0 <= i < self@.len() && !(position <= i < position + j) ==> self@[i] == old(
                        self,
                    )@[i],
        {
            let target: usize = position + j;
            if self.characters[target] != chars[j] {
                self.characters.set(target, chars[j]);
            }
        }
    }

    /// Resets every cell to the blank cell, keeping dimensions and
    /// origin.
    pub fn clear(&mut self)
        ensures
            final(self)@.len() == old(self)@.len(),
            forall|i: int| 0 <= i < final(self)@.len() ==> final(self)@[i] == Character::blank_spec(),
            final(self).width == old(self).width,
            final(self).height == old(self).height,
            final(self).x == old(self).x,
            final(self).y == old(self).y,
    {
        let total: usize = self.characters.len();
        for j in 0..total
            invariant
                total == self@.len(),
                self@.len() == old(self)@.len(),
                self.width == old(self).width,
                self.height == old(self).height,
                self.x == old(self).x,
                self.y == old(self).y,
                forall|i: int| 0 <= i < j ==> self@[i] == Character::blank_spec(),
        {
            self.characters.set(j, Character::blank());
        }
    }

    /// Overwrites the cells starting at `position` with `chars`, one to
    /// one, silently dropping whatever would land past the last cell.
    pub fn insert_char_slice_clipped(&mut self, position: usize, chars: &Vec<Character>)
        ensures
            final(self)@ == write_clipped(old(self)@, position as int, chars@),
            final(self)@.len() == old(self)@.len(),
            final(self).width == old(self).width,
            final(self).height == old(self).height,
            final(self).x == old(self).x,
            final(self).y == old(self).y,
    {
        let total: usize = self.characters.len();
        if position >= total {
            proof {
                assert(self@ =~= write_clipped(self@, position as int, chars@));
            }
            return ;
        }
        let room: usize = total - position;
        let n: usize = chars.len();
        let m: usize = if n < room {
            n
        } else {
            room
        };
        for j in 0..m
            invariant
                m <= chars@.len(),
                position + m <= total,
                total == self@.len(),
                self@.len() == old(self)@.len(),
                self.width == old(self).width,
                self.height == old(self).height,
                self.x == old(self).x,
                self.y == old(self).y,
                forall|i: int| position <= i < position + j ==> self@[i] == chars@[i - position],
                forall|i: int|
                    0 <= i < self@.len() && !(position <= i < position + j) ==> self@[i] == old(
                        self,
                    )@[i],
        {
            self.characters.set(position + j, chars[j]);
        }
        proof {
            assert(self@ =~= write_clipped(old(self)@, position as int, chars@));
        }
    }

    /// Returns a fresh copy of this buffer with every cell of `other`
    /// written at the offset implied by `position_to_insert`
    /// (`position mod width`, `position div width`). Fails, leaving both
    /// buffers untouched, exactly when `other` would extend past this
    /// buffer's width or height.
    pub fn merge(&self, position_to_insert: usize, other: &Buffer) -> (r: Result<
        Buffer,
        BufferMergeError,
    >)
        requires
            self.wf(),
            other.wf(),
            self.width > 0,
        ensures
            r is Ok <==> self.merge_fits(position_to_insert as int, *other),
            r matches Ok(nb) ==> {
                &&& nb.wf()
                &&& nb.width == self.width
                &&& nb.height == self.height
                &&& nb.x == self.x
                &&& nb.y == self.y
                &&& nb@.len() == self@.len()
                &&& forall|i: int|
                    0 <= i < nb@.len() ==> nb@[i] == overlay(
                        self@,
                        self.width as int,
                        other@,
                        other.width as int,
                        self.x_offset_of(position_to_insert as int),
                        self.y_offset_of(position_to_insert as int),
                        i,
                    )
            },
    {
        let x_offset: usize = position_to_insert % (self.width as usize);
        let y_offset: usize = position_to_insert / (self.width as usize);

        if x_offset + (other.width as usize) > (self.width as usize) {
            return Result::Err(BufferMergeError);
        }
        // tested this way round so that a huge position cannot overflow
        if (other.height as usize) > (self.height as usize) || y_offset > (self.height as usize)
            - (other.height as usize) {
            return Result::Err(BufferMergeError);
        }

        let mut new_buff = self.clone();
        new_buff.overlay_cells(other, x_offset, y_offset);
        Result::Ok(new_buff)
    }

    /// Overlays `other` in place at the origin carried by `other` and
    /// reports success; fails, leaving this buffer untouched, exactly
    /// when `other` would extend past this buffer's width or height.
    pub fn push(&mut self, other: &Buffer) -> (ok: bool)
        requires
            old(self).wf(),
            other.wf(),
        ensures
            ok <==> old(self).push_fits(*other),
            final(self).wf(),
            final(self).width == old(self).width,
            final(self).height == old(self).height,
            final(self).x == old(self).x,
            final(self).y == old(self).y,
            !ok ==> *final(self) == *old(self),
            ok ==> forall|i: int|
                0 <= i < final(self)@.len() ==> final(self)@[i] == overlay(
                    old(self)@,
                    old(self).width as int,
                    other@,
                    other.width as int,
                    other.x as int,
                    other.y as int,
                    i,
                ),
    {
        if (other.x as usize) + (other.width as usize) > (self.width as usize) {
            return false;
        }
        if (other.y as usize) + (other.height as usize) > (self.height as usize) {
            return false;
        }
        self.overlay_cells(other, other.x as usize, other.y as usize);
        true
    }

    /// Writes every cell of `other` into this buffer at column
    /// `x_offset`, row `y_offset`; the shared core of `merge` and
    /// `push`.
    fn overlay_cells(&mut self, other: &Buffer, x_offset: usize, y_offset: usize)
        requires
            old(self).wf(),
            other.wf(),
            x_offset + other.width <= old(self).width,
            y_offset + other.height <= old(self).height,
        ensures
            final(self).wf(),
            final(self).width == old(self).width,
            final(self).height == old(self).height,
            final(self).x == old(self).x,
            final(self).y == old(self).y,
            forall|i: int|
                0 <= i < final(self)@.len() ==> final(self)@[i] == overlay(
                    old(self)@,
                    old(self).width as int,
                    other@,
                    other.width as int,
                    x_offset as int,
                    y_offset as int,
                    i,
                ),
    {
        let ow: usize = other.width as usize;
        let oh: usize = other.height as usize;
        let w: usize = self.width as usize;
        let count: usize = other.len();

        proof {
            assert(count == ow * oh);
        }

        for j in 0..count
            invariant
                self.wf(),
                other.wf(),
                count == other@.len(),
                count == ow * oh,
                ow == other.width,
                oh == other.height,
                w == self.width,
                x_offset + ow <= w,
                y_offset + oh <= self.height,
                self@.len() == old(self)@.len(),
                self.width == old(self).width,
                self.height == old(self).height,
                self.x == old(self).x,
                self.y == old(self).y,
                forall|i: int|
                    0 <= i < self@.len() ==> self@[i] == overlay_partial(
                        old(self)@,
                        w as int,
                        other@,
                        ow as int,
                        x_offset as int,
                        y_offset as int,
                        j as int,
                        i,
                    ),
        {
            proof {
                assert(ow > 0) by {
                    if ow == 0 {
                        assert(count == 0) by (nonlinear_arith)
                            requires
                                count == ow * oh,
                                ow == 0,
                        ;
                    }
                }
                assert(j / ow < oh) by (nonlinear_arith)
                    requires
                        0 < ow,
                        0 <= j,
                        j < ow * oh,
                ;
            }
            let row: usize = j / ow;
            let col: usize = j % ow;
            let this_x: usize = x_offset + col;
            let this_y: usize = y_offset + row;
            proof {
                assert(this_y * w + this_x < self.width as int * self.height as int)
                    by (nonlinear_arith)
                    requires
                        this_y < self.height,
                        this_x < w,
                        w == self.width,
                        0 < w,
                ;
                assert((self.width as int) * (self.height as int) < 0x1_0000_0000)
                    by (nonlinear_arith)
                    requires
                        self.width <= 0xFFFF,
                        self.height <= 0xFFFF,
                ;
            }
            let this_pos: usize = this_y * w + this_x;
            let cell = other.get(j);
            self.set(this_pos, cell);
            proof {
                let wi = w as int;
                let owi = ow as int;
                let ji = j as int;
                let xoi = x_offset as int;
                let yoi = y_offset as int;
                let tx = this_x as int;
                let ty = this_y as int;
                let tp = this_pos as int;
                vstd::arithmetic::div_mod::lemma_fundamental_div_mod(ji, owi);
                assert(ji == owi * (ji / owi) + ji % owi);
                assert(row as int == ji / owi);
                assert(col as int == ji % owi);
                assert(tp == ty * wi + tx);
                vstd::arithmetic::div_mod::lemma_fundamental_div_mod_converse_mod(tp, wi, ty, tx);
                vstd::arithmetic::div_mod::lemma_fundamental_div_mod_converse_div(tp, wi, ty, tx);
                assert(tp % wi == tx);
                assert(tp / wi == ty);
                assert((ty - yoi) * owi + (tx - xoi) == ji) by {
                    assert(ty - yoi == ji / owi);
                    assert(tx - xoi == ji % owi);
                    assert((ji / owi) * owi == owi * (ji / owi)) by (nonlinear_arith);
                }
                assert forall|i: int| 0 <= i < self@.len() implies self@[i] == overlay_partial(
                    old(self)@,
                    wi,
                    other@,
                    owi,
                    xoi,
                    yoi,
                    ji + 1,
                    i,
                ) by {
                    let x = i % wi;
                    let y = i / wi;
                    vstd::arithmetic::div_mod::lemma_fundamental_div_mod(i, wi);
                    if i == tp {
                        assert(x == tx);
                        assert(y == ty);
                        assert((y - yoi) * owi + (x - xoi) == ji);
                        assert(self@[i] == other@[ji]);
                    } else {
                        if xoi <= x < xoi + owi && yoi <= y && (y - yoi) * owi + (x - xoi) == ji {
                            // the rank `j` pins down the row and column, and with
                            // them the linear index, so this case is impossible
                            vstd::arithmetic::div_mod::lemma_fundamental_div_mod_converse_mod(
                                ji,
                                owi,
                                y - yoi,
                                x - xoi,
                            );
                            vstd::arithmetic::div_mod::lemma_fundamental_div_mod_converse_div(
                                ji,
                                owi,
                                y - yoi,
                                x - xoi,
                            );
                            assert(x - xoi == ji % owi);
                            assert(y - yoi == ji / owi);
                            assert(x == tx);
                            assert(y == ty);
                            assert(i == wi * y + x);
                            assert(wi * y == y * wi) by (nonlinear_arith);
                            assert(i == tp);
                        }
                    }
                }
            }
        }
        proof {
            assert forall|i: int| 0 <= i < self@.len() implies self@[i] == overlay(
                old(self)@,
                w as int,
                other@,
                ow as int,
                x_offset as int,
                y_offset as int,
                i,
            ) by {
                let wi = w as int;
                let owi = ow as int;
                let x = i % wi;
                let y = i / wi;
                if x_offset <= x < x_offset + owi && y_offset as int <= y {
                    assert((y - y_offset) * owi + (x - x_offset) < count <==> (y - y_offset) * owi
                        + (x - x_offset) < owi * (oh as int)) by {
                        assert(count == owi * oh);
                    }
                }
            }
        }
    }
}

/// Round-trip: a cell written with `set(i, c)` and read back with
/// `get(i)` is exactly `c`, by the cell's exact-equality rule; every
/// other cell reads as before.
pub proof fn lemma_set_get_round_trip(b: Buffer, i: int, c: Character)
    requires
        0 <= i < b@.len(),
    ensures
        b@.update(i, c)[i] == c,
        forall|j: int| 0 <= j < b@.len() && j != i ==> b@.update(i, c)[j] == b@[j],
{
}

/// The law behind `merge` and `push`, read cell by cell: when a
/// sub-buffer `b` fully contained in `a` at offset (`xo`, `yo`) is
/// overlaid, every cell of the result outside `b`'s footprint keeps
/// `a`'s value, and the cell at column `xo + bx`, row `yo + by` holds
/// `b`'s cell (`bx`, `by`). (`a` itself is never modified: `merge`
/// takes it by shared reference and returns a fresh copy.)
pub proof fn lemma_overlay_cells(a: Buffer, b: Buffer, xo: int, yo: int, m: Seq<Character>)
    requires
        a.wf(),
        b.wf(),
        a.width > 0,
        0 <= xo,
        0 <= yo,
        xo + b.width <= a.width,
        yo + b.height <= a.height,
        m.len() == a@.len(),
        forall|i: int|
            0 <= i < m.len() ==> m[i] == overlay(
                a@,
                a.width as int,
                b@,
                b.width as int,
                xo,
                yo,
                i,
            ),
    ensures
        forall|x: int, y: int|
            0 <= x < a.width && 0 <= y < a.height && !(xo <= x < xo + b.width && yo <= y < yo
                + b.height) ==> #[trigger] m[y * (a.width as int) + x] == a@[y * (a.width as int)
                + x],
        forall|bx: int, by: int|
            0 <= bx < b.width && 0 <= by < b.height ==> #[trigger] m[(yo + by) * (a.width as int)
                + (xo + bx)] == b@[by * (b.width as int) + bx],
{
    let w = a.width as int;
    let bw = b.width as int;
    let bh = b.height as int;
    assert forall|x: int, y: int|
        0 <= x < a.width && 0 <= y < a.height && !(xo <= x < xo + bw && yo <= y < yo
            + bh) implies #[trigger] m[y * w + x] == a@[y * w + x] by {
        let i = y * w + x;
        assert(0 <= i < a.width as int * a.height as int) by (nonlinear_arith)
            requires
                i == y * w + x,
                0 <= x < w,
                0 <= y < a.height,
                w == a.width,
        ;
        lemma_fundamental_div_mod_converse_mod(i, w, y, x);
        lemma_fundamental_div_mod_converse_div(i, w, y, x);
        if xo <= x < xo + bw && yo <= y {
            // the cell lies below the footprint, so its rank is past the end
            assert((y - yo) * bw + (x - xo) >= bw * bh) by (nonlinear_arith)
                requires
                    y - yo >= bh,
                    x - xo >= 0,
                    bw > 0,
                    bh >= 0,
            ;
            assert(b@.len() == bw * bh);
        }
    }
    assert forall|bx: int, by: int| 0 <= bx < b.width && 0 <= by < b.height implies #[trigger] m[(yo
        + by) * w + (xo + bx)] == b@[by * bw + bx] by {
        let x = xo + bx;
        let y = yo + by;
        let i = y * w + x;
        assert(0 <= i < a.width as int * a.height as int) by (nonlinear_arith)
            requires
                i == y * w + x,
                0 <= x < w,
                0 <= y < a.height,
                w == a.width,
        ;
        lemma_fundamental_div_mod_converse_mod(i, w, y, x);
        lemma_fundamental_div_mod_converse_div(i, w, y, x);
        assert((y - yo) * bw + (x - xo) == by * bw + bx);
        assert(by * bw + bx < bw * bh) by (nonlinear_arith)
            requires
                0 <= bx < bw,
                0 <= by < bh,
        ;
        assert(b@.len() == bw * bh);
    }
}

/// The composition law in `merge`'s own terms: for buffers `a` and
/// `b` with `b` fully contained within `a` at offset (`ox`, `oy`),
/// merging at linear position `oy * width + ox` yields cells `m` that
/// keep `a`'s value outside `b`'s footprint and hold every cell of `b`
/// at its offset position. (`a` itself is unmodified by `merge`, which
/// takes it by shared reference and returns a fresh copy.)
pub proof fn lemma_merge_cells(a: Buffer, ox: int, oy: int, b: Buffer, m: Seq<Character>)
    requires
        a.wf(),
        b.wf(),
        a.width > 0,
        0 <= ox < a.width,
        0 <= oy,
        ox + b.width <= a.width,
        oy + b.height <= a.height,
        m.len() == a@.len(),
        forall|i: int|
            0 <= i < m.len() ==> m[i] == overlay(
                a@,
                a.width as int,
                b@,
                b.width as int,
                a.x_offset_of(oy * (a.width as int) + ox),
                a.y_offset_of(oy * (a.width as int) + ox),
                i,
            ),
    ensures
        a.merge_fits(oy * (a.width as int) + ox, b),
        forall|x: int, y: int|
            0 <= x < a.width && 0 <= y < a.height && !(ox <= x < ox + b.width && oy <= y < oy
                + b.height) ==> #[trigger] m[y * (a.width as int) + x] == a@[y * (a.width as int)
                + x],
        forall|bx: int, by: int|
            0 <= bx < b.width && 0 <= by < b.height ==> #[trigger] m[(oy + by) * (a.width as int)
                + (ox + bx)] == b@[by * (b.width as int) + bx],
{
    let w = a.width as int;
    lemma_fundamental_div_mod_converse_mod(oy * w + ox, w, oy, ox);
    lemma_fundamental_div_mod_converse_div(oy * w + ox, w, oy, ox);
    lemma_overlay_cells(a, b, ox, oy, m);
}

impl Clone for Buffer {
    /// A full, independent copy: same dimensions, same origin, same
    /// cells.
    fn clone(&self) -> (r: Buffer)
        ensures
            r@ == self@,
            r.width == self.width,
            r.height == self.height,
            r.x == self.x,
            r.y == self.y,
    {
        let r = Buffer {
            width: self.width,
            height: self.height,
            x: self.x,
            y: self.y,
            characters: self.characters.clone(),
        };
        proof {
            assert(r.characters@ =~= self.characters@);
        }
        r
    }
}

} // verus!
