use vstd::arithmetic::div_mod::{
    lemma_add_mod_noop_right, lemma_mod_bound, lemma_small_mod, lemma_sub_mod_noop,
    lemma_sub_mod_noop_right,
};
use vstd::prelude::*;
use crate::display::{pixel_index, DISPLAY_HEIGHT, DISPLAY_WIDTH};
use crate::machine::{flag, flipped, sprite_bit, Machine, FLAG, REGISTER_COUNT};

verus! {

/// The sprite pixel that a draw of `n` rows at `(Vx, Vy)` lays on the screen
/// pixel in column `c` of row `r`; 0 where the sprite does not reach.
pub open spec fn sprite_pixel_at(m: Machine, x: int, y: int, n: nat, c: int, r: int) -> u8 {
    let row = (r - m.v[y]) % (DISPLAY_HEIGHT as int);
    let bit = (c - m.v[x]) % (DISPLAY_WIDTH as int);
    if row < n && bit < 8 {
        sprite_bit(m.memory[m.index + row], bit)
    } else {
        0
    }
}

/// Whether a draw of `n` rows at `(Vx, Vy)` lays a lit sprite pixel on the
/// screen pixel in column `c` of row `r`, and that pixel holds `screen_pixel`.
pub open spec fn lit_on(
    m: Machine,
    x: int,
    y: int,
    n: nat,
    c: int,
    r: int,
    screen_pixel: u8,
) -> bool {
    &&& 0 <= c < DISPLAY_WIDTH
    &&& 0 <= r < DISPLAY_HEIGHT
    &&& m.pixels[pixel_index(c, r)] == screen_pixel
    &&& sprite_pixel_at(m, x, y, n, c, r) == 1
}

/// Whether a draw of `n` rows at `(Vx, Vy)` lays a lit sprite pixel on a lit
/// screen pixel.
pub open spec fn collides(m: Machine, x: int, y: int, n: nat) -> bool {
    exists|c: int, r: int| lit_on(m, x, y, n, c, r, 1)
}

/// Going `k` places on from `a` round a ring of `d` places, and then asking
/// how far on from `a` that is, gives `k` back; and the other way round.
proof fn lemma_wrap(a: int, k: int, d: int)
    requires
        0 <= k < d,
    ensures
        0 <= (a + k) % d < d,
        0 <= (k - a) % d < d,
        ((a + k) % d - a) % d == k,
        (a + (k - a) % d) % d == k,
{
    lemma_mod_bound(a + k, d);
    lemma_mod_bound(k - a, d);
    lemma_small_mod(k as nat, d as nat);
    lemma_sub_mod_noop(a + k, a, d);
    lemma_sub_mod_noop_right((a + k) % d, a, d);
    lemma_add_mod_noop_right(a, k - a, d);
}

/// `lemma_wrap` for the columns of the screen.
proof fn lemma_wrap_columns(a: int, k: int)
    requires
        0 <= k < DISPLAY_WIDTH,
    ensures
        0 <= (a + k) % (DISPLAY_WIDTH as int) < DISPLAY_WIDTH,
        0 <= (k - a) % (DISPLAY_WIDTH as int) < DISPLAY_WIDTH,
        ((a + k) % (DISPLAY_WIDTH as int) - a) % (DISPLAY_WIDTH as int) == k,
        (a + (k - a) % (DISPLAY_WIDTH as int)) % (DISPLAY_WIDTH as int) == k,
{
    lemma_wrap(a, k, DISPLAY_WIDTH as int);
}

/// `lemma_wrap` for the rows of the screen.
proof fn lemma_wrap_rows(a: int, k: int)
    requires
        0 <= k < DISPLAY_HEIGHT,
    ensures
        0 <= (a + k) % (DISPLAY_HEIGHT as int) < DISPLAY_HEIGHT,
        0 <= (k - a) % (DISPLAY_HEIGHT as int) < DISPLAY_HEIGHT,
        ((a + k) % (DISPLAY_HEIGHT as int) - a) % (DISPLAY_HEIGHT as int) == k,
        (a + (k - a) % (DISPLAY_HEIGHT as int)) % (DISPLAY_HEIGHT as int) == k,
{
    lemma_wrap(a, k, DISPLAY_HEIGHT as int);
}

/// The sprite pixel that the first `bits` pixels of the sprite row `row`,
/// laid on screen row `y_pos` from column `x_pos` on, put on the screen
/// pixel in column `c` of row `r`; 0 where they do not reach.
spec fn row_pixel_at(x_pos: int, y_pos: int, row: u8, bits: nat, c: int, r: int) -> u8 {
    let bit = (c - x_pos) % (DISPLAY_WIDTH as int);
    if r == y_pos && bit < bits {
        sprite_bit(row, bit)
    } else {
        0
    }
}

/// Whether one of the first `bits` pixels of the sprite row `row`, laid on
/// screen row `y_pos` from column `x_pos` on, is lit and falls on a lit pixel.
spec fn bits_collide(pixels: Seq<u8>, x_pos: int, y_pos: int, row: u8, bits: nat) -> bool
    decreases bits,
{
    bits > 0 && (bits_collide(pixels, x_pos, y_pos, row, (bits - 1) as nat) || (sprite_bit(
        row,
        bits - 1,
    ) == 1 && pixels[pixel_index((x_pos + (bits - 1)) % (DISPLAY_WIDTH as int), y_pos)] == 1))
}

/// Whether one of the first `rows` rows of the sprite collides.
spec fn rows_collide(m: Machine, x: int, y: int, rows: nat) -> bool
    decreases rows,
{
    rows > 0 && (rows_collide(m, x, y, (rows - 1) as nat) || bits_collide(
        m.pixels,
        m.v[x] as int,
        (m.v[y] + (rows - 1)) % (DISPLAY_HEIGHT as int),
        m.memory[m.index + (rows - 1)],
        8,
    ))
}

/// Laying part of a sprite row touches only the screen, the change flag and
/// the flag register, and leaves the machine well formed.
pub proof fn lemma_draw_bits_shape(s: Machine, x: int, y_pos: int, row: u8, bits: nat)
    requires
        s.wf(),
        0 <= x < REGISTER_COUNT,
        0 <= y_pos < DISPLAY_HEIGHT,
    ensures
        ({
            let t = s.draw_bits(x, y_pos, row, bits);
            &&& t.wf()
            &&& t == (Machine { v: t.v, pixels: t.pixels, changed: t.changed, ..s })
            &&& t.changed == (s.changed || bits > 0)
            &&& forall|i: int| 0 <= i < REGISTER_COUNT && i != FLAG ==> t.v[i] == s.v[i]
        }),
    decreases bits,
{
    if bits > 0 {
        lemma_draw_bits_shape(s, x, y_pos, row, (bits - 1) as nat);
    }
}

/// What the first `bits` pixels of a sprite row do to the screen: each
/// screen pixel is flipped by the sprite pixel that falls on it.
proof fn lemma_draw_bits_screen(s: Machine, x: int, y_pos: int, row: u8, bits: nat)
    requires
        s.wf(),
        0 <= x < FLAG,
        0 <= y_pos < DISPLAY_HEIGHT,
        bits <= 8,
    ensures
        forall|c: int, r: int|
            0 <= c < DISPLAY_WIDTH && 0 <= r < DISPLAY_HEIGHT ==> #[trigger] s.draw_bits(
                x,
                y_pos,
                row,
                bits,
            ).pixels[pixel_index(c, r)] == flipped(
                s.pixels[pixel_index(c, r)],
                row_pixel_at(s.v[x] as int, y_pos, row, bits, c, r),
            ),
    decreases bits,
{
    if bits > 0 {
        let k = (bits - 1) as nat;
        let before = s.draw_bits(x, y_pos, row, k);
        let t = s.draw_bits(x, y_pos, row, bits);
        lemma_draw_bits_screen(s, x, y_pos, row, k);
        lemma_draw_bits_shape(s, x, y_pos, row, k);
        let x_val = s.v[x] as int;
        let x_pos = (x_val + k) % (DISPLAY_WIDTH as int);
        let at = pixel_index(x_pos, y_pos);
        lemma_wrap_columns(x_val, k as int);
        assert(before.v[x] == s.v[x]);
        assert(t.pixels == before.pixels.update(
            at,
            flipped(before.pixels[at], sprite_bit(row, k as int)),
        ));
        assert(row_pixel_at(x_val, y_pos, row, k, x_pos, y_pos) == 0);
        assert(before.pixels[at] == s.pixels[at]);
        assert forall|c: int, r: int|
            0 <= c < DISPLAY_WIDTH && 0 <= r < DISPLAY_HEIGHT implies #[trigger] t.pixels[pixel_index(
            c,
            r,
        )] == flipped(s.pixels[pixel_index(c, r)], row_pixel_at(x_val, y_pos, row, bits, c, r)) by {
            let here = pixel_index(c, r);
            assert(before.pixels[here] == flipped(
                s.pixels[here],
                row_pixel_at(x_val, y_pos, row, k, c, r),
            ));
            lemma_wrap_columns(x_val, c);
            if c == x_pos && r == y_pos {
                assert(row_pixel_at(x_val, y_pos, row, bits, c, r) == sprite_bit(row, k as int));
            } else {
                assert(here != at);
                assert(t.pixels[here] == before.pixels[here]);
                assert(row_pixel_at(x_val, y_pos, row, bits, c, r) == row_pixel_at(
                    x_val,
                    y_pos,
                    row,
                    k,
                    c,
                    r,
                ));
            }
        }
    }
}

/// What the first `bits` pixels of a sprite row do to the flag register: it
/// goes up if one of them collides and is left alone otherwise.
proof fn lemma_draw_bits_flag(s: Machine, x: int, y_pos: int, row: u8, bits: nat)
    requires
        s.wf(),
        0 <= x < FLAG,
        0 <= y_pos < DISPLAY_HEIGHT,
        bits <= 8,
    ensures
        s.draw_bits(x, y_pos, row, bits).v[FLAG as int] == if bits_collide(
            s.pixels,
            s.v[x] as int,
            y_pos,
            row,
            bits,
        ) {
            1
        } else {
            s.v[FLAG as int]
        },
    decreases bits,
{
    if bits > 0 {
        let k = (bits - 1) as nat;
        let before = s.draw_bits(x, y_pos, row, k);
        lemma_draw_bits_flag(s, x, y_pos, row, k);
        lemma_draw_bits_shape(s, x, y_pos, row, k);
        lemma_draw_bits_screen(s, x, y_pos, row, k);
        let x_val = s.v[x] as int;
        let x_pos = (x_val + k) % (DISPLAY_WIDTH as int);
        lemma_wrap_columns(x_val, k as int);
        assert(before.v[x] == s.v[x]);
        assert(row_pixel_at(x_val, y_pos, row, k, x_pos, y_pos) == 0);
        assert(before.pixels[pixel_index(x_pos, y_pos)] == s.pixels[pixel_index(x_pos, y_pos)]);
    }
}

/// Whether part of a sprite row collides depends only on the screen row it
/// is laid on.
proof fn lemma_bits_collide_same_row(
    p: Seq<u8>,
    q: Seq<u8>,
    x_pos: int,
    y_pos: int,
    row: u8,
    bits: nat,
)
    requires
        forall|c: int|
            0 <= c < DISPLAY_WIDTH ==> #[trigger] p[pixel_index(c, y_pos)] == q[pixel_index(
                c,
                y_pos,
            )],
    ensures
        bits_collide(p, x_pos, y_pos, row, bits) == bits_collide(q, x_pos, y_pos, row, bits),
    decreases bits,
{
    if bits > 0 {
        lemma_bits_collide_same_row(p, q, x_pos, y_pos, row, (bits - 1) as nat);
        let c = (x_pos + (bits - 1)) % (DISPLAY_WIDTH as int);
        assert(p[pixel_index(c, y_pos)] == q[pixel_index(c, y_pos)]);
    }
}

/// Drawing rows of a sprite touches only the screen, the change flag and the
/// flag register, and leaves the machine well formed.
pub proof fn lemma_draw_rows_shape(s: Machine, x: int, y: int, rows: nat)
    requires
        s.wf(),
        0 <= x < REGISTER_COUNT,
        0 <= y < REGISTER_COUNT,
    ensures
        ({
            let t = s.draw_rows(x, y, rows);
            &&& t.wf()
            &&& t == (Machine { v: t.v, pixels: t.pixels, changed: t.changed, ..s })
            &&& t.changed == (s.changed || rows > 0)
            &&& forall|i: int| 0 <= i < REGISTER_COUNT && i != FLAG ==> t.v[i] == s.v[i]
        }),
    decreases rows,
{
    if rows > 0 {
        let k = (rows - 1) as nat;
        let before = s.draw_rows(x, y, k);
        lemma_draw_rows_shape(s, x, y, k);
        lemma_draw_bits_shape(
            before,
            x,
            (before.v[y] + k) % (DISPLAY_HEIGHT as int),
            before.memory[before.index + k],
            8,
        );
    }
}

/// A further row of the sprite puts its pixels on one screen row and leaves
/// what the rows before it put on the others.
proof fn lemma_sprite_pixel_next_row(s: Machine, x: int, y: int, rows: nat, c: int, r: int)
    requires
        0 < rows <= DISPLAY_HEIGHT,
        0 <= c < DISPLAY_WIDTH,
        0 <= r < DISPLAY_HEIGHT,
    ensures
        ({
            let k = (rows - 1) as nat;
            let y_pos = (s.v[y] + k) % (DISPLAY_HEIGHT as int);
            let row = s.memory[s.index + k];
            &&& r == y_pos ==> sprite_pixel_at(s, x, y, k, c, r) == 0 && sprite_pixel_at(
                s,
                x,
                y,
                rows,
                c,
                r,
            ) == row_pixel_at(s.v[x] as int, y_pos, row, 8, c, r)
            &&& r != y_pos ==> sprite_pixel_at(s, x, y, rows, c, r) == sprite_pixel_at(
                s,
                x,
                y,
                k,
                c,
                r,
            ) && row_pixel_at(s.v[x] as int, y_pos, row, 8, c, r) == 0
        }),
{
    lemma_wrap_rows(s.v[y] as int, rows - 1);
    lemma_wrap_rows(s.v[y] as int, r);
}

/// What the first `rows` rows of a sprite do to the screen: each screen
/// pixel is flipped by the sprite pixel that falls on it.
proof fn lemma_draw_rows_screen(s: Machine, x: int, y: int, rows: nat)
    requires
        s.wf(),
        0 <= x < FLAG,
        0 <= y < FLAG,
        rows <= DISPLAY_HEIGHT,
    ensures
        forall|c: int, r: int|
            0 <= c < DISPLAY_WIDTH && 0 <= r < DISPLAY_HEIGHT ==> #[trigger] s.draw_rows(
                x,
                y,
                rows,
            ).pixels[pixel_index(c, r)] == flipped(
                s.pixels[pixel_index(c, r)],
                sprite_pixel_at(s, x, y, rows, c, r),
            ),
    decreases rows,
{
    if rows > 0 {
        let k = (rows - 1) as nat;
        let before = s.draw_rows(x, y, k);
        let t = s.draw_rows(x, y, rows);
        lemma_draw_rows_screen(s, x, y, k);
        lemma_draw_rows_shape(s, x, y, k);
        let y_pos = (s.v[y] + k) % (DISPLAY_HEIGHT as int);
        let row = s.memory[s.index + k];
        assert(before.v[y] == s.v[y] && before.v[x] == s.v[x]);
        assert(t == before.draw_bits(x, y_pos, row, 8));
        lemma_draw_bits_screen(before, x, y_pos, row, 8);
        assert forall|c: int, r: int|
            0 <= c < DISPLAY_WIDTH && 0 <= r < DISPLAY_HEIGHT implies #[trigger] t.pixels[pixel_index(
            c,
            r,
        )] == flipped(s.pixels[pixel_index(c, r)], sprite_pixel_at(s, x, y, rows, c, r)) by {
            let here = pixel_index(c, r);
            lemma_sprite_pixel_next_row(s, x, y, rows, c, r);
            assert(before.pixels[here] == flipped(
                s.pixels[here],
                sprite_pixel_at(s, x, y, k, c, r),
            ));
            assert(t.pixels[here] == flipped(
                before.pixels[here],
                row_pixel_at(s.v[x] as int, y_pos, row, 8, c, r),
            ));
        }
    }
}

/// What the first `rows` rows of a sprite do to the flag register of a
/// machine whose flag is down: it is up exactly if one of the rows collides.
proof fn lemma_draw_rows_flag(s: Machine, x: int, y: int, rows: nat)
    requires
        s.wf(),
        s.v[FLAG as int] == 0,
        0 <= x < FLAG,
        0 <= y < FLAG,
        rows <= DISPLAY_HEIGHT,
    ensures
        s.draw_rows(x, y, rows).v[FLAG as int] == flag(rows_collide(s, x, y, rows)),
    decreases rows,
{
    if rows > 0 {
        let k = (rows - 1) as nat;
        let before = s.draw_rows(x, y, k);
        lemma_draw_rows_flag(s, x, y, k);
        lemma_draw_rows_shape(s, x, y, k);
        lemma_draw_rows_screen(s, x, y, k);
        let y_pos = (s.v[y] + k) % (DISPLAY_HEIGHT as int);
        let row = s.memory[s.index + k];
        assert(before.v[y] == s.v[y] && before.v[x] == s.v[x]);
        assert(s.draw_rows(x, y, rows) == before.draw_bits(x, y_pos, row, 8));
        lemma_draw_bits_flag(before, x, y_pos, row, 8);
        assert forall|c: int| 0 <= c < DISPLAY_WIDTH implies #[trigger] before.pixels[pixel_index(
            c,
            y_pos,
        )] == s.pixels[pixel_index(c, y_pos)] by {
            lemma_sprite_pixel_next_row(s, x, y, rows, c, y_pos);
        }
        lemma_bits_collide_same_row(before.pixels, s.pixels, s.v[x] as int, y_pos, row, 8);
    }
}

/// A colliding part of a sprite row has a lit bit on a lit pixel.
proof fn lemma_bits_collide_witness(
    pixels: Seq<u8>,
    x_pos: int,
    y_pos: int,
    row: u8,
    bits: nat,
) -> (bit: int)
    requires
        bits_collide(pixels, x_pos, y_pos, row, bits),
    ensures
        0 <= bit < bits,
        sprite_bit(row, bit) == 1,
        pixels[pixel_index((x_pos + bit) % (DISPLAY_WIDTH as int), y_pos)] == 1,
    decreases bits,
{
    if bits_collide(pixels, x_pos, y_pos, row, (bits - 1) as nat) {
        lemma_bits_collide_witness(pixels, x_pos, y_pos, row, (bits - 1) as nat)
    } else {
        bits - 1
    }
}

/// A lit bit on a lit pixel makes the part of the row that holds it collide.
proof fn lemma_bits_collide_from(
    pixels: Seq<u8>,
    x_pos: int,
    y_pos: int,
    row: u8,
    bits: nat,
    bit: int,
)
    requires
        0 <= bit < bits,
        sprite_bit(row, bit) == 1,
        pixels[pixel_index((x_pos + bit) % (DISPLAY_WIDTH as int), y_pos)] == 1,
    ensures
        bits_collide(pixels, x_pos, y_pos, row, bits),
    decreases bits,
{
    if bit < bits - 1 {
        lemma_bits_collide_from(pixels, x_pos, y_pos, row, (bits - 1) as nat, bit);
    }
}

/// Colliding rows hold a row that collides.
proof fn lemma_rows_collide_witness(m: Machine, x: int, y: int, rows: nat) -> (row: int)
    requires
        rows_collide(m, x, y, rows),
    ensures
        0 <= row < rows,
        bits_collide(
            m.pixels,
            m.v[x] as int,
            (m.v[y] + row) % (DISPLAY_HEIGHT as int),
            m.memory[m.index + row],
            8,
        ),
    decreases rows,
{
    if rows_collide(m, x, y, (rows - 1) as nat) {
        lemma_rows_collide_witness(m, x, y, (rows - 1) as nat)
    } else {
        rows - 1
    }
}

/// A row that collides makes the rows that hold it collide.
proof fn lemma_rows_collide_from(m: Machine, x: int, y: int, rows: nat, row: int)
    requires
        0 <= row < rows,
        bits_collide(
            m.pixels,
            m.v[x] as int,
            (m.v[y] + row) % (DISPLAY_HEIGHT as int),
            m.memory[m.index + row],
            8,
        ),
    ensures
        rows_collide(m, x, y, rows),
    decreases rows,
{
    if row < rows - 1 {
        lemma_rows_collide_from(m, x, y, (rows - 1) as nat, row);
    }
}

/// Rows that collide lay a lit sprite pixel on a lit screen pixel.
proof fn lemma_rows_collide_then_collides(m: Machine, x: int, y: int, n: nat)
    requires
        n <= DISPLAY_HEIGHT,
        rows_collide(m, x, y, n),
    ensures
        collides(m, x, y, n),
{
    let row = lemma_rows_collide_witness(m, x, y, n);
    let r = (m.v[y] + row) % (DISPLAY_HEIGHT as int);
    let bit = lemma_bits_collide_witness(m.pixels, m.v[x] as int, r, m.memory[m.index + row], 8);
    let c = (m.v[x] + bit) % (DISPLAY_WIDTH as int);
    lemma_wrap_rows(m.v[y] as int, row);
    lemma_wrap_columns(m.v[x] as int, bit);
    assert(lit_on(m, x, y, n, c, r, 1));
}

/// A lit sprite pixel on a lit screen pixel is found by going through the
/// sprite row by row and bit by bit.
proof fn lemma_collides_then_rows_collide(m: Machine, x: int, y: int, n: nat)
    requires
        n <= DISPLAY_HEIGHT,
        collides(m, x, y, n),
    ensures
        rows_collide(m, x, y, n),
{
    let (c, r) = choose|c: int, r: int| lit_on(m, x, y, n, c, r, 1);
    let row = (r - m.v[y]) % (DISPLAY_HEIGHT as int);
    let bit = (c - m.v[x]) % (DISPLAY_WIDTH as int);
    lemma_wrap_rows(m.v[y] as int, r);
    lemma_wrap_columns(m.v[x] as int, c);
    lemma_bits_collide_from(m.pixels, m.v[x] as int, r, m.memory[m.index + row], 8, bit);
    lemma_rows_collide_from(m, x, y, n, row);
}

/// Taking the flag down does not move the sprite where neither coordinate
/// is taken from the flag register.
proof fn lemma_flag_down_keeps_sprite(m: Machine, x: int, y: int, n: nat)
    requires
        m.wf(),
        0 <= x < FLAG,
        0 <= y < FLAG,
    ensures
        forall|c: int, r: int| #[trigger]
            sprite_pixel_at(m.set_reg(FLAG as int, 0), x, y, n, c, r) == sprite_pixel_at(
                m,
                x,
                y,
                n,
                c,
                r,
            ),
        collides(m.set_reg(FLAG as int, 0), x, y, n) == collides(m, x, y, n),
{
    let s = m.set_reg(FLAG as int, 0);
    if collides(s, x, y, n) {
        let (c, r) = choose|c: int, r: int| lit_on(s, x, y, n, c, r, 1);
        assert(lit_on(m, x, y, n, c, r, 1));
    }
    if collides(m, x, y, n) {
        let (c, r) = choose|c: int, r: int| lit_on(m, x, y, n, c, r, 1);
        assert(lit_on(s, x, y, n, c, r, 1));
    }
}

/// What a draw does, pixel by pixel, where neither coordinate is taken from
/// the flag register: every screen pixel is flipped exactly if the sprite
/// pixel that falls on it is lit; the flag is 1 exactly if a lit pixel was
/// turned off by that; the screen counts as written if the sprite has a row;
/// and nothing else changes.
pub proof fn lemma_draw_sprite_pixels(m: Machine, x: int, y: int, n: nat)
    requires
        m.wf(),
        0 <= x < FLAG,
        0 <= y < FLAG,
        n <= DISPLAY_HEIGHT,
    ensures
        ({
            let after = m.draw_sprite(x, y, n);
            &&& after.wf()
            &&& after == (Machine { v: after.v, pixels: after.pixels, changed: after.changed, ..m })
            &&& after.changed == (m.changed || n > 0)
            &&& forall|i: int| 0 <= i < REGISTER_COUNT && i != FLAG ==> after.v[i] == m.v[i]
            &&& after.v[FLAG as int] == flag(collides(m, x, y, n))
            &&& forall|c: int, r: int|
                0 <= c < DISPLAY_WIDTH && 0 <= r < DISPLAY_HEIGHT ==> #[trigger] after.pixels[pixel_index(
                    c,
                    r,
                )] == flipped(m.pixels[pixel_index(c, r)], sprite_pixel_at(m, x, y, n, c, r))
        }),
{
    let s = m.set_reg(FLAG as int, 0);
    let after = m.draw_sprite(x, y, n);
    lemma_draw_rows_shape(s, x, y, n);
    lemma_draw_rows_screen(s, x, y, n);
    lemma_draw_rows_flag(s, x, y, n);
    lemma_flag_down_keeps_sprite(m, x, y, n);
    if rows_collide(s, x, y, n) {
        lemma_rows_collide_then_collides(s, x, y, n);
    }
    if collides(s, x, y, n) {
        lemma_collides_then_rows_collide(s, x, y, n);
    }
    assert forall|c: int, r: int|
        0 <= c < DISPLAY_WIDTH && 0 <= r < DISPLAY_HEIGHT implies #[trigger] after.pixels[pixel_index(
        c,
        r,
    )] == flipped(m.pixels[pixel_index(c, r)], sprite_pixel_at(m, x, y, n, c, r)) by {
        assert(sprite_pixel_at(s, x, y, n, c, r) == sprite_pixel_at(m, x, y, n, c, r));
    }
}

/// Drawing the same sprite twice at the same place gives the screen back as
/// it was, and the second draw raises the flag exactly if the sprite has a
/// lit pixel that fell on a dark one the first time.
pub proof fn lemma_draw_twice_restores(m: Machine, x: int, y: int, n: nat)
    requires
        m.wf(),
        0 <= x < FLAG,
        0 <= y < FLAG,
        n <= DISPLAY_HEIGHT,
    ensures
        ({
            let twice = m.draw_sprite(x, y, n).draw_sprite(x, y, n);
            &&& twice.pixels == m.pixels
            &&& twice.v[FLAG as int] == flag(exists|c: int, r: int| lit_on(m, x, y, n, c, r, 0))
        }),
{
    let once = m.draw_sprite(x, y, n);
    let twice = once.draw_sprite(x, y, n);
    lemma_draw_sprite_pixels(m, x, y, n);
    lemma_draw_sprite_pixels(once, x, y, n);
    assert forall|c: int, r: int| 0 <= c < DISPLAY_WIDTH && 0 <= r < DISPLAY_HEIGHT implies (
    #[trigger] sprite_pixel_at(once, x, y, n, c, r)) == sprite_pixel_at(m, x, y, n, c, r) by {}
    assert forall|i: int| 0 <= i < twice.pixels.len() implies twice.pixels[i] == m.pixels[i] by {
        let c = i % (DISPLAY_WIDTH as int);
        let r = i / (DISPLAY_WIDTH as int);
        assert(i == pixel_index(c, r));
        assert(once.pixels[pixel_index(c, r)] == flipped(
            m.pixels[pixel_index(c, r)],
            sprite_pixel_at(m, x, y, n, c, r),
        ));
        assert(twice.pixels[pixel_index(c, r)] == flipped(
            once.pixels[pixel_index(c, r)],
            sprite_pixel_at(once, x, y, n, c, r),
        ));
    }
    assert(twice.pixels =~= m.pixels);
    if collides(once, x, y, n) {
        let (c, r) = choose|c: int, r: int| lit_on(once, x, y, n, c, r, 1);
        assert(once.pixels[pixel_index(c, r)] == flipped(
            m.pixels[pixel_index(c, r)],
            sprite_pixel_at(m, x, y, n, c, r),
        ));
        assert(lit_on(m, x, y, n, c, r, 0));
    }
    if exists|c: int, r: int| lit_on(m, x, y, n, c, r, 0) {
        let (c, r) = choose|c: int, r: int| lit_on(m, x, y, n, c, r, 0);
        assert(once.pixels[pixel_index(c, r)] == flipped(
            m.pixels[pixel_index(c, r)],
            sprite_pixel_at(m, x, y, n, c, r),
        ));
        assert(lit_on(once, x, y, n, c, r, 1));
    }
}

} // verus!
