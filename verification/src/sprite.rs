use vstd::prelude::*;
use crate::isa::{lemma_draw_rows_wf, sprite_bit, wrap12, wrap8};
use crate::state::{
    blank_screen, pixel, screen_wf, set_pixel, BusState, Machine, Screen, FLAG, V_SIZE,
};

verus! {

/// What a draw instruction reads and does not change: memory, the index
/// register, and the coordinates of the sprite's top left cell.
pub struct Sprite {
    pub memory: Seq<u8>,
    pub i: u16,
    pub vx: u8,
    pub vy: u8,
}

impl Machine {
    /// The sprite that `DXYN` draws on this machine.
    pub open spec fn sprite(self, x: u8, y: u8) -> Sprite {
        Sprite { memory: self.bus.memory, i: self.cpu.i, vx: self.cpu.reg(x), vy: self.cpu.reg(y) }
    }
}

impl Sprite {
    /// Row `row` of the sprite.
    pub open spec fn line(self, row: int) -> u8 {
        self.memory[wrap12(self.i + row) as int]
    }

    /// Whether a set cell of the sprite's first `n` rows lies on the display
    /// cell `(px, py)`: the cell's column and row within the sprite are its
    /// distances from the sprite's top left cell, taken around the display.
    pub open spec fn covers(self, px: int, py: int, n: int) -> bool {
        let col = (px - self.vx) % 64;
        let row = (py - self.vy) % 32;
        col < 8 && row < n && sprite_bit(self.line(row), col as u8)
    }

    /// The screen `s` with the sprite's first `n` rows drawn on it: every
    /// cell under a set cell of the sprite is flipped.
    pub open spec fn drawn(self, s: Screen, n: int) -> Screen {
        Seq::new(64, |px: int| Seq::new(32, |py: int| s[px][py] != self.covers(px, py, n)))
    }

    /// Whether a set cell of the sprite's first `n` rows lies on a set cell
    /// of the screen `s`.
    pub open spec fn collides(self, s: Screen, n: int) -> bool {
        exists|px: int, py: int|
            0 <= px < 64 && 0 <= py < 32 && s[px][py] && #[trigger] self.covers(px, py, n)
    }

    /// Whether the sprite's first `n` rows hold a set cell.
    pub open spec fn visible(self, n: int) -> bool {
        exists|row: int, col: int|
            0 <= row < n && 0 <= col < 8 && #[trigger] sprite_bit(self.line(row), col as u8)
    }

    /// Whether a set cell of the sprite lies on the display cell `(px, py)`
    /// and comes before cell `w` of row `h`, rows counted first.
    #[verifier::opaque]
    spec fn covers_before(self, px: int, py: int, h: int, w: int) -> bool {
        let col = (px - self.vx) % 64;
        let row = (py - self.vy) % 32;
        &&& col < 8
        &&& sprite_bit(self.line(row), col as u8)
        &&& (row < h || (row == h && col < w))
    }

    /// The screen `s` with every cell flipped on which a set cell of the
    /// sprite lies that comes before cell `w` of row `h`.
    #[verifier::opaque]
    spec fn drawn_before(self, s: Screen, h: int, w: int) -> Screen {
        Seq::new(
            64,
            |px: int| Seq::new(32, |py: int| s[px][py] != self.covers_before(px, py, h, w)),
        )
    }

    /// Whether a set cell of the sprite that comes before cell `w` of row `h`
    /// lies on a set cell of the screen `s`.
    #[verifier::opaque]
    spec fn collides_before(self, s: Screen, h: int, w: int) -> bool {
        exists|px: int, py: int|
            0 <= px < 64 && 0 <= py < 32 && s[px][py] && #[trigger] self.covers_before(
                px,
                py,
                h,
                w,
            )
    }

    /// The machine `start` after the cells of the sprite before cell `w` of
    /// row `h` are drawn.
    spec fn machine_before(self, start: Machine, h: int, w: int) -> Machine {
        Machine {
            cpu: start.cpu.set_flag(
                if self.collides_before(start.bus.screen, h, w) {
                    1
                } else {
                    0
                },
            ),
            bus: BusState { screen: self.drawn_before(start.bus.screen, h, w), ..start.bus },
        }
    }
}

/// Reducing a coordinate to a byte first does not change where it wraps to.
proof fn lemma_wrap_coordinates(a: int)
    requires
        0 <= a,
    ensures
        wrap8(a) as int % 64 == a % 64,
        wrap8(a) as int % 32 == a % 32,
{
}

/// The display cell under cell `w` of the sprite's row `h` is the only one
/// whose cover changes when that cell is drawn.
proof fn lemma_cover_step(sp: Sprite, px: int, py: int, h: int, w: int)
    requires
        0 <= px < 64,
        0 <= py < 32,
        0 <= h < 32,
        0 <= w < 8,
    ensures
        sp.covers_before(px, py, h, w + 1) == (sp.covers_before(px, py, h, w) || (px == (sp.vx
            + w) % 64 && py == (sp.vy + h) % 32 && sprite_bit(sp.line(h), w as u8))),
        (px == (sp.vx + w) % 64 && py == (sp.vy + h) % 32) ==> !sp.covers_before(px, py, h, w),
{
    reveal(Sprite::covers_before);
}

/// Drawing cell `w` of row `h` flips the display cell under it if the cell
/// of the sprite is set, and changes no other cell.
proof fn lemma_drawn_step(sp: Sprite, s: Screen, h: int, w: int)
    requires
        screen_wf(s),
        0 <= h < 32,
        0 <= w < 8,
    ensures
        sp.drawn_before(s, h, w)[(sp.vx + w) % 64][(sp.vy + h) % 32] == s[(sp.vx + w) % 64][(sp.vy
            + h) % 32],
        sprite_bit(sp.line(h), w as u8) ==> sp.drawn_before(s, h, w + 1) == set_pixel(
            sp.drawn_before(s, h, w),
            (sp.vx + w) % 64,
            (sp.vy + h) % 32,
            !s[(sp.vx + w) % 64][(sp.vy + h) % 32],
        ),
        !sprite_bit(sp.line(h), w as u8) ==> sp.drawn_before(s, h, w + 1) == sp.drawn_before(
            s,
            h,
            w,
        ),
{
    let cx = (sp.vx + w) % 64;
    let cy = (sp.vy + h) % 32;
    let before = sp.drawn_before(s, h, w);
    let after = sp.drawn_before(s, h, w + 1);
    reveal(Sprite::drawn_before);
    lemma_cover_step(sp, cx, cy, h, w);
    assert forall|qx: int, qy: int| 0 <= qx < 64 && 0 <= qy < 32 implies #[trigger] after[qx][qy]
        == (s[qx][qy] != sp.covers_before(qx, qy, h, w + 1)) && before[qx][qy] == (s[qx][qy]
        != sp.covers_before(qx, qy, h, w)) by {}
    if sprite_bit(sp.line(h), w as u8) {
        let flipped = set_pixel(before, cx, cy, !s[cx][cy]);
        assert forall|qx: int, qy: int| 0 <= qx < 64 && 0 <= qy < 32 implies #[trigger] after[qx][qy]
            == flipped[qx][qy] by {
            lemma_cover_step(sp, qx, qy, h, w);
        }
        assert(after =~~= flipped);
    } else {
        assert forall|qx: int, qy: int| 0 <= qx < 64 && 0 <= qy < 32 implies #[trigger] after[qx][qy]
            == before[qx][qy] by {
            lemma_cover_step(sp, qx, qy, h, w);
        }
        assert(after =~~= before);
    }
}

/// Drawing cell `w` of row `h` collides if the cell of the sprite and the
/// display cell under it are both set; earlier collisions stay.
proof fn lemma_collides_step(sp: Sprite, s: Screen, h: int, w: int)
    requires
        0 <= h < 32,
        0 <= w < 8,
    ensures
        sp.collides_before(s, h, w + 1) == (sp.collides_before(s, h, w) || (sprite_bit(
            sp.line(h),
            w as u8,
        ) && s[(sp.vx + w) % 64][(sp.vy + h) % 32])),
{
    let cx = (sp.vx + w) % 64;
    let cy = (sp.vy + h) % 32;
    reveal(Sprite::collides_before);
    if sp.collides_before(s, h, w + 1) {
        let (qx, qy) = choose|qx: int, qy: int|
            0 <= qx < 64 && 0 <= qy < 32 && s[qx][qy] && #[trigger] sp.covers_before(
                qx,
                qy,
                h,
                w + 1,
            );
        lemma_cover_step(sp, qx, qy, h, w);
    }
    if sp.collides_before(s, h, w) {
        let (qx, qy) = choose|qx: int, qy: int|
            0 <= qx < 64 && 0 <= qy < 32 && s[qx][qy] && #[trigger] sp.covers_before(
                qx,
                qy,
                h,
                w,
            );
        lemma_cover_step(sp, qx, qy, h, w);
        assert(sp.covers_before(qx, qy, h, w + 1));
    }
    if sprite_bit(sp.line(h), w as u8) && s[cx][cy] {
        lemma_cover_step(sp, cx, cy, h, w);
        assert(sp.covers_before(cx, cy, h, w + 1));
    }
}

/// Drawing cell `w` of row `h`, on the machine that the cells before it
/// left, leaves the machine that the cells before the next cell leave.
proof fn lemma_draw_cell(start: Machine, x: u8, y: u8, h: int, w: int)
    requires
        start.wf(),
        x < V_SIZE,
        y < V_SIZE,
        x != FLAG,
        y != FLAG,
        0 <= h < 32,
        0 <= w < 8,
    ensures
        ({
            let sp = start.sprite(x, y);
            let before = sp.machine_before(start, h, w);
            &&& before.cpu.reg(x) == sp.vx
            &&& before.cpu.reg(y) == sp.vy
            &&& before.cpu.i == sp.i
            &&& before.bus.memory == sp.memory
            &&& sp.machine_before(start, h, w + 1) == (if sprite_bit(sp.line(h), w as u8) {
                before.toggle(wrap8(sp.vx + w), wrap8(sp.vy + h))
            } else {
                before
            })
        }),
{
    let sp = start.sprite(x, y);
    let s = start.bus.screen;
    let before = sp.machine_before(start, h, w);
    let after = sp.machine_before(start, h, w + 1);
    let px = wrap8(sp.vx + w);
    let py = wrap8(sp.vy + h);
    let cx = (sp.vx + w) % 64;
    let cy = (sp.vy + h) % 32;
    lemma_wrap_coordinates(sp.vx + w);
    lemma_wrap_coordinates(sp.vy + h);
    lemma_drawn_step(sp, s, h, w);
    lemma_collides_step(sp, s, h, w);
    if sprite_bit(sp.line(h), w as u8) {
        let drawn = before.toggle(px, py);
        assert(pixel(before.bus.screen, px as int, py as int) == s[cx][cy]);
        assert(drawn.bus.screen == after.bus.screen);
        assert(drawn.cpu.v =~= after.cpu.v);
    } else {
        assert(before.cpu.v =~= after.cpu.v);
    }
}

/// Drawing the first `w` cells of row `h`, on the machine that the cells
/// before that row left, leaves the machine that the cells before cell `w` of
/// that row leave.
proof fn lemma_draw_row(start: Machine, x: u8, y: u8, h: int, w: nat)
    requires
        start.wf(),
        x < V_SIZE,
        y < V_SIZE,
        x != FLAG,
        y != FLAG,
        0 <= h < 32,
        w <= 8,
    ensures
        start.sprite(x, y).machine_before(start, h, 0).draw_row(
            x,
            start.sprite(x, y).line(h),
            wrap8(start.sprite(x, y).vy + h),
            w,
        ) == start.sprite(x, y).machine_before(start, h, w as int),
    decreases w,
{
    if w > 0 {
        lemma_draw_row(start, x, y, h, (w - 1) as nat);
        lemma_draw_cell(start, x, y, h, w - 1);
    }
}

/// The cells before the end of a row are the cells before the next row.
proof fn lemma_next_row(start: Machine, sp: Sprite, h: int)
    requires
        start.wf(),
        0 <= h < 32,
    ensures
        sp.machine_before(start, h, 8) == sp.machine_before(start, h + 1, 0),
{
    let s = start.bus.screen;
    reveal(Sprite::covers_before);
    reveal(Sprite::drawn_before);
    reveal(Sprite::collides_before);
    assert forall|qx: int, qy: int| 0 <= qx < 64 && 0 <= qy < 32 implies sp.covers_before(
        qx,
        qy,
        h,
        8,
    ) == sp.covers_before(qx, qy, h + 1, 0) by {}
    assert(sp.drawn_before(s, h, 8) =~~= sp.drawn_before(s, h + 1, 0));
    if sp.collides_before(s, h, 8) {
        let (qx, qy) = choose|qx: int, qy: int|
            0 <= qx < 64 && 0 <= qy < 32 && s[qx][qy] && #[trigger] sp.covers_before(
                qx,
                qy,
                h,
                8,
            );
        assert(sp.covers_before(qx, qy, h + 1, 0));
    }
    if sp.collides_before(s, h + 1, 0) {
        let (qx, qy) = choose|qx: int, qy: int|
            0 <= qx < 64 && 0 <= qy < 32 && s[qx][qy] && #[trigger] sp.covers_before(
                qx,
                qy,
                h + 1,
                0,
            );
        assert(sp.covers_before(qx, qy, h, 8));
    }
}

/// Drawing the first `h` rows leaves the machine that the cells before row
/// `h` leave.
proof fn lemma_draw_rows(start: Machine, x: u8, y: u8, h: nat)
    requires
        start.wf(),
        x < V_SIZE,
        y < V_SIZE,
        x != FLAG,
        y != FLAG,
        h <= 32,
    ensures
        start.draw_rows(x, y, h) == start.sprite(x, y).machine_before(start, h as int, 0),
    decreases h,
{
    let sp = start.sprite(x, y);
    let s = start.bus.screen;
    if h == 0 {
        reveal(Sprite::covers_before);
        reveal(Sprite::drawn_before);
        reveal(Sprite::collides_before);
        assert(sp.drawn_before(s, 0, 0) =~~= s);
    } else {
        let r = (h - 1) as int;
        lemma_draw_rows(start, x, y, r as nat);
        lemma_draw_cell(start, x, y, r, 0);
        lemma_draw_row(start, x, y, r, 8);
        lemma_next_row(start, sp, r);
    }
}

/// What `DXYN` does when neither coordinate register is the flag register
/// and the sprite is no taller than the display: every cell of the display
/// under a set cell of the sprite flips, the others stay, and the flag
/// register gets 1 if one of the flipped cells was set, else 0. Nothing else
/// changes.
pub proof fn lemma_draw_sprite(start: Machine, x: u8, y: u8, n: u8)
    requires
        start.wf(),
        x < V_SIZE,
        y < V_SIZE,
        x != FLAG,
        y != FLAG,
        n <= 32,
    ensures
        start.op_dxyn(x, y, n) == (Machine {
            cpu: start.cpu.set_flag(
                if start.sprite(x, y).collides(start.bus.screen, n as int) {
                    1
                } else {
                    0
                },
            ),
            bus: BusState {
                screen: start.sprite(x, y).drawn(start.bus.screen, n as int),
                ..start.bus
            },
        }),
{
    let sp = start.sprite(x, y);
    let s = start.bus.screen;
    lemma_draw_rows(start, x, y, n as nat);
    reveal(Sprite::covers_before);
    reveal(Sprite::drawn_before);
    reveal(Sprite::collides_before);
    assert forall|qx: int, qy: int| 0 <= qx < 64 && 0 <= qy < 32 implies sp.covers_before(
        qx,
        qy,
        n as int,
        0,
    ) == sp.covers(qx, qy, n as int) by {}
    assert(sp.drawn_before(s, n as int, 0) =~~= sp.drawn(s, n as int));
    if sp.collides_before(s, n as int, 0) {
        let (qx, qy) = choose|qx: int, qy: int|
            0 <= qx < 64 && 0 <= qy < 32 && s[qx][qy] && #[trigger] sp.covers_before(
                qx,
                qy,
                n as int,
                0,
            );
        assert(sp.covers(qx, qy, n as int));
    }
    if sp.collides(s, n as int) {
        let (qx, qy) = choose|qx: int, qy: int|
            0 <= qx < 64 && 0 <= qy < 32 && s[qx][qy] && #[trigger] sp.covers(qx, qy, n as int);
        assert(sp.covers_before(qx, qy, n as int, 0));
    }
}

/// A sprite lies on some cell of the display exactly when it holds a set
/// cell.
pub proof fn lemma_visible(sp: Sprite, n: int)
    requires
        0 <= n <= 32,
    ensures
        sp.visible(n) <==> exists|px: int, py: int|
            0 <= px < 64 && 0 <= py < 32 && #[trigger] sp.covers(px, py, n),
{
    if sp.visible(n) {
        let (row, col) = choose|row: int, col: int|
            0 <= row < n && 0 <= col < 8 && #[trigger] sprite_bit(sp.line(row), col as u8);
        let px = (sp.vx + col) % 64;
        let py = (sp.vy + row) % 32;
        assert((px - sp.vx) % 64 == col);
        assert((py - sp.vy) % 32 == row);
        assert(sp.covers(px, py, n));
    }
    if exists|px: int, py: int| 0 <= px < 64 && 0 <= py < 32 && #[trigger] sp.covers(px, py, n) {
        let (px, py) = choose|px: int, py: int|
            0 <= px < 64 && 0 <= py < 32 && #[trigger] sp.covers(px, py, n);
        let col = (px - sp.vx) % 64;
        let row = (py - sp.vy) % 32;
        assert(sprite_bit(sp.line(row), col as u8));
    }
}

/// Drawing the same sprite twice at the same place, with neither coordinate
/// register being the flag register, restores the display. On a blank
/// display the first draw leaves the flag register at 0, and the second
/// leaves it at 1 if the sprite holds a set cell, and at 0 if it holds
/// none.
pub proof fn lemma_draw_twice(start: Machine, x: u8, y: u8, n: u8)
    requires
        start.wf(),
        x < V_SIZE,
        y < V_SIZE,
        x != FLAG,
        y != FLAG,
        n <= 32,
    ensures
        start.op_dxyn(x, y, n).op_dxyn(x, y, n).bus == start.bus,
        start.bus.screen == blank_screen() ==> start.op_dxyn(x, y, n).cpu.reg(FLAG as u8) == 0,
        start.bus.screen == blank_screen() ==> start.op_dxyn(x, y, n).op_dxyn(x, y, n).cpu.reg(
            FLAG as u8,
        ) == (if start.sprite(x, y).visible(n as int) {
            1u8
        } else {
            0u8
        }),
{
    let sp = start.sprite(x, y);
    let s = start.bus.screen;
    let once = start.op_dxyn(x, y, n);
    lemma_draw_sprite(start, x, y, n);
    lemma_draw_rows_wf(start, x, y, n as nat);
    assert(once.sprite(x, y) == sp);
    lemma_draw_sprite(once, x, y, n);
    let twice = once.op_dxyn(x, y, n);
    assert(twice.bus.screen =~~= s);
    if s == blank_screen() {
        lemma_visible(sp, n as int);
        if sp.collides(once.bus.screen, n as int) {
            let (px, py) = choose|px: int, py: int|
                0 <= px < 64 && 0 <= py < 32 && once.bus.screen[px][py] && #[trigger] sp.covers(
                    px,
                    py,
                    n as int,
                );
        } else if sp.visible(n as int) {
            let (px, py) = choose|px: int, py: int|
                0 <= px < 64 && 0 <= py < 32 && #[trigger] sp.covers(px, py, n as int);
            assert(once.bus.screen[px][py]);
        }
    }
}

} // verus!
