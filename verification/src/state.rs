use vstd::prelude::*;
use crate::bus::{DISPLAY_HEIGHT, DISPLAY_WIDTH, KEYPAD_SIZE};

verus! {

/// Number of addressable bytes.
pub const MEMORY_SIZE: usize = 0x1000;

/// Number of general registers.
pub const V_SIZE: usize = 16;

/// Index of the flag register.
pub const FLAG: usize = 0xF;

/// The display as a value: `DISPLAY_WIDTH` columns of `DISPLAY_HEIGHT` cells,
/// indexed column first.
pub type Screen = Seq<Seq<bool>>;

/// A screen has the full grid of cells.
pub open spec fn screen_wf(s: Screen) -> bool {
    &&& s.len() == DISPLAY_WIDTH
    &&& forall|x: int| 0 <= x < DISPLAY_WIDTH ==> (#[trigger] s[x]).len() == DISPLAY_HEIGHT
}

/// The screen with every cell unset.
pub open spec fn blank_screen() -> Screen {
    Seq::new(DISPLAY_WIDTH as nat, |x: int| Seq::new(DISPLAY_HEIGHT as nat, |y: int| false))
}

/// The cell that coordinates `(x, y)` name: both axes wrap around.
pub open spec fn pixel(s: Screen, x: int, y: int) -> bool {
    s[x % 64][y % 32]
}

/// The screen after the cell at `(x, y)`, both taken with wraparound, is set
/// to `value`.
pub open spec fn set_pixel(s: Screen, x: int, y: int, value: bool) -> Screen {
    s.update(x % 64, s[x % 64].update(y % 32, value))
}

/// What the peripherals hold: memory, display, keypad and the two counters.
pub struct BusState {
    pub memory: Seq<u8>,
    pub screen: Screen,
    pub keys: Seq<bool>,
    pub timer: u8,
    pub sound: u8,
}

impl BusState {
    /// Memory, display and keypad have their fixed sizes.
    pub open spec fn wf(self) -> bool {
        &&& self.memory.len() == MEMORY_SIZE
        &&& self.keys.len() == KEYPAD_SIZE
        &&& screen_wf(self.screen)
    }
}

/// What the processor holds.
pub struct CpuState {
    pub pc: u16,
    pub i: u16,
    pub v: Seq<u8>,
    pub stack: Seq<u16>,
    pub key_await: Option<u8>,
}

impl CpuState {
    /// There are sixteen registers, and a pending key wait names one of them.
    pub open spec fn wf(self) -> bool {
        &&& self.v.len() == V_SIZE
        &&& (self.key_await matches Some(x) ==> x < V_SIZE)
    }
}

/// A processor together with its peripherals.
pub struct Machine {
    pub cpu: CpuState,
    pub bus: BusState,
}

impl Machine {
    /// Both halves are well formed.
    pub open spec fn wf(self) -> bool {
        self.cpu.wf() && self.bus.wf()
    }
}

/// Writing a cell keeps the grid's shape.
pub proof fn lemma_set_pixel_wf(s: Screen, x: int, y: int, value: bool)
    requires
        screen_wf(s),
    ensures
        screen_wf(set_pixel(s, x, y, value)),
{
    let t = set_pixel(s, x, y, value);
    assert forall|c: int| 0 <= c < DISPLAY_WIDTH implies (#[trigger] t[c]).len()
        == DISPLAY_HEIGHT by {
        assert(s[c].len() == DISPLAY_HEIGHT);
    }
}

} // verus!
