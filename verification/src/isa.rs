use vstd::prelude::*;
use crate::bus::KEYPAD_SIZE;
use crate::state::{
    blank_screen, lemma_set_pixel_wf, pixel, screen_wf, set_pixel, BusState, CpuState, Machine,
    FLAG,
};

verus! {

/// `a` reduced to the twelve bits of an address.
pub open spec fn wrap12(a: int) -> u16 {
    (a % 0x1000) as u16
}

/// `a` reduced to the eight bits of a register.
pub open spec fn wrap8(a: int) -> u8 {
    (a % 0x100) as u8
}

/// Nibble `k` of `opcode`, counted from the lowest.
pub open spec fn nibble(opcode: u16, k: nat) -> u8 {
    if k == 0 {
        (opcode % 0x10) as u8
    } else if k == 1 {
        ((opcode / 0x10) % 0x10) as u8
    } else if k == 2 {
        ((opcode / 0x100) % 0x10) as u8
    } else {
        ((opcode / 0x1000) % 0x10) as u8
    }
}

/// Whether column `col` of a sprite row is set; column 0 is the leftmost cell
/// and the highest bit.
pub open spec fn sprite_bit(line: u8, col: u8) -> bool {
    (line >> (7 - col) as u8) & 1 == 1
}

/// Whether key `key` exists and is down.
pub open spec fn key_down(keys: Seq<bool>, key: u8) -> bool {
    key < KEYPAD_SIZE && keys[key as int]
}

/// The lowest key below `n` that is down, if there is one.
pub open spec fn first_pressed(keys: Seq<bool>, n: nat) -> Option<u8>
    decreases n,
{
    if n == 0 {
        None
    } else {
        match first_pressed(keys, (n - 1) as nat) {
            Some(k) => Some(k),
            None => if keys[n - 1] {
                Some((n - 1) as u8)
            } else {
                None
            },
        }
    }
}

/// A key that is down, with every key below it up, is the first pressed
/// among any number of keys that includes it.
pub proof fn lemma_first_pressed_found(keys: Seq<bool>, key: u8, n: nat)
    requires
        key < n,
        keys[key as int],
        first_pressed(keys, key as nat) is None,
    ensures
        first_pressed(keys, n) == Some(key),
    decreases n,
{
    if n > key + 1 {
        lemma_first_pressed_found(keys, key, (n - 1) as nat);
    }
}

impl CpuState {
    /// The value of register `x`.
    pub open spec fn reg(self, x: u8) -> u8 {
        self.v[x as int]
    }

    /// This state with `value` in register `x`.
    pub open spec fn set_reg(self, x: u8, value: u8) -> CpuState {
        CpuState { v: self.v.update(x as int, value), ..self }
    }

    /// This state with `value` in the flag register.
    pub open spec fn set_flag(self, value: u8) -> CpuState {
        CpuState { v: self.v.update(FLAG as int, value), ..self }
    }

    /// This state with the next instruction skipped if `cond` holds.
    pub open spec fn skip_if(self, cond: bool) -> CpuState {
        if cond {
            CpuState { pc: wrap12(self.pc + 2), ..self }
        } else {
            self
        }
    }

    /// `00EE`: return to the address on top of the stack; nothing happens on
    /// an empty stack.
    pub open spec fn op_00ee(self) -> CpuState {
        if self.stack.len() > 0 {
            CpuState { pc: self.stack.last(), stack: self.stack.drop_last(), ..self }
        } else {
            self
        }
    }

    /// `1NNN`: jump.
    pub open spec fn op_1nnn(self, nnn: u16) -> CpuState {
        CpuState { pc: wrap12(nnn as int), ..self }
    }

    /// `2NNN`: call.
    pub open spec fn op_2nnn(self, nnn: u16) -> CpuState {
        CpuState { pc: nnn, stack: self.stack.push(self.pc), ..self }
    }

    /// `3XNN`: skip if register `x` holds `nn`.
    pub open spec fn op_3xnn(self, x: u8, nn: u8) -> CpuState {
        self.skip_if(self.reg(x) == nn)
    }

    /// `4XNN`: skip if register `x` does not hold `nn`.
    pub open spec fn op_4xnn(self, x: u8, nn: u8) -> CpuState {
        self.skip_if(self.reg(x) != nn)
    }

    /// `5XY0`: skip if registers `x` and `y` are equal.
    pub open spec fn op_5xy0(self, x: u8, y: u8) -> CpuState {
        self.skip_if(self.reg(x) == self.reg(y))
    }

    /// `6XNN`: load a constant.
    pub open spec fn op_6xnn(self, x: u8, nn: u8) -> CpuState {
        self.set_reg(x, nn)
    }

    /// `7XNN`: add a constant, without a flag.
    pub open spec fn op_7xnn(self, x: u8, nn: u8) -> CpuState {
        self.set_reg(x, wrap8(self.reg(x) + nn))
    }

    /// `8XY0`: copy.
    pub open spec fn op_8xy0(self, x: u8, y: u8) -> CpuState {
        self.set_reg(x, self.reg(y))
    }

    /// `8XY1`: bitwise or.
    pub open spec fn op_8xy1(self, x: u8, y: u8) -> CpuState {
        self.set_reg(x, self.reg(x) | self.reg(y))
    }

    /// `8XY2`: bitwise and.
    pub open spec fn op_8xy2(self, x: u8, y: u8) -> CpuState {
        self.set_reg(x, self.reg(x) & self.reg(y))
    }

    /// `8XY3`: bitwise exclusive or.
    pub open spec fn op_8xy3(self, x: u8, y: u8) -> CpuState {
        self.set_reg(x, self.reg(x) ^ self.reg(y))
    }

    /// `8XY4`: add; the flag is 1 on a carry, else 0, and is written last.
    pub open spec fn op_8xy4(self, x: u8, y: u8) -> CpuState {
        let sum = self.reg(x) + self.reg(y);
        self.set_reg(x, wrap8(sum)).set_flag(if sum > 0xFF { 1 } else { 0 })
    }

    /// `8XY5`: subtract `y` from `x`; the flag is 0 on a borrow, else 1, and
    /// is written last.
    pub open spec fn op_8xy5(self, x: u8, y: u8) -> CpuState {
        let diff = self.reg(x) - self.reg(y);
        self.set_reg(x, wrap8(diff)).set_flag(if diff < 0 { 0 } else { 1 })
    }

    /// `8XY6`: register `x` gets register `y` halved; the flag is the bit
    /// shifted out, the low bit of register `y` as it was, and is written
    /// last.
    pub open spec fn op_8xy6(self, x: u8, y: u8) -> CpuState {
        self.set_reg(x, self.reg(y) / 2).set_flag(self.reg(y) % 2)
    }

    /// `8XY7`: subtract `x` from `y` into `x`; the flag is 0 on a borrow,
    /// else 1, and is written last.
    pub open spec fn op_8xy7(self, x: u8, y: u8) -> CpuState {
        let diff = self.reg(y) - self.reg(x);
        self.set_reg(x, wrap8(diff)).set_flag(if diff < 0 { 0 } else { 1 })
    }

    /// `8XYE`: register `x` gets register `y` doubled; the flag is the bit
    /// shifted out, the high bit of register `y` as it was, and is written
    /// last.
    pub open spec fn op_8xye(self, x: u8, y: u8) -> CpuState {
        self.set_reg(x, wrap8(self.reg(y) * 2)).set_flag(self.reg(y) / 0x80)
    }

    /// `9XY0`: skip if registers `x` and `y` differ.
    pub open spec fn op_9xy0(self, x: u8, y: u8) -> CpuState {
        self.skip_if(self.reg(x) != self.reg(y))
    }

    /// `ANNN`: load the index register.
    pub open spec fn op_annn(self, nnn: u16) -> CpuState {
        CpuState { i: nnn, ..self }
    }

    /// `BNNN`: jump to `nnn` plus register 0.
    pub open spec fn op_bnnn(self, nnn: u16) -> CpuState {
        CpuState { pc: wrap12(nnn + self.reg(0)), ..self }
    }

    /// `CXNN`: load `random`, masked by `nn`.
    pub open spec fn op_cxnn(self, x: u8, nn: u8, random: u8) -> CpuState {
        self.set_reg(x, random & nn)
    }

    /// `EX9E`: skip if the key that register `x` names is down.
    pub open spec fn op_ex9e(self, x: u8, keys: Seq<bool>) -> CpuState {
        self.skip_if(key_down(keys, self.reg(x)))
    }

    /// `EXA1`: skip if the key that register `x` names is not down.
    pub open spec fn op_exa1(self, x: u8, keys: Seq<bool>) -> CpuState {
        self.skip_if(!key_down(keys, self.reg(x)))
    }

    /// `FX07`: load the delay counter.
    pub open spec fn op_fx07(self, x: u8, timer: u8) -> CpuState {
        self.set_reg(x, timer)
    }

    /// `FX0A`: start waiting for a key, to be stored in register `x`.
    pub open spec fn op_fx0a(self, x: u8) -> CpuState {
        CpuState { key_await: Some(x), ..self }
    }

    /// `FX1E`: add register `x` to the index register.
    pub open spec fn op_fx1e(self, x: u8) -> CpuState {
        CpuState { i: wrap12(self.i + self.reg(x)), ..self }
    }

    /// `FX29`: point the index register at the glyph of the digit in
    /// register `x`.
    pub open spec fn op_fx29(self, x: u8) -> CpuState {
        CpuState { i: wrap12(self.reg(x) * 5), ..self }
    }

    /// The index register moved past registers 0 to `x`.
    pub open spec fn advance_index(self, x: u8) -> CpuState {
        CpuState { i: wrap12(self.i + x + 1), ..self }
    }

    /// The registers after 0 to `x` are loaded from memory at the index
    /// register.
    pub open spec fn loaded_registers(self, x: u8, memory: Seq<u8>) -> Seq<u8> {
        Seq::new(
            self.v.len(),
            |k: int|
                if k <= x {
                    memory[wrap12(self.i + k) as int]
                } else {
                    self.v[k]
                },
        )
    }

    /// `FX65`: load registers 0 to `x` from memory, then advance the index
    /// register.
    pub open spec fn op_fx65(self, x: u8, memory: Seq<u8>) -> CpuState {
        CpuState { v: self.loaded_registers(x, memory), ..self }.advance_index(x)
    }
}

impl BusState {
    /// `00E0`: clear the display.
    pub open spec fn op_00e0(self) -> BusState {
        BusState { screen: blank_screen(), ..self }
    }

    /// `FX15`: set the delay counter.
    pub open spec fn op_fx15(self, value: u8) -> BusState {
        BusState { timer: value, ..self }
    }

    /// `FX18`: set the sound counter.
    pub open spec fn op_fx18(self, value: u8) -> BusState {
        BusState { sound: value, ..self }
    }

    /// This state with `byte` stored at `addr`, taken within the address
    /// space.
    pub open spec fn store(self, addr: int, byte: u8) -> BusState {
        BusState { memory: self.memory.update(wrap12(addr) as int, byte), ..self }
    }

    /// `FX33`: store the decimal digits of `value` at `i`, `i + 1`, `i + 2`,
    /// hundreds first.
    pub open spec fn op_fx33(self, i: u16, value: u8) -> BusState {
        self.store(i + 2, value % 10).store(i + 1, (value / 10) % 10).store(i as int, value / 100)
    }

    /// `FX55`: memory with registers 0 to `x` stored from `i` on.
    pub open spec fn op_fx55(self, i: u16, x: u8, v: Seq<u8>) -> BusState {
        BusState {
            memory: Seq::new(
                self.memory.len(),
                |a: int|
                    {
                        let k = (a - i) % 0x1000;
                        if k <= x {
                            v[k]
                        } else {
                            self.memory[a]
                        }
                    },
            ),
            ..self
        }
    }
}

impl Machine {
    /// The machine after one cell of a sprite is drawn at `(px, py)`: the cell
    /// flips, and the flag is raised if it was set.
    pub open spec fn toggle(self, px: u8, py: u8) -> Machine {
        let hit = pixel(self.bus.screen, px as int, py as int);
        Machine {
            cpu: if hit {
                self.cpu.set_flag(1)
            } else {
                self.cpu
            },
            bus: BusState {
                screen: set_pixel(self.bus.screen, px as int, py as int, !hit),
                ..self.bus
            },
        }
    }

    /// The machine after the first `w` cells of the sprite row `line` are
    /// drawn at row `py`. Each cell takes its column from register `x` as it
    /// then stands.
    pub open spec fn draw_row(self, x: u8, line: u8, py: u8, w: nat) -> Machine
        decreases w,
    {
        if w == 0 {
            self
        } else {
            let before = self.draw_row(x, line, py, (w - 1) as nat);
            if sprite_bit(line, (w - 1) as u8) {
                before.toggle(wrap8(before.cpu.reg(x) + (w - 1)), py)
            } else {
                before
            }
        }
    }

    /// The machine after the flag is cleared and the first `h` rows of the
    /// sprite at the index register are drawn. Each row takes its row
    /// coordinate from register `y` as it stands when the row begins.
    pub open spec fn draw_rows(self, x: u8, y: u8, h: nat) -> Machine
        decreases h,
    {
        if h == 0 {
            Machine { cpu: self.cpu.set_flag(0), ..self }
        } else {
            let before = self.draw_rows(x, y, (h - 1) as nat);
            let line = before.bus.memory[wrap12(before.cpu.i + (h - 1)) as int];
            before.draw_row(x, line, wrap8(before.cpu.reg(y) + (h - 1)), 8)
        }
    }

    /// `DXYN`: draw the sprite of `n` rows at the index register, at the
    /// coordinates in registers `x` and `y`.
    pub open spec fn op_dxyn(self, x: u8, y: u8, n: u8) -> Machine {
        self.draw_rows(x, y, n as nat)
    }

    /// The machine after the instruction with the four nibbles `op`, `x`,
    /// `y`, `n` and the operands `nnn` and `nn` is executed; `random` is the
    /// byte that `CXNN` draws. Nibbles that form no instruction change
    /// nothing.
    pub open spec fn dispatch(
        self,
        op: u8,
        x: u8,
        y: u8,
        n: u8,
        nnn: u16,
        nn: u8,
        random: u8,
    ) -> Machine {
        let cpu = self.cpu;
        let bus = self.bus;
        match (op, x, y, n) {
            (0x0, 0x0, 0xE, 0x0) => Machine { bus: bus.op_00e0(), ..self },
            (0x0, 0x0, 0xE, 0xE) => Machine { cpu: cpu.op_00ee(), ..self },
            (0x0, _, _, _) => self,
            (0x1, _, _, _) => Machine { cpu: cpu.op_1nnn(nnn), ..self },
            (0x2, _, _, _) => Machine { cpu: cpu.op_2nnn(nnn), ..self },
            (0x3, _, _, _) => Machine { cpu: cpu.op_3xnn(x, nn), ..self },
            (0x4, _, _, _) => Machine { cpu: cpu.op_4xnn(x, nn), ..self },
            (0x5, _, _, 0x0) => Machine { cpu: cpu.op_5xy0(x, y), ..self },
            (0x6, _, _, _) => Machine { cpu: cpu.op_6xnn(x, nn), ..self },
            (0x7, _, _, _) => Machine { cpu: cpu.op_7xnn(x, nn), ..self },
            (0x8, _, _, 0x0) => Machine { cpu: cpu.op_8xy0(x, y), ..self },
            (0x8, _, _, 0x1) => Machine { cpu: cpu.op_8xy1(x, y), ..self },
            (0x8, _, _, 0x2) => Machine { cpu: cpu.op_8xy2(x, y), ..self },
            (0x8, _, _, 0x3) => Machine { cpu: cpu.op_8xy3(x, y), ..self },
            (0x8, _, _, 0x4) => Machine { cpu: cpu.op_8xy4(x, y), ..self },
            (0x8, _, _, 0x5) => Machine { cpu: cpu.op_8xy5(x, y), ..self },
            (0x8, _, _, 0x6) => Machine { cpu: cpu.op_8xy6(x, y), ..self },
            (0x8, _, _, 0x7) => Machine { cpu: cpu.op_8xy7(x, y), ..self },
            (0x8, _, _, 0xE) => Machine { cpu: cpu.op_8xye(x, y), ..self },
            (0x9, _, _, 0x0) => Machine { cpu: cpu.op_9xy0(x, y), ..self },
            (0xA, _, _, _) => Machine { cpu: cpu.op_annn(nnn), ..self },
            (0xB, _, _, _) => Machine { cpu: cpu.op_bnnn(nnn), ..self },
            (0xC, _, _, _) => Machine { cpu: cpu.op_cxnn(x, nn, random), ..self },
            (0xD, _, _, _) => self.op_dxyn(x, y, n),
            (0xE, _, 0x9, 0xE) => Machine { cpu: cpu.op_ex9e(x, bus.keys), ..self },
            (0xE, _, 0xA, 0x1) => Machine { cpu: cpu.op_exa1(x, bus.keys), ..self },
            (0xF, _, 0x0, 0x7) => Machine { cpu: cpu.op_fx07(x, bus.timer), ..self },
            (0xF, _, 0x0, 0xA) => Machine { cpu: cpu.op_fx0a(x), ..self },
            (0xF, _, 0x1, 0x5) => Machine { bus: bus.op_fx15(cpu.reg(x)), ..self },
            (0xF, _, 0x1, 0x8) => Machine { bus: bus.op_fx18(cpu.reg(x)), ..self },
            (0xF, _, 0x1, 0xE) => Machine { cpu: cpu.op_fx1e(x), ..self },
            (0xF, _, 0x2, 0x9) => Machine { cpu: cpu.op_fx29(x), ..self },
            (0xF, _, 0x3, 0x3) => Machine { bus: bus.op_fx33(cpu.i, cpu.reg(x)), ..self },
            (0xF, _, 0x5, 0x5) => Machine {
                cpu: cpu.advance_index(x),
                bus: bus.op_fx55(cpu.i, x, cpu.v),
            },
            (0xF, _, 0x6, 0x5) => Machine { cpu: cpu.op_fx65(x, bus.memory), ..self },
            _ => self,
        }
    }

    /// The machine after `opcode` is executed: its four nibbles, its low
    /// twelve bits and its low eight bits select and feed the instruction.
    pub open spec fn execute(self, opcode: u16, random: u8) -> Machine {
        self.dispatch(
            nibble(opcode, 3),
            nibble(opcode, 2),
            nibble(opcode, 1),
            nibble(opcode, 0),
            (opcode % 0x1000) as u16,
            (opcode % 0x100) as u8,
            random,
        )
    }

    /// The opcode at the program counter: two bytes, the high one first, the
    /// second taken from the next address within the address space.
    pub open spec fn fetch(self) -> u16 {
        let high = self.bus.memory[wrap12(self.cpu.pc as int) as int];
        let low = self.bus.memory[wrap12(self.cpu.pc + 1) as int];
        (high * 0x100 + low) as u16
    }

    /// The machine with the program counter moved past one opcode.
    pub open spec fn advance(self) -> Machine {
        Machine { cpu: CpuState { pc: wrap12(self.cpu.pc + 2), ..self.cpu }, ..self }
    }

    /// The machine while it waits for a key, to be stored in register `x`:
    /// the lowest key that is down ends the wait; with no key down nothing
    /// changes.
    pub open spec fn poll_key(self, x: u8) -> Machine {
        match first_pressed(self.bus.keys, KEYPAD_SIZE as nat) {
            Some(key) => Machine {
                cpu: CpuState { key_await: None, ..self.cpu.set_reg(x, key) },
                ..self
            },
            None => self,
        }
    }

    /// One step of the machine: a keypad poll while it waits for a key, else
    /// fetch, advance and execute.
    pub open spec fn step(self, random: u8) -> Machine {
        match self.cpu.key_await {
            Some(x) => self.poll_key(x),
            None => self.advance().execute(self.fetch(), random),
        }
    }

    /// The machine after one step for each byte of `randoms`, in order, with
    /// nothing changing the peripherals between the steps.
    pub open spec fn run(self, randoms: Seq<u8>) -> Machine
        decreases randoms.len(),
    {
        if randoms.len() == 0 {
            self
        } else {
            self.run(randoms.drop_last()).step(randoms.last())
        }
    }
}

/// Drawing cells of a row keeps the machine well formed.
pub proof fn lemma_draw_row_wf(m: Machine, x: u8, line: u8, py: u8, w: nat)
    requires
        m.wf(),
    ensures
        m.draw_row(x, line, py, w).wf(),
    decreases w,
{
    if w > 0 {
        let before = m.draw_row(x, line, py, (w - 1) as nat);
        lemma_draw_row_wf(m, x, line, py, (w - 1) as nat);
        let px = wrap8(before.cpu.reg(x) + (w - 1));
        let hit = pixel(before.bus.screen, px as int, py as int);
        lemma_set_pixel_wf(before.bus.screen, px as int, py as int, !hit);
    }
}

/// Drawing rows of a sprite keeps the machine well formed.
pub proof fn lemma_draw_rows_wf(m: Machine, x: u8, y: u8, h: nat)
    requires
        m.wf(),
    ensures
        m.draw_rows(x, y, h).wf(),
    decreases h,
{
    if h > 0 {
        let before = m.draw_rows(x, y, (h - 1) as nat);
        lemma_draw_rows_wf(m, x, y, (h - 1) as nat);
        let line = before.bus.memory[wrap12(before.cpu.i + (h - 1)) as int];
        lemma_draw_row_wf(before, x, line, wrap8(before.cpu.reg(y) + (h - 1)), 8);
    }
}

/// Executing an opcode keeps the machine well formed.
pub proof fn lemma_execute_wf(m: Machine, opcode: u16, random: u8)
    requires
        m.wf(),
    ensures
        m.execute(opcode, random).wf(),
{
    lemma_draw_rows_wf(m, nibble(opcode, 2), nibble(opcode, 1), nibble(opcode, 0) as nat);
    assert(screen_wf(blank_screen()));
}

} // verus!
