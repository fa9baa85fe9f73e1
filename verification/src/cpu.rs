use vstd::prelude::*;
use crate::bus::KEYPAD_SIZE;
use crate::isa::{
    first_pressed, lemma_execute_wf, lemma_first_pressed_found, nibble, sprite_bit, wrap12,
};
use crate::state::{
    blank_screen, lemma_set_pixel_wf, pixel, set_pixel, BusState, CpuState, Machine, MEMORY_SIZE,
    V_SIZE,
};

verus! {

/// Where the font sprites start in memory.
pub const SPRITE_ADDR: u16 = 0x000;

/// Depth that the call stack is allocated for; it may grow beyond it.
pub const STACK_SIZE: usize = 16;

/// Where execution starts.
pub const PC_INIT: u16 = 0x0200;

/// The processor: program counter, index register, the registers `v0` to
/// `vf`, the call stack, and the register that a pending key wait fills.
pub struct Cpu {
    pub pc: u16,
    pub i: u16,
    pub v: [u8; V_SIZE],
    pub stack: Vec<u16>,
    pub key_await: Option<u8>,
}

impl View for Cpu {
    type V = CpuState;

    open spec fn view(&self) -> CpuState {
        CpuState {
            pc: self.pc,
            i: self.i,
            v: self.v@,
            stack: self.stack@,
            key_await: self.key_await,
        }
    }
}

/// The processor at power-on.
pub open spec fn power_on() -> CpuState {
    CpuState {
        pc: PC_INIT,
        i: 0,
        v: Seq::new(V_SIZE as nat, |x: int| 0u8),
        stack: Seq::empty(),
        key_await: None,
    }
}

/// The low twelve bits of `a`.
fn mask12(a: u32) -> (r: u16)
    ensures
        r == wrap12(a as int),
{
    assert(a & 0x0FFF == a % 0x1000) by (bit_vector);
    (a & 0x0FFF) as u16
}

/// A byte from `rand::random`, which draws it from the generator of the
/// current thread. Nothing is claimed of the byte.
#[verifier::external_body]
fn random_byte() -> (byte: u8) {
    rand::random::<u8>()
}

impl Cpu {
    /// A processor at power-on.
    pub fn new() -> (cpu: Cpu)
        ensures
            cpu@ == power_on(),
    {
        let cpu = Cpu {
            pc: PC_INIT,
            i: 0,
            v: [0; V_SIZE],
            stack: Vec::with_capacity(STACK_SIZE),
            key_await: None,
        };
        assert(cpu@.v =~= power_on().v);
        cpu
    }

    /// Back to power-on, whatever the peripherals hold.
    pub fn reset(&mut self)
        ensures
            final(self)@ == power_on(),
    {
        self.pc = PC_INIT;
        self.i = 0;
        for x in 0..V_SIZE
            invariant
                self.pc == PC_INIT,
                self.i == 0,
                forall|k: int| 0 <= k < x ==> self.v@[k] == 0,
        {
            self.v[x] = 0;
        }
        self.stack.clear();
        self.key_await = None;
        assert(self@.v =~= power_on().v);
    }

    /// `1NNN`: jump to address `nnn`.
    pub fn opcode_1nnn(&mut self, nnn: u16)
        ensures
            final(self)@ == old(self)@.op_1nnn(nnn),
    {
        self.pc = mask12(nnn as u32);
    }

    /// The byte at the program counter, taken within the address space; the
    /// program counter moves to the next address.
    fn pc_read_byte(&mut self, bus: &impl CpuBus) -> (byte: u8)
        requires
            bus@.wf(),
        ensures
            byte == bus@.memory[wrap12(old(self).pc as int) as int],
            final(self)@ == (CpuState { pc: wrap12(old(self).pc + 1), ..old(self)@ }),
    {
        let byte = bus.read_byte(mask12(self.pc as u32));
        self.pc = mask12(self.pc as u32 + 1);

        byte
    }

    /// The opcode at the program counter, high byte first; the program
    /// counter moves past it.
    fn pc_read_word(&mut self, bus: &impl CpuBus) -> (opcode: u16)
        requires
            bus@.wf(),
        ensures
            opcode == (Machine { cpu: old(self)@, bus: bus@ }).fetch(),
            final(self)@ == (Machine { cpu: old(self)@, bus: bus@ }).advance().cpu,
    {
        let high = self.pc_read_byte(bus);
        let low = self.pc_read_byte(bus);

        assert((high as u16) << 8 | low as u16 == high * 0x100 + low) by (bit_vector);
        (high as u16) << 8 | low as u16
    }

    /// Moves the program counter past the next instruction.
    fn skip(&mut self)
        ensures
            final(self)@ == old(self)@.skip_if(true),
    {
        self.pc = mask12(self.pc as u32 + 2);
    }

    /// One step: while a key is awaited, the keypad is polled and the lowest
    /// key that is down, if any, is stored and ends the wait; otherwise the
    /// opcode at the program counter is fetched and executed.
    pub fn emulate(&mut self, bus: &mut impl CpuBus)
        requires
            old(self)@.wf(),
            old(bus)@.wf(),
        ensures
            exists|random: u8|
                (Machine { cpu: final(self)@, bus: final(bus)@ }) == #[trigger] (Machine {
                    cpu: old(self)@,
                    bus: old(bus)@,
                }).step(random),
            final(self)@.wf(),
            final(bus)@.wf(),
    {
        let ghost start = Machine { cpu: self@, bus: bus@ };
        if self.key_await.is_some() {
            let x = self.key_await.unwrap() as usize;

            let mut key: u8 = 0;
            while key < KEYPAD_SIZE as u8
                invariant_except_break
                    self@ == start.cpu,
                    first_pressed(bus@.keys, key as nat) is None,
                invariant
                    x < V_SIZE,
                    start.cpu.key_await == Some(x as u8),
                    key <= KEYPAD_SIZE,
                    bus@ == start.bus,
                    bus@.wf(),
                ensures
                    (Machine { cpu: self@, bus: bus@ }) == start.poll_key(x as u8),
                decreases KEYPAD_SIZE - key,
            {
                if bus.read_keypad(key) {
                    self.v[x] = key;
                    self.key_await = None;
                    proof {
                        lemma_first_pressed_found(bus@.keys, key, KEYPAD_SIZE as nat);
                    }
                    break;
                }
                key += 1;
            }
            assert((Machine { cpu: self@, bus: bus@ }) == start.step(0));

            return;
        }
        let opcode = self.pc_read_word(bus);

        self.execute(bus, opcode);
        proof {
            let random = choose|random: u8|
                (Machine { cpu: self@, bus: bus@ }) == #[trigger] start.advance().execute(
                    opcode,
                    random,
                );
            lemma_execute_wf(start.advance(), opcode, random);
            assert((Machine { cpu: self@, bus: bus@ }) == start.step(random));
        }
    }

    /// Decodes `opcode` and executes it. An opcode that is no instruction is
    /// ignored.
    #[verifier::rlimit(50)]
    pub fn execute(&mut self, bus: &mut impl CpuBus, opcode: u16)
        requires
            old(bus)@.wf(),
        ensures
            exists|random: u8|
                (Machine { cpu: final(self)@, bus: final(bus)@ }) == #[trigger] (Machine {
                    cpu: old(self)@,
                    bus: old(bus)@,
                }).execute(opcode, random),
    {
        let ghost start = Machine { cpu: self@, bus: bus@ };
        assert((opcode & 0xF000) >> 12 == (opcode / 0x1000) % 0x10) by (bit_vector);
        assert((opcode & 0x0F00) >> 8 == (opcode / 0x100) % 0x10) by (bit_vector);
        assert((opcode & 0x00F0) >> 4 == (opcode / 0x10) % 0x10) by (bit_vector);
        assert(opcode & 0x000F == opcode % 0x10) by (bit_vector);
        assert(opcode & 0x0FFF == opcode % 0x1000) by (bit_vector);
        assert(opcode & 0x00FF == opcode % 0x100) by (bit_vector);
        let nibbles = (
            ((opcode & 0xF000) >> 12) as u8,
            ((opcode & 0x0F00) >> 8) as u8,
            ((opcode & 0x00F0) >> 4) as u8,
            (opcode & 0x000F) as u8,
        );
        let nnn = opcode & 0x0FFF;
        let nn = (opcode & 0x00FF) as u8;

        match nibbles {
            (0x0, 0x0, 0xe, 0x0) => self.opcode_00e0(bus),
            (0x0, 0x0, 0xe, 0xe) => self.opcode_00ee(),
            (0x0, _, _, _) => self.opcode_0nnn(nnn),
            (0x1, _, _, _) => self.opcode_1nnn(nnn),
            (0x2, _, _, _) => self.opcode_2nnn(nnn),
            (0x3, x, _, _) => self.opcode_3xnn(x, nn),
            (0x4, x, _, _) => self.opcode_4xnn(x, nn),
            (0x5, x, y, 0) => self.opcode_5xy0(x, y),
            (0x6, x, _, _) => self.opcode_6xnn(x, nn),
            (0x7, x, _, _) => self.opcode_7xnn(x, nn),
            (0x8, x, y, 0x0) => self.opcode_8xy0(x, y),
            (0x8, x, y, 0x1) => self.opcode_8xy1(x, y),
            (0x8, x, y, 0x2) => self.opcode_8xy2(x, y),
            (0x8, x, y, 0x3) => self.opcode_8xy3(x, y),
            (0x8, x, y, 0x4) => self.opcode_8xy4(x, y),
            (0x8, x, y, 0x5) => self.opcode_8xy5(x, y),
            (0x8, x, y, 0x6) => self.opcode_8xy6(x, y),
            (0x8, x, y, 0x7) => self.opcode_8xy7(x, y),
            (0x8, x, y, 0xe) => self.opcode_8xye(x, y),
            (0x9, x, y, 0x0) => self.opcode_9xy0(x, y),
            (0xa, _, _, _) => self.opcode_annn(nnn),
            (0xb, _, _, _) => self.opcode_bnnn(nnn),
            (0xc, x, _, _) => self.opcode_cxnn(x, nn),
            (0xd, x, y, n) => self.opcode_dxyn(x, y, n, bus),
            (0xe, x, 0x9, 0xe) => self.opcode_ex9e(x, bus),
            (0xe, x, 0xa, 0x1) => self.opcode_exa1(x, bus),
            (0xf, x, 0x0, 0x7) => self.opcode_fx07(x, bus),
            (0xf, x, 0x0, 0xa) => self.opcode_fx0a(x),
            (0xf, x, 0x1, 0x5) => self.opcode_fx15(x, bus),
            (0xf, x, 0x1, 0x8) => self.opcode_fx18(x, bus),
            (0xf, x, 0x1, 0xe) => self.opcode_fx1e(x),
            (0xf, x, 0x2, 0x9) => self.opcode_fx29(x),
            (0xf, x, 0x3, 0x3) => self.opcode_fx33(x, bus),
            (0xf, x, 0x5, 0x5) => self.opcode_fx55(x, bus),
            (0xf, x, 0x6, 0x5) => self.opcode_fx65(x, bus),
            _ => {},
        }
        proof {
            let end = Machine { cpu: self@, bus: bus@ };
            let (op, x, y, n) = nibbles;
            assert(op == nibble(opcode, 3) && x == nibble(opcode, 2) && y == nibble(opcode, 1) && n
                == nibble(opcode, 0));
            if op != 0xc {
                assert(end == start.dispatch(op, x, y, n, nnn, nn, 0));
                assert(end == start.execute(opcode, 0));
            } else {
                let random = choose|random: u8| self@ == #[trigger] start.cpu.op_cxnn(x, nn, random);
                assert(end == start.dispatch(op, x, y, n, nnn, nn, random));
                assert(end == start.execute(opcode, random));
            }
        }
    }

    /// `0NNN`: a call into machine code, which this machine ignores.
    pub fn opcode_0nnn(&mut self, nnn: u16)
        ensures
            final(self)@ == old(self)@,
    {
    }

    /// `00EE`: return from a subroutine; on an empty stack nothing happens.
    pub fn opcode_00ee(&mut self)
        ensures
            final(self)@ == old(self)@.op_00ee(),
    {
        match self.stack.pop() {
            Some(addr) => {
                self.pc = addr;
            },
            None => {},
        }
    }

    /// `2NNN`: call the subroutine at `nnn`.
    pub fn opcode_2nnn(&mut self, nnn: u16)
        ensures
            final(self)@ == old(self)@.op_2nnn(nnn),
    {
        self.stack.push(self.pc);
        self.pc = nnn;
    }

    /// `3XNN`: skip the next instruction if register `x` holds `nn`.
    pub fn opcode_3xnn(&mut self, x: u8, nn: u8)
        requires
            x < V_SIZE,
        ensures
            final(self)@ == old(self)@.op_3xnn(x, nn),
    {
        if self.v[x as usize] == nn {
            self.skip();
        }
    }

    /// `4XNN`: skip the next instruction if register `x` does not hold `nn`.
    pub fn opcode_4xnn(&mut self, x: u8, nn: u8)
        requires
            x < V_SIZE,
        ensures
            final(self)@ == old(self)@.op_4xnn(x, nn),
    {
        if self.v[x as usize] != nn {
            self.skip();
        }
    }

    /// `5XY0`: skip the next instruction if registers `x` and `y` are equal.
    pub fn opcode_5xy0(&mut self, x: u8, y: u8)
        requires
            x < V_SIZE,
            y < V_SIZE,
        ensures
            final(self)@ == old(self)@.op_5xy0(x, y),
    {
        if self.v[x as usize] == self.v[y as usize] {
            self.skip();
        }
    }

    /// `6XNN`: store `nn` in register `x`.
    pub fn opcode_6xnn(&mut self, x: u8, nn: u8)
        requires
            x < V_SIZE,
        ensures
            final(self)@ == old(self)@.op_6xnn(x, nn),
    {
        self.v[x as usize] = nn;
    }

    /// `7XNN`: add `nn` to register `x`, wrapping, without touching the flag.
    pub fn opcode_7xnn(&mut self, x: u8, nn: u8)
        requires
            x < V_SIZE,
        ensures
            final(self)@ == old(self)@.op_7xnn(x, nn),
    {
        let x = x as usize;
        self.v[x] = self.v[x].wrapping_add(nn);
    }

    /// `8XY0`: copy register `y` into register `x`.
    pub fn opcode_8xy0(&mut self, x: u8, y: u8)
        requires
            x < V_SIZE,
            y < V_SIZE,
        ensures
            final(self)@ == old(self)@.op_8xy0(x, y),
    {
        self.v[x as usize] = self.v[y as usize];
    }

    /// `8XY1`: or register `y` into register `x`.
    pub fn opcode_8xy1(&mut self, x: u8, y: u8)
        requires
            x < V_SIZE,
            y < V_SIZE,
        ensures
            final(self)@ == old(self)@.op_8xy1(x, y),
    {
        self.v[x as usize] = self.v[x as usize] | self.v[y as usize];
    }

    /// `8XY2`: and register `y` into register `x`.
    pub fn opcode_8xy2(&mut self, x: u8, y: u8)
        requires
            x < V_SIZE,
            y < V_SIZE,
        ensures
            final(self)@ == old(self)@.op_8xy2(x, y),
    {
        self.v[x as usize] = self.v[x as usize] & self.v[y as usize];
    }

    /// `8XY3`: exclusive-or register `y` into register `x`.
    pub fn opcode_8xy3(&mut self, x: u8, y: u8)
        requires
            x < V_SIZE,
            y < V_SIZE,
        ensures
            final(self)@ == old(self)@.op_8xy3(x, y),
    {
        self.v[x as usize] = self.v[x as usize] ^ self.v[y as usize];
    }

    /// `8XY4`: add register `y` to register `x`; the flag register gets 1 on
    /// a carry and 0 otherwise, also when it is the destination.
    pub fn opcode_8xy4(&mut self, x: u8, y: u8)
        requires
            x < V_SIZE,
            y < V_SIZE,
        ensures
            final(self)@ == old(self)@.op_8xy4(x, y),
    {
        let x = x as usize;
        let y = y as usize;

        let sum: u16 = self.v[x] as u16 + self.v[y] as u16;
        self.v[x] = (sum % 0x100) as u8;
        self.v[0xF] = if sum > 0xFF { 0x01 } else { 0x00 };
    }

    /// `8XY5`: subtract register `y` from register `x`; the flag register
    /// gets 0 on a borrow and 1 otherwise, also when it is the destination.
    pub fn opcode_8xy5(&mut self, x: u8, y: u8)
        requires
            x < V_SIZE,
            y < V_SIZE,
        ensures
            final(self)@ == old(self)@.op_8xy5(x, y),
    {
        let x = x as usize;
        let y = y as usize;

        let borrow = self.v[x] < self.v[y];
        self.v[x] = self.v[x].wrapping_sub(self.v[y]);
        self.v[0xF] = if borrow { 0x00 } else { 0x01 };
    }

    /// `8XY6`: register `x` gets register `y` shifted right by one; the flag
    /// register gets the bit shifted out, also when it is the destination.
    pub fn opcode_8xy6(&mut self, x: u8, y: u8)
        requires
            x < V_SIZE,
            y < V_SIZE,
        ensures
            final(self)@ == old(self)@.op_8xy6(x, y),
    {
        let x = x as usize;
        let y = y as usize;

        let value = self.v[y];
        assert(value >> 1 == value / 2) by (bit_vector);
        assert(value & 0x01 == value % 2) by (bit_vector);
        self.v[x] = value >> 1;
        self.v[0xF] = value & 0x01;
    }

    /// `8XY7`: register `x` gets register `y` minus register `x`; the flag
    /// register gets 0 on a borrow and 1 otherwise, also when it is the
    /// destination.
    pub fn opcode_8xy7(&mut self, x: u8, y: u8)
        requires
            x < V_SIZE,
            y < V_SIZE,
        ensures
            final(self)@ == old(self)@.op_8xy7(x, y),
    {
        let x = x as usize;
        let y = y as usize;

        let borrow = self.v[y] < self.v[x];
        self.v[x] = self.v[y].wrapping_sub(self.v[x]);
        self.v[0xF] = if borrow { 0x00 } else { 0x01 };
    }

    /// `8XYE`: register `x` gets register `y` shifted left by one; the flag
    /// register gets the bit shifted out, also when it is the destination.
    pub fn opcode_8xye(&mut self, x: u8, y: u8)
        requires
            x < V_SIZE,
            y < V_SIZE,
        ensures
            final(self)@ == old(self)@.op_8xye(x, y),
    {
        let x = x as usize;
        let y = y as usize;

        let value = self.v[y];
        assert(value << 1 == (value * 2) % 0x100) by (bit_vector);
        assert((value & 0x80) >> 7 == value / 0x80) by (bit_vector);
        self.v[x] = value << 1;
        self.v[0xF] = (value & 0x80) >> 7;
    }

    /// `9XY0`: skip the next instruction if registers `x` and `y` differ.
    pub fn opcode_9xy0(&mut self, x: u8, y: u8)
        requires
            x < V_SIZE,
            y < V_SIZE,
        ensures
            final(self)@ == old(self)@.op_9xy0(x, y),
    {
        if self.v[x as usize] != self.v[y as usize] {
            self.skip();
        }
    }

    /// `ANNN`: store `nnn` in the index register.
    pub fn opcode_annn(&mut self, nnn: u16)
        ensures
            final(self)@ == old(self)@.op_annn(nnn),
    {
        self.i = nnn;
    }

    /// `BNNN`: jump to `nnn` plus register 0, within the address space.
    pub fn opcode_bnnn(&mut self, nnn: u16)
        ensures
            final(self)@ == old(self)@.op_bnnn(nnn),
    {
        self.pc = mask12(nnn as u32 + self.v[0] as u32);
    }

    /// `00E0`: clear the display.
    pub fn opcode_00e0(&mut self, bus: &mut impl CpuBus)
        requires
            old(bus)@.wf(),
        ensures
            final(self)@ == old(self)@,
            final(bus)@ == old(bus)@.op_00e0(),
    {
        bus.clear_screen();
    }

    /// `CXNN` with the random byte given: register `x` gets `random` masked
    /// by `nn`.
    pub fn opcode_cxnn_with(&mut self, x: u8, nn: u8, random: u8)
        requires
            x < V_SIZE,
        ensures
            final(self)@ == old(self)@.op_cxnn(x, nn, random),
    {
        self.v[x as usize] = random & nn;
    }

    /// `CXNN`: register `x` gets a random byte masked by `nn`.
    pub fn opcode_cxnn(&mut self, x: u8, nn: u8)
        requires
            x < V_SIZE,
        ensures
            exists|random: u8| final(self)@ == #[trigger] old(self)@.op_cxnn(x, nn, random),
    {
        let random = random_byte();
        self.opcode_cxnn_with(x, nn, random);
    }

    /// `DXYN`: draw the sprite of `n` rows that memory holds at the index
    /// register, at the coordinates in registers `x` and `y`, with
    /// wraparound. A cell of the sprite that is set flips the cell of the
    /// display under it. The flag register is cleared first and gets 1 when a
    /// cell of the display goes from set to unset.
    #[verifier::rlimit(50)]
    pub fn opcode_dxyn(&mut self, x: u8, y: u8, n: u8, bus: &mut impl CpuBus)
        requires
            x < V_SIZE,
            y < V_SIZE,
            old(bus)@.wf(),
        ensures
            (Machine { cpu: final(self)@, bus: final(bus)@ }) == (Machine {
                cpu: old(self)@,
                bus: old(bus)@,
            }).op_dxyn(x, y, n),
            final(bus)@.wf(),
    {
        let ghost start = Machine { cpu: self@, bus: bus@ };
        self.v[0xF] = 0x0;

        let mut h: u8 = 0;
        while h < n
            invariant
                x < V_SIZE,
                y < V_SIZE,
                h <= n,
                bus@.wf(),
                (Machine { cpu: self@, bus: bus@ }) == start.draw_rows(x, y, h as nat),
            decreases n - h,
        {
            let ghost row_start = Machine { cpu: self@, bus: bus@ };
            let sprite_line = bus.read_byte(mask12(self.i as u32 + h as u32));
            let py = self.v[y as usize].wrapping_add(h);
            assert(start.draw_rows(x, y, (h + 1) as nat) == row_start.draw_row(
                x,
                sprite_line,
                py,
                8,
            ));

            let mut w: u8 = 0;
            while w < 8
                invariant
                    x < V_SIZE,
                    w <= 8,
                    bus@.wf(),
                    (Machine { cpu: self@, bus: bus@ }) == row_start.draw_row(
                        x,
                        sprite_line,
                        py,
                        w as nat,
                    ),
                decreases 8 - w,
            {
                let px = self.v[x as usize].wrapping_add(w);

                assert(((sprite_line << w) & 0x80 > 0) == sprite_bit(sprite_line, w))
                    by (bit_vector)
                    requires
                        w < 8,
                ;
                let toggle = (sprite_line << w) & 0x80 > 0;

                if toggle {
                    let pixel = bus.read_screen(px, py);

                    if pixel {
                        self.v[0xF] = 0x1;
                    }

                    proof {
                        lemma_set_pixel_wf(bus@.screen, px as int, py as int, !pixel);
                    }
                    bus.write_screen(px, py, !pixel);
                }
                w += 1;
            }
            h += 1;
        }
    }

    /// `EX9E`: skip the next instruction if the key that register `x` names
    /// is down. A value that names no key counts as a key that is up.
    pub fn opcode_ex9e(&mut self, x: u8, bus: &impl CpuBus)
        requires
            x < V_SIZE,
            bus@.wf(),
        ensures
            final(self)@ == old(self)@.op_ex9e(x, bus@.keys),
    {
        let key = self.v[x as usize];
        if key < 16 && bus.read_keypad(key) {
            self.skip();
        }
    }

    /// `EXA1`: skip the next instruction if the key that register `x` names
    /// is not down. A value that names no key counts as a key that is up.
    pub fn opcode_exa1(&mut self, x: u8, bus: &impl CpuBus)
        requires
            x < V_SIZE,
            bus@.wf(),
        ensures
            final(self)@ == old(self)@.op_exa1(x, bus@.keys),
    {
        let key = self.v[x as usize];
        if !(key < 16 && bus.read_keypad(key)) {
            self.skip();
        }
    }

    /// `FX07`: register `x` gets the delay counter.
    pub fn opcode_fx07(&mut self, x: u8, bus: &impl CpuBus)
        requires
            x < V_SIZE,
        ensures
            final(self)@ == old(self)@.op_fx07(x, bus@.timer),
    {
        self.v[x as usize] = bus.read_timer();
    }

    /// `FX15`: the delay counter gets register `x`.
    pub fn opcode_fx15(&mut self, x: u8, bus: &mut impl CpuBus)
        requires
            x < V_SIZE,
        ensures
            final(self)@ == old(self)@,
            final(bus)@ == old(bus)@.op_fx15(old(self)@.reg(x)),
    {
        bus.write_timer(self.v[x as usize]);
    }

    /// `FX18`: the sound counter gets register `x`.
    pub fn opcode_fx18(&mut self, x: u8, bus: &mut impl CpuBus)
        requires
            x < V_SIZE,
        ensures
            final(self)@ == old(self)@,
            final(bus)@ == old(bus)@.op_fx18(old(self)@.reg(x)),
    {
        bus.write_sound(self.v[x as usize]);
    }

    /// `FX33`: store the decimal digits of register `x` at the index
    /// register and the two addresses after it, hundreds first.
    pub fn opcode_fx33(&mut self, x: u8, bus: &mut impl CpuBus)
        requires
            x < V_SIZE,
            old(bus)@.wf(),
        ensures
            final(self)@ == old(self)@,
            final(bus)@ == old(bus)@.op_fx33(old(self)@.i, old(self)@.reg(x)),
    {
        let value = self.v[x as usize];

        bus.write_byte(mask12(self.i as u32 + 2), value % 10);
        bus.write_byte(mask12(self.i as u32 + 1), (value / 10) % 10);
        bus.write_byte(mask12(self.i as u32), value / 100);
    }

    /// `FX55`: store registers 0 to `x` in memory from the index register
    /// on, then move the index register past them.
    pub fn opcode_fx55(&mut self, x: u8, bus: &mut impl CpuBus)
        requires
            x < V_SIZE,
            old(bus)@.wf(),
        ensures
            final(self)@ == old(self)@.advance_index(x),
            final(bus)@ == old(bus)@.op_fx55(old(self)@.i, x, old(self)@.v),
    {
        let mut k: u8 = 0;
        while k <= x
            invariant
                x < V_SIZE,
                k <= x + 1,
                *self == *old(self),
                bus@ == (BusState { memory: bus@.memory, ..old(bus)@ }),
                bus@.wf(),
                forall|a: int|
                    0 <= a < MEMORY_SIZE ==> bus@.memory[a] == (if (a - self.i) % 0x1000 < k {
                        self.v@[(a - self.i) % 0x1000]
                    } else {
                        old(bus)@.memory[a]
                    }),
            decreases x + 1 - k,
        {
            bus.write_byte(mask12(self.i as u32 + k as u32), self.v[k as usize]);
            k += 1;
        }
        assert(bus@.memory =~= old(bus)@.op_fx55(self.i, x, self.v@).memory);

        self.i = mask12(self.i as u32 + x as u32 + 1);
    }

    /// `FX65`: load registers 0 to `x` from memory at the index register,
    /// then move the index register past them.
    pub fn opcode_fx65(&mut self, x: u8, bus: &mut impl CpuBus)
        requires
            x < V_SIZE,
            old(bus)@.wf(),
        ensures
            final(self)@ == old(self)@.op_fx65(x, old(bus)@.memory),
            *final(bus) == *old(bus),
    {
        let mut k: u8 = 0;
        while k <= x
            invariant
                x < V_SIZE,
                k <= x + 1,
                bus@.wf(),
                *bus == *old(bus),
                self@ == (CpuState { v: self@.v, ..old(self)@ }),
                forall|r: int|
                    0 <= r < V_SIZE ==> self.v@[r] == (if r < k {
                        bus@.memory[wrap12(self.i + r) as int]
                    } else {
                        old(self).v@[r]
                    }),
            decreases x + 1 - k,
        {
            self.v[k as usize] = bus.read_byte(mask12(self.i as u32 + k as u32));
            k += 1;
        }
        assert(self.v@ =~= old(self)@.loaded_registers(x, bus@.memory));

        self.i = mask12(self.i as u32 + x as u32 + 1);
    }

    /// `FX0A`: wait for a key press, to be stored in register `x`.
    pub fn opcode_fx0a(&mut self, x: u8)
        requires
            x < V_SIZE,
        ensures
            final(self)@ == old(self)@.op_fx0a(x),
    {
        self.key_await = Some(x);
    }

    /// `FX1E`: add register `x` to the index register, within the address
    /// space.
    pub fn opcode_fx1e(&mut self, x: u8)
        requires
            x < V_SIZE,
        ensures
            final(self)@ == old(self)@.op_fx1e(x),
    {
        self.i = mask12(self.i as u32 + self.v[x as usize] as u32);
    }

    /// `FX29`: point the index register at the glyph of the digit in
    /// register `x`.
    pub fn opcode_fx29(&mut self, x: u8)
        requires
            x < V_SIZE,
        ensures
            final(self)@ == old(self)@.op_fx29(x),
    {
        self.i = mask12(SPRITE_ADDR as u32 + self.v[x as usize] as u32 * 5);
    }
}

/// What the processor asks of its peripherals.
///
/// Every method is stated over the value `self@`, which holds memory, display,
/// keypad and counters; a method changes the part it names and nothing else.
pub trait CpuBus {
    /// The peripherals as a value.
    spec fn view(&self) -> BusState;

    /// The byte at `addr`. Callers keep `addr` within the address space.
    fn read_byte(&self, addr: u16) -> (byte: u8)
        requires
            self@.wf(),
            addr < MEMORY_SIZE,
        ensures
            byte == self@.memory[addr as int],
    ;

    /// Stores `byte` at `addr`. Callers keep `addr` within the address space.
    fn write_byte(&mut self, addr: u16, byte: u8)
        requires
            old(self)@.wf(),
            addr < MEMORY_SIZE,
        ensures
            final(self)@ == (BusState {
                memory: old(self)@.memory.update(addr as int, byte),
                ..old(self)@
            }),
    ;

    /// Whether key `key` is down.
    fn read_keypad(&self, key: u8) -> (pressed: bool)
        requires
            self@.wf(),
            key < KEYPAD_SIZE,
        ensures
            pressed == self@.keys[key as int],
    ;

    /// Unsets every cell of the display.
    fn clear_screen(&mut self)
        requires
            old(self)@.wf(),
        ensures
            final(self)@ == (BusState { screen: blank_screen(), ..old(self)@ }),
    ;

    /// The cell at `(x, y)`, both taken with wraparound.
    fn read_screen(&self, x: u8, y: u8) -> (value: bool)
        requires
            self@.wf(),
        ensures
            value == pixel(self@.screen, x as int, y as int),
    ;

    /// Sets the cell at `(x, y)`, both taken with wraparound.
    fn write_screen(&mut self, x: u8, y: u8, value: bool)
        requires
            old(self)@.wf(),
        ensures
            final(self)@ == (BusState {
                screen: set_pixel(old(self)@.screen, x as int, y as int, value),
                ..old(self)@
            }),
    ;

    /// The delay counter.
    fn read_timer(&self) -> (value: u8)
        ensures
            value == self@.timer,
    ;

    /// Sets the delay counter.
    fn write_timer(&mut self, value: u8)
        ensures
            final(self)@ == (BusState { timer: value, ..old(self)@ }),
    ;

    /// Sets the sound counter.
    fn write_sound(&mut self, value: u8)
        ensures
            final(self)@ == (BusState { sound: value, ..old(self)@ }),
    ;
}

} // verus!
