use vstd::prelude::*;
use crate::cpu::{CpuBus, SPRITE_ADDR};
use crate::rom::Rom;
use crate::state::{blank_screen, set_pixel, BusState, Screen, MEMORY_SIZE};

verus! {

/// Columns of the display.
pub const DISPLAY_WIDTH: usize = 64;

/// Rows of the display.
pub const DISPLAY_HEIGHT: usize = 32;

/// Number of keys on the keypad.
pub const KEYPAD_SIZE: usize = 16;

/// The glyphs of the hexadecimal digits, five rows each, four cells wide.
pub const FONT4X5: [u8; 80] = [
    0xF0, 0x90, 0x90, 0x90, 0xF0,
    0x20, 0x60, 0x20, 0x20, 0x70,
    0xF0, 0x10, 0xF0, 0x80, 0xF0,
    0xF0, 0x10, 0xF0, 0x10, 0xF0,
    0x90, 0x90, 0xF0, 0x10, 0x10,
    0xF0, 0x80, 0xF0, 0x10, 0xF0,
    0xF0, 0x80, 0xF0, 0x90, 0xF0,
    0xF0, 0x10, 0x20, 0x40, 0x40,
    0xF0, 0x90, 0xF0, 0x90, 0xF0,
    0xF0, 0x90, 0xF0, 0x10, 0xF0,
    0xF0, 0x90, 0xF0, 0x90, 0x90,
    0xE0, 0x90, 0xE0, 0x90, 0xE0,
    0xF0, 0x80, 0x80, 0x80, 0xF0,
    0xE0, 0x90, 0x90, 0x90, 0xE0,
    0xF0, 0x80, 0xF0, 0x80, 0xF0,
    0xF0, 0x80, 0xF0, 0x80, 0x80,
];

/// Where a program is loaded.
pub const PROGRAM_START: usize = 0x200;

/// The four bytes of a lit cell in a frame of 32 bits a cell: blue, green,
/// red, alpha.
pub const LIT_CELL: [u8; 4] = [13, 209, 124, 0x99];

/// Number of bytes in a frame.
pub const FRAME_SIZE: usize = 8192;

/// Byte `k` of the frame that shows `screen`: cells row by row, four bytes a
/// cell, those of `LIT_CELL` for a set cell and zero for an unset one.
pub open spec fn frame_byte(screen: Screen, k: int) -> u8 {
    if screen[(k / 4) % 64][(k / 4) / 64] {
        LIT_CELL@[k % 4]
    } else {
        0
    }
}

/// The peripherals of one machine.
pub struct Bus {
    pub memory: [u8; 0x1000],
    pub vram: [[bool; DISPLAY_HEIGHT]; DISPLAY_WIDTH],
    pub keys: [bool; KEYPAD_SIZE],
    pub delay: u8,
    pub beep: u8,
}

/// Memory at power-on: the font at the bottom, the program from
/// `PROGRAM_START` on, zero elsewhere.
pub open spec fn initial_memory(program: Seq<u8>) -> Seq<u8> {
    Seq::new(
        MEMORY_SIZE as nat,
        |a: int|
            if a < 80 {
                FONT4X5@[a]
            } else if PROGRAM_START <= a < PROGRAM_START + program.len() {
                program[a - PROGRAM_START]
            } else {
                0u8
            },
    )
}

/// Memory with the font stored at its bottom.
pub open spec fn with_font(memory: Seq<u8>) -> Seq<u8> {
    Seq::new(memory.len(), |a: int| if a < 80 { FONT4X5@[a] } else { memory[a] })
}

impl Bus {
    /// The display as a value.
    pub open spec fn screen(&self) -> Screen {
        Seq::new(DISPLAY_WIDTH as nat, |x: int| self.vram@[x]@)
    }

    /// The peripherals at power-on, with `rom` loaded.
    ///
    /// The program has to fit between `PROGRAM_START` and the end of memory.
    pub fn new(rom: Rom) -> (bus: Bus)
        requires
            rom@.len() <= MEMORY_SIZE - PROGRAM_START,
        ensures
            bus@ == (BusState {
                memory: initial_memory(rom@),
                screen: blank_screen(),
                keys: Seq::new(KEYPAD_SIZE as nat, |k: int| false),
                timer: 0,
                sound: 0,
            }),
            bus@.wf(),
    {
        let mut memory = [0u8; 0x1000];

        Bus::load_font4x5(&mut memory);

        let size = rom.size();
        for addr in 0..size
            invariant
                size == rom@.len(),
                size <= MEMORY_SIZE - PROGRAM_START,
                forall|a: int|
                    0 <= a < MEMORY_SIZE ==> memory@[a] == (if a < 80 {
                        FONT4X5@[a]
                    } else if PROGRAM_START <= a < PROGRAM_START + addr {
                        rom@[a - PROGRAM_START]
                    } else {
                        0u8
                    }),
        {
            memory[0x200 + addr] = rom.read(addr as u16);
        }

        let vram = [[false; DISPLAY_HEIGHT]; DISPLAY_WIDTH];
        let keys = [false; KEYPAD_SIZE];

        let bus = Bus { memory, vram, keys, delay: 0, beep: 0 };
        proof {
            assert(bus@.memory =~= initial_memory(rom@));
            assert(bus@.screen =~~= blank_screen());
            assert(bus@.keys =~= Seq::new(KEYPAD_SIZE as nat, |k: int| false));
        }
        bus
    }

    /// The display as a frame of 32 bits a cell, row by row.
    pub fn frame(&self) -> (data: Vec<u8>)
        ensures
            data@ == Seq::new(FRAME_SIZE as nat, |k: int| frame_byte(self@.screen, k)),
    {
        let mut data: Vec<u8> = Vec::with_capacity(FRAME_SIZE);
        for k in 0..FRAME_SIZE
            invariant
                data@.len() == k,
                forall|j: int| 0 <= j < k ==> data@[j] == frame_byte(self@.screen, j),
        {
            let cell = k / 4;
            let lit = self.vram[cell % DISPLAY_WIDTH][cell / DISPLAY_WIDTH];
            data.push(if lit { LIT_CELL[k % 4] } else { 0 });
        }
        assert(data@ =~= Seq::new(FRAME_SIZE as nat, |k: int| frame_byte(self@.screen, k)));
        data
    }

    fn load_font4x5(memory: &mut [u8])
        requires
            old(memory)@.len() >= 80,
        ensures
            final(memory)@ == with_font(old(memory)@),
    {
        for i in 0..80usize
            invariant
                memory@.len() == old(memory)@.len(),
                memory@.len() >= 80,
                forall|a: int|
                    0 <= a < memory@.len() ==> memory@[a] == (if a < i {
                        FONT4X5@[a]
                    } else {
                        old(memory)@[a]
                    }),
        {
            memory[i + SPRITE_ADDR as usize] = FONT4X5[i];
        }
        assert(memory@ =~= with_font(old(memory)@));
    }
}

impl CpuBus for Bus {
    open spec fn view(&self) -> BusState {
        BusState {
            memory: self.memory@,
            screen: self.screen(),
            keys: self.keys@,
            timer: self.delay,
            sound: self.beep,
        }
    }

    fn read_byte(&self, addr: u16) -> (byte: u8) {
        self.memory[addr as usize]
    }

    fn write_byte(&mut self, addr: u16, byte: u8) {
        self.memory[addr as usize] = byte;
        assert(self@.screen =~~= old(self)@.screen);
    }

    fn read_keypad(&self, key: u8) -> (pressed: bool) {
        self.keys[key as usize]
    }

    fn clear_screen(&mut self) {
        for w in 0..DISPLAY_WIDTH
            invariant
                self.memory == old(self).memory,
                self.keys == old(self).keys,
                self.delay == old(self).delay,
                self.beep == old(self).beep,
                forall|x: int, y: int|
                    0 <= x < w && 0 <= y < DISPLAY_HEIGHT ==> !(#[trigger] self.vram@[x]@[y]),
        {
            for h in 0..DISPLAY_HEIGHT
                invariant
                    w < DISPLAY_WIDTH,
                    self.memory == old(self).memory,
                    self.keys == old(self).keys,
                    self.delay == old(self).delay,
                    self.beep == old(self).beep,
                    forall|x: int, y: int|
                        0 <= x < w && 0 <= y < DISPLAY_HEIGHT ==> !(#[trigger] self.vram@[x]@[y]),
                    forall|y: int| 0 <= y < h ==> !(#[trigger] self.vram@[w as int]@[y]),
            {
                self.vram[w][h] = false;
            }
        }
        assert(self@.screen =~~= blank_screen());
    }

    fn read_screen(&self, x: u8, y: u8) -> (value: bool) {
        self.vram[x as usize % DISPLAY_WIDTH][y as usize % DISPLAY_HEIGHT]
    }

    fn write_screen(&mut self, x: u8, y: u8, value: bool) {
        self.vram[x as usize % DISPLAY_WIDTH][y as usize % DISPLAY_HEIGHT] = value;
        assert(self@.screen =~~= set_pixel(old(self)@.screen, x as int, y as int, value));
    }

    fn read_timer(&self) -> (value: u8) {
        self.delay
    }

    fn write_timer(&mut self, value: u8) {
        self.delay = value;
    }

    fn write_sound(&mut self, value: u8) {
        self.beep = value;
    }
}

} // verus!
