use chip8::cpu::{Cpu, CpuBus, SPRITE_ADDR};
use chip8::state::BusState;


pub const SCREEN_W: usize = 64;
pub const SCREEN_H: usize = 32;

struct BusTest {
    screen: Vec<Vec<bool>>,
    memory: Vec<u8>,
    keypad: Vec<bool>,
    timer: u8,
    sound: u8,
    clear_screen_call: usize,
}

impl CpuBus for BusTest {
    // The ghost value of the bus: contracts speak of it, and nothing runs it.
    fn view(&self) -> BusState {
        unreachable!()
    }

    fn read_byte(&self, addr: u16) -> u8 {
        self.memory[addr as usize]
    }

    fn write_byte(&mut self, addr: u16, byte: u8) {
        self.memory[addr as usize] = byte;
    }

    fn read_keypad(&self, key: u8) -> bool {
        self.keypad[key as usize]
    }

    fn clear_screen(&mut self) {
        self.clear_screen_call += 1;
    }

    fn read_screen(&self, x: u8, y: u8) -> bool {
        self.screen[x as usize % SCREEN_W][y as usize % SCREEN_H]
    }

    fn write_screen(&mut self, x: u8, y: u8, pixel: bool) {
        self.screen[x as usize % SCREEN_W][y as usize % SCREEN_H] = pixel
    }

    fn read_timer(&self) -> u8 {
        self.timer
    }

    fn write_timer(&mut self, value: u8) {
        self.timer = value;
    }

    fn write_sound(&mut self, value: u8) {
        self.sound = value;
    }
}

fn create_cpu() -> Cpu {
    let mut cpu = Cpu::new();

    for x in 0..=0xE {
        cpu.v[x] = (42 + (1 + x * 0x5F)) as u8;
    }

    cpu
}

fn create_bus() -> BusTest {
    BusTest {
        screen: vec![vec![false; SCREEN_H]; SCREEN_W],
        memory: vec![0; 0x1000],
        keypad: vec![false; 16],
        timer: 0,
        sound: 0,
        clear_screen_call: 0,
    }
}

fn create_cpu_with_bus() -> (Cpu, BusTest) {
    (create_cpu(), create_bus())
}

fn clear_screen(bus: &mut BusTest) {
    for w in 0..SCREEN_W {
        for h in 0..SCREEN_H {
            bus.screen[w][h] = false;
        }
    }
}

#[test]
fn test_opcode_0nnn() {
    let mut cpu = create_cpu();
    cpu.opcode_0nnn(0x0000);
}

#[test]
fn test_opcode_00e0() {
    let (mut cpu, mut bus) = create_cpu_with_bus();
    bus.clear_screen_call = 0;

    cpu.opcode_00e0(&mut bus);
    assert_eq!(bus.clear_screen_call, 1);
}

#[test]
fn test_opcode_00ee() {
    let mut cpu = create_cpu();

    cpu.pc = 0x100;
    cpu.stack.push(0x0200);

    cpu.opcode_00ee();

    assert_eq!(0x0200, cpu.pc);

    cpu.pc = 0x100;
    cpu.opcode_00ee(); // stack empty
    assert_eq!(0x100, cpu.pc);
}

#[test]
fn test_opcode_1nnn() {
    let mut cpu = create_cpu();
    cpu.pc = 0x100;

    for nnn in 0..0x0FFF_u16 {
        cpu.opcode_1nnn(nnn);
        assert_eq!(nnn, cpu.pc); // jump to nnn
    }
}

#[test]
fn test_opcode_2nnn() {
    let mut cpu = create_cpu();

    cpu.pc = 0x100;

    cpu.opcode_2nnn(0x0200);
    assert_eq!(0x0100, cpu.stack[0]);
    assert_eq!(0x0200, cpu.pc);

    cpu.opcode_2nnn(0x0FFF);
    assert_eq!(0x0100, cpu.stack[0]);
    assert_eq!(0x0200, cpu.stack[1]);
    assert_eq!(0x0FFF, cpu.pc);

    cpu.opcode_2nnn(0x0555);
    assert_eq!(0x0100, cpu.stack[0]);
    assert_eq!(0x0200, cpu.stack[1]);
    assert_eq!(0x0FFF, cpu.stack[2]);
    assert_eq!(0x0555, cpu.pc);
}

#[test]
fn test_opcode_3xnn() {
    let mut cpu = create_cpu();

    for x in 0..=0xE {
        for nn in 0..=0xFF {
            cpu.pc = 0x100;
            cpu.v[x as usize] = nn;

            cpu.opcode_3xnn(x, nn);
            assert_eq!(0x102, cpu.pc); // jump

            cpu.opcode_3xnn(x, nn.wrapping_add(0x55));
            assert_eq!(0x102, cpu.pc); // no jump

            cpu.opcode_3xnn(x, nn);
            assert_eq!(0x104, cpu.pc); // jump
        }
    }
}

#[test]
fn test_opcode_4xnn() {
    let mut cpu = create_cpu();

    for x in 0..=0xE {
        for nn in 0..=0xFF {
            cpu.pc = 0x100;
            cpu.v[x as usize] = nn;

            cpu.opcode_4xnn(x, nn);
            assert_eq!(0x100, cpu.pc); // no jump

            cpu.opcode_4xnn(x, nn.wrapping_add(0x55));
            assert_eq!(0x102, cpu.pc); // jump

            cpu.opcode_4xnn(x, nn);
            assert_eq!(0x102, cpu.pc); // no jump
        }
    }
}

#[test]
fn test_opcode_5xy0() {
    let mut cpu = create_cpu();
    cpu.pc = 0x100;

    let x = 0u8;
    let y = 1u8;
    cpu.v[x as usize] = 0xFF;
    cpu.v[y as usize] = 0x55;

    cpu.opcode_5xy0(x, y);
    assert_eq!(0x100, cpu.pc); // no jump

    cpu.v[x as usize] = 0x55;
    cpu.opcode_5xy0(x, y);
    assert_eq!(0x102, cpu.pc); // jump
}

#[test]
fn test_opcode_6xnn() {
    let mut cpu = create_cpu();

    for x in 0..=0xE {
        for nn in 0..=0xFF {
            cpu.opcode_6xnn(x, nn);
            assert_eq!(cpu.v[x as usize], nn);
        }
    }
}

#[test]
fn test_opcode_7xnn() {
    let mut cpu = create_cpu();
    cpu.v[0] = 0x55;
    cpu.v[0xF] = 0x00;

    cpu.opcode_7xnn(0, 0x05);
    assert_eq!(cpu.v[0], 0x5A);
    assert_eq!(cpu.v[0xF], 0x0);

    cpu.opcode_7xnn(0, 0xAF); // overflow but no carry flag
    assert_eq!(cpu.v[0], 0x09);
    assert_eq!(cpu.v[0xF], 0x0);
}

#[test]
fn test_opcode_8xy0() {
    for x in 0..=0xE {
        for y in 0..=0xE {
            let mut cpu = create_cpu();
            cpu.opcode_8xy0(x, y);
            assert_eq!(cpu.v[x as usize], cpu.v[y as usize]);
        }
    }
}

#[test]
fn test_opcode_8xy1() {
    for x in 0..=0xE {
        for y in 0..=0xE {
            let mut cpu = create_cpu();
            let expected = cpu.v[x as usize] | cpu.v[y as usize];
            cpu.opcode_8xy1(x, y);
            assert_eq!(cpu.v[x as usize], expected);
        }
    }
}

#[test]
fn test_opcode_8xy2() {
    for x in 0..=0xE {
        for y in 0..=0xE {
            let mut cpu = create_cpu();
            let expected = cpu.v[x as usize] & cpu.v[y as usize];

            cpu.opcode_8xy2(x, y);
            assert_eq!(cpu.v[x as usize], expected);
        }
    }
}

#[test]
fn test_opcode_8xy3() {
    for x in 0..=0xE {
        for y in 0..=0xE {
            let mut cpu = create_cpu();
            let expected = cpu.v[x as usize] ^ cpu.v[y as usize];

            cpu.opcode_8xy3(x, y);
            assert_eq!(cpu.v[x as usize], expected);
        }
    }
}

#[test]
fn test_opcode_8xy4() {
    let mut cpu = create_cpu();
    cpu.v[0] = 0x55;
    cpu.v[0xF] = 0x00;

    cpu.v[1] = 0x05;
    cpu.opcode_8xy4(0, 1);
    assert_eq!(cpu.v[0], 0x5A);
    assert_eq!(cpu.v[1], 0x05);
    assert_eq!(cpu.v[0xF], 0x0);

    cpu.v[1] = 0xAF;
    cpu.opcode_8xy4(0, 1); // overflow -> carry flag
    assert_eq!(cpu.v[0], 0x09);
    assert_eq!(cpu.v[1], 0xAF);
    assert_eq!(cpu.v[0xF], 0x01);

    cpu.v[1] = 0x05;
    cpu.opcode_8xy4(0, 1); // clear flag
    assert_eq!(cpu.v[0], 0x0E);
    assert_eq!(cpu.v[1], 0x05);
    assert_eq!(cpu.v[0xF], 0x00);

    //test with Vf
    cpu.v[0xF] = 0xF5;
    cpu.v[1] = 0x10;
    cpu.opcode_8xy4(0xF, 1);
    assert_eq!(cpu.v[1], 0x10);
    assert_eq!(cpu.v[0xF], 0x01);

    cpu.v[0xF] = 0x50;
    cpu.v[1] = 0x10;
    cpu.opcode_8xy4(0xF, 1);
    assert_eq!(cpu.v[1], 0x10);
    assert_eq!(cpu.v[0xF], 0x00);
}

#[test]
fn test_opcode_8xy5() {
    let mut cpu = create_cpu();
    cpu.v[0] = 0x55;
    cpu.v[0xF] = 0x00;

    cpu.v[1] = 0x05;
    cpu.opcode_8xy5(0, 1);
    assert_eq!(cpu.v[0], 0x50);
    assert_eq!(cpu.v[0xF], 0x01);

    cpu.v[1] = 0x5A;
    cpu.opcode_8xy5(0, 1); // overflow -> carry flag
    assert_eq!(cpu.v[0], 0xF6);
    assert_eq!(cpu.v[0xF], 0x00);

    cpu.v[1] = 0x01;
    cpu.opcode_8xy5(0, 1); // clear flag
    assert_eq!(cpu.v[0], 0xF5);
    assert_eq!(cpu.v[0xF], 0x01);

    // test with Vf
    cpu.v[0xF] = 33;
    cpu.v[0] = 0x01;
    cpu.opcode_8xy5(0xF, 0);
    assert_eq!(cpu.v[0xF], 0x01);
    assert_eq!(cpu.v[0], 0x01);

    cpu.v[0xF] = 33;
    cpu.v[0] = 0x55;
    cpu.opcode_8xy5(0xF, 0);
    assert_eq!(cpu.v[0xF], 0x00);
    assert_eq!(cpu.v[0], 0x55);
}

#[test]
fn test_opcode_8xy6() {
    let mut cpu = create_cpu();
    cpu.v[0] = 0x00;
    cpu.v[1] = 0x05;
    cpu.v[0xF] = 0x00;

    cpu.opcode_8xy6(0, 1);
    assert_eq!(cpu.v[0], 0x02);
    assert_eq!(cpu.v[1], 0x05);
    assert_eq!(cpu.v[0xF], 0x01);

    cpu.v[1] = 0x02;
    cpu.opcode_8xy6(0, 1);
    assert_eq!(cpu.v[0], 0x01);
    assert_eq!(cpu.v[1], 0x02);
    assert_eq!(cpu.v[0xF], 0x00);

    //test with Vf
    cpu.v[0xf] = 0x55;
    cpu.v[1] = 0x05;
    cpu.opcode_8xy6(0xf, 1);
    assert_eq!(cpu.v[1], 0x05);
    assert_eq!(cpu.v[0xF], 0x01);

    cpu.v[0xf] = 0x55;
    cpu.v[1] = 0x02;
    cpu.opcode_8xy6(0xf, 1);
    assert_eq!(cpu.v[1], 0x02);
    assert_eq!(cpu.v[0xF], 0x00);
}

#[test]
fn test_opcode_8xy7() {
    let mut cpu = create_cpu();
    cpu.v[0] = 0x01;
    cpu.v[1] = 0x05;
    cpu.v[0xF] = 0x00;

    cpu.opcode_8xy7(0, 1);
    assert_eq!(cpu.v[0], 0x04);
    assert_eq!(cpu.v[1], 0x05);
    assert_eq!(cpu.v[0xF], 0x01);

    cpu.opcode_8xy7(0, 1);
    assert_eq!(cpu.v[0], 0x01);
    assert_eq!(cpu.v[1], 0x05);
    assert_eq!(cpu.v[0xF], 0x01);

    cpu.v[0] = 0x10;
    cpu.opcode_8xy7(0, 1);
    assert_eq!(cpu.v[0], 0xF5);
    assert_eq!(cpu.v[1], 0x05);
    assert_eq!(cpu.v[0xF], 0x00);

    cpu.v[0] = 0x02;
    cpu.opcode_8xy7(0, 1);
    assert_eq!(cpu.v[0], 0x03);
    assert_eq!(cpu.v[1], 0x05);
    assert_eq!(cpu.v[0xF], 0x01);

    cpu.v[0] = 0x05;
    cpu.opcode_8xy7(0, 1);
    assert_eq!(cpu.v[0], 0x00);
    assert_eq!(cpu.v[1], 0x05);
    assert_eq!(cpu.v[0xF], 0x01);

    cpu.v[0] = 0x06;
    cpu.opcode_8xy7(0, 1);
    assert_eq!(cpu.v[0], 0xFF);
    assert_eq!(cpu.v[1], 0x05);
    assert_eq!(cpu.v[0xF], 0x00);

    // test with VF
    cpu.v[0xF] = 0x23;
    cpu.v[0x1] = 0x05;
    cpu.opcode_8xy7(0xF, 1);
    assert_eq!(cpu.v[0xF], 0x00);
    assert_eq!(cpu.v[1], 0x05);

    cpu.v[0xF] = 0x23;
    cpu.v[0x1] = 0x33;
    cpu.opcode_8xy7(0xF, 1);
    assert_eq!(cpu.v[0xF], 0x01);
    assert_eq!(cpu.v[1], 0x33);
}

#[test]
fn test_opcode_8xye() {
    let mut cpu = create_cpu();
    cpu.v[0] = 0xFF;
    cpu.v[1] = 0x50;
    cpu.v[0xF] = 0x00;

    cpu.opcode_8xye(0, 1);
    assert_eq!(cpu.v[0], 0xA0);
    assert_eq!(cpu.v[1], 0x50);
    assert_eq!(cpu.v[0xF], 0x00);

    cpu.v[1] = 0xA0;
    cpu.opcode_8xye(0, 1);
    assert_eq!(cpu.v[0], 0x40);
    assert_eq!(cpu.v[1], 0xA0);
    assert_eq!(cpu.v[0xF], 0x01);

    cpu.v[1] = 0x01;
    cpu.opcode_8xye(0, 1);
    assert_eq!(cpu.v[0], 0x02);
    assert_eq!(cpu.v[1], 0x01);
    assert_eq!(cpu.v[0xF], 0x00);

    //test with Vf

    cpu.v[1] = 0xA0;
    cpu.opcode_8xye(0xF, 1);
    assert_eq!(cpu.v[1], 0xA0);
    assert_eq!(cpu.v[0xF], 0x01);

    cpu.v[1] = 0x01;
    cpu.opcode_8xye(0xF, 1);
    assert_eq!(cpu.v[1], 0x01);
    assert_eq!(cpu.v[0xF], 0x00);
}

#[test]
fn test_opcode_9xy0() {
    let mut cpu = create_cpu();
    cpu.pc = 0x0200;
    cpu.v[0] = 0xFF;
    cpu.v[1] = 0x50;

    cpu.opcode_9xy0(0, 1);
    assert_eq!(cpu.pc, 0x0202);

    cpu.v[0] = 0x22;
    cpu.v[1] = 0x22;
    cpu.opcode_9xy0(0, 1);
    assert_eq!(cpu.pc, 0x0202);
}

#[test]
fn test_opcode_annn() {
    let mut cpu = create_cpu();
    cpu.i = 0x0200;

    cpu.opcode_annn(0x0123);
    assert_eq!(cpu.i, 0x0123);
}

#[test]
fn test_opcode_bnnn() {
    let mut cpu = create_cpu();
    cpu.pc = 0x0200;
    cpu.v[0] = 0x11;

    cpu.opcode_bnnn(0x0123);
    assert_eq!(cpu.pc, 0x0134);
}

#[test]
fn test_opcode_cxnn() {
    let mut cpu = create_cpu();
    cpu.pc = 0x0200;
    cpu.v[0] = 0x00;

    for _i in 0..1000 {
        cpu.opcode_cxnn(0, 0xF0);
        assert!(cpu.v[0] & 0x0F == 0);

        cpu.opcode_cxnn(0, 0xAA);
        assert!(cpu.v[0] & 0x55 == 0);
    }
}

#[test]
fn test_opcode_dxyn_draw() {
    let (mut cpu, mut bus) = create_cpu_with_bus();

    //  draw sprite
    bus.memory[0x500] = 0b1000_0001;
    bus.memory[0x501] = 0b0100_0001;
    bus.memory[0x502] = 0b0010_0001;
    bus.memory[0x503] = 0b0001_0001;
    bus.memory[0x504] = 0b0000_1001;
    bus.memory[0x505] = 0b0000_0101;
    bus.memory[0x506] = 0b0000_0011;
    bus.memory[0x507] = 0b0000_0001;

    for n in 0..=0xF {
        clear_screen(&mut bus);

        cpu.i = 0x500;
        cpu.v[0] = 0;
        cpu.v[1] = 10;
        cpu.v[0xF] = 0xFF;
        cpu.opcode_dxyn(0, 1, n as u8, &mut bus);

        assert_eq!(cpu.v[0xF], 0x00);

        for h in 0..8_usize {
            let line = bus.memory[0x500 + h];
            for w in 0..8_usize {
                assert_eq!(
                    bus.read_screen(w as u8, (h as u8).wrapping_add(10)),
                    (line << w) & 0x80 > 0 && h < n
                );
            }
        }
    }
}

#[test]
fn test_opcode_dxyn_collision() {
    let (mut cpu, mut bus) = create_cpu_with_bus();

    clear_screen(&mut bus);
    bus.memory[0x500] = 0b1000_0000;
    cpu.i = 0x500;
    cpu.v[0] = 0;
    cpu.v[1] = 0;
    cpu.v[0xF] = 0xFF;

    cpu.opcode_dxyn(0, 1, 1, &mut bus);
    assert_eq!(cpu.v[0xF], 0x00);
    assert_eq!(bus.screen[0][0], true);

    cpu.opcode_dxyn(0, 1, 1, &mut bus);
    assert_eq!(cpu.v[0xF], 0x01);
    assert_eq!(bus.screen[0][0], false);
}

#[test]
fn test_opcode_dxyn_wrap_h() {
    let (mut cpu, mut bus) = create_cpu_with_bus();

    clear_screen(&mut bus);
    bus.memory[0x500] = 0b0000_0011;
    cpu.i = 0x500;
    cpu.v[0] = SCREEN_W as u8 - 7;
    cpu.v[1] = 0;
    cpu.v[0xF] = 0x00;

    cpu.opcode_dxyn(0, 1, 1, &mut bus);
    assert_eq!(cpu.v[0xF], 0x00);
    assert_eq!(bus.screen[0][0], true);
    assert_eq!(bus.screen[SCREEN_W - 1][0], true);

    // clear one pixel
    bus.memory[0x500] = 0b0000_0001;
    cpu.opcode_dxyn(0, 1, 1, &mut bus);
    assert_eq!(cpu.v[0xF], 0x01);
    assert_eq!(bus.screen[0][0], false);
    assert_eq!(bus.screen[SCREEN_W - 1][0], true);
}

#[test]
fn test_opcode_dxyn_wrap_v() {
    let (mut cpu, mut bus) = create_cpu_with_bus();

    clear_screen(&mut bus);
    bus.memory[0x500] = 0b1000_0000;
    bus.memory[0x501] = 0b1000_0000;
    bus.memory[0x502] = 0b1000_0000;
    cpu.i = 0x500;
    cpu.v[0] = 0;
    cpu.v[1] = SCREEN_H as u8 - 2;
    cpu.v[0xF] = 0x00;

    cpu.opcode_dxyn(0, 1, 3, &mut bus);
    assert_eq!(cpu.v[0xF], 0x00);
    assert_eq!(bus.screen[0][0], true);
    assert_eq!(bus.screen[0][SCREEN_H - 1], true);
    assert_eq!(bus.screen[0][SCREEN_H - 2], true);

    // clear one pixel
    bus.memory[0x500] = 0b0000_0000;
    bus.memory[0x501] = 0b0000_0000;
    bus.memory[0x502] = 0b1000_0000;
    cpu.opcode_dxyn(0, 1, 3, &mut bus);
    assert_eq!(cpu.v[0xF], 0x01);
    assert_eq!(bus.screen[0][0], false);
    assert_eq!(bus.screen[0][SCREEN_H - 1], true);
    assert_eq!(bus.screen[0][SCREEN_H - 2], true);
}

#[test]
fn test_opcode_ex9e() {
    let (mut cpu, mut bus) = create_cpu_with_bus();
    cpu.v[1] = 0x5;
    cpu.pc = 0x0300;
    bus.keypad[0x5] = false;

    cpu.opcode_ex9e(1, &mut bus);
    assert_eq!(cpu.pc, 0x0300);

    bus.keypad[0x5] = true;
    cpu.opcode_ex9e(1, &mut bus);
    assert_eq!(cpu.pc, 0x0302);
}

#[test]
fn test_opcode_exa1() {
    let (mut cpu, mut bus) = create_cpu_with_bus();
    cpu.v[1] = 0x5;
    cpu.pc = 0x0300;
    bus.keypad[0x5] = false;

    cpu.opcode_exa1(1, &mut bus);
    assert_eq!(cpu.pc, 0x0302);

    bus.keypad[0x5] = true;
    cpu.opcode_exa1(1, &mut bus);
    assert_eq!(cpu.pc, 0x0302);
}

#[test]
fn test_opcode_fx07() {
    let (mut cpu, mut bus) = create_cpu_with_bus();
    cpu.v[1] = 0x5;
    bus.timer = 0xA0;

    cpu.opcode_fx07(1, &mut bus);
    assert_eq!(cpu.v[1], 0xA0);
}

#[test]
fn test_opcode_fx0a() {
    let (mut cpu, mut bus) = create_cpu_with_bus();

    for key in 0..=0xF {
        for x in 0..=0xF {
            cpu.pc = 0x400;
            cpu.v[x] = 0x00;
            cpu.opcode_fx0a(x as u8);

            for _clk in 0..1000 {
                cpu.emulate(&mut bus);
            }
            assert_eq!(cpu.pc, 0x0400);

            bus.keypad[key] = true;
            cpu.emulate(&mut bus);

            assert_eq!(cpu.pc, 0x0400);
            assert_eq!(cpu.v[x], key as u8);

            cpu.emulate(&mut bus); // next intruction
            assert_eq!(cpu.pc, 0x0402);

            bus.keypad[key] = false;
        }
    }
}

#[test]
fn test_opcode_fx15() {
    let (mut cpu, mut bus) = create_cpu_with_bus();
    cpu.v[1] = 0x55;
    cpu.opcode_fx15(1, &mut bus);
    assert_eq!(bus.timer, 0x55);
}

#[test]
fn test_opcode_fx18() {
    let (mut cpu, mut bus) = create_cpu_with_bus();
    cpu.v[1] = 0x55;
    cpu.opcode_fx18(1, &mut bus);
    assert_eq!(bus.sound, 0x55);
}

#[test]
fn test_opcode_fx1e() {
    let mut cpu = create_cpu();
    cpu.i = 0x0100;
    cpu.v[1] = 0x55;
    cpu.v[0xF] = 0x12;
    cpu.opcode_fx1e(1);

    assert_eq!(cpu.i, 0x155);
    assert_eq!(cpu.v[1], 0x55);
    assert_eq!(cpu.v[0xF], 0x12);

    cpu.i = 0x0FFF;
    cpu.v[1] = 0x01;
    cpu.opcode_fx1e(1);
    assert_eq!(cpu.i, 0x000);
    assert_eq!(cpu.v[1], 0x01);
    assert_eq!(cpu.v[0xF], 0x12);
}

#[test]
fn test_opcode_fx29() {
    let mut cpu = create_cpu();
    cpu.i = 0x0100;

    cpu.v[1] = 0x0;
    cpu.opcode_fx29(1);
    assert_eq!(cpu.i, SPRITE_ADDR);

    cpu.v[1] = 0x1;
    cpu.opcode_fx29(1);
    assert_eq!(cpu.i, SPRITE_ADDR + 5);

    cpu.v[1] = 0x32;
    cpu.opcode_fx29(1);
    assert_eq!(cpu.i, SPRITE_ADDR + (0x32 * 5));

    cpu.v[1] = 0xFF;
    cpu.opcode_fx29(1);
    assert_eq!(cpu.i, SPRITE_ADDR + (0xFF * 5));
}

#[test]
fn test_opcode_fx33() {
    let (mut cpu, mut bus) = create_cpu_with_bus();

    cpu.v[1] = 123;
    cpu.i = 0x0500;
    cpu.opcode_fx33(1, &mut bus);
    assert_eq!(bus.memory[cpu.i as usize], 1);
    assert_eq!(bus.memory[cpu.i as usize + 1], 2);
    assert_eq!(bus.memory[cpu.i as usize + 2], 3);

    cpu.v[1] = 255;
    cpu.i = 0x0500;
    cpu.opcode_fx33(1, &mut bus);
    assert_eq!(bus.memory[cpu.i as usize], 2);
    assert_eq!(bus.memory[cpu.i as usize + 1], 5);
    assert_eq!(bus.memory[cpu.i as usize + 2], 5);

    cpu.v[1] = 0;
    cpu.i = 0x0500;
    cpu.opcode_fx33(1, &mut bus);
    assert_eq!(bus.memory[cpu.i as usize], 0);
    assert_eq!(bus.memory[cpu.i as usize + 1], 0);
    assert_eq!(bus.memory[cpu.i as usize + 2], 0);
}

#[test]
fn test_opcode_fx55() {
    let (mut cpu, mut bus) = create_cpu_with_bus();

    for x in 0..=0xF {
        cpu.v[x] = x as u8;
        bus.memory[0x500 + x] = 0x00;
    }

    for x in 0..=0xF {
        cpu.i = 0x500;
        cpu.opcode_fx55(x, &mut bus);
        for x in 0..=x as usize {
            assert_eq!(bus.memory[0x500 + x], cpu.v[x]);
        }

        assert_eq!(cpu.i, 0x500 + x as u16 + 1);
    }
}

#[test]
fn test_opcode_fx65() {
    let (mut cpu, mut bus) = create_cpu_with_bus();

    for x in 0..=0xF {
        bus.memory[0x500 + x] = x as u8;
    }

    for x in 0..=0xF {
        cpu.i = 0x500;

        for x in 0..=0xF {
            cpu.v[x] = 0x00;
        }

        cpu.opcode_fx65(x, &mut bus);
        for x in 0..=x as usize {
            assert_eq!(cpu.v[x], bus.memory[0x500 + x]);
        }

        assert_eq!(cpu.i, 0x500 + x as u16 + 1);
    }
}
