use vstd::prelude::*;
use crate::bus::KEYPAD_SIZE;
use crate::isa::{first_pressed, lemma_first_pressed_found, nibble, wrap12};
use crate::state::{pixel, screen_wf, set_pixel, CpuState, Machine, Screen, FLAG, V_SIZE};

verus! {

/// The opcode with the nibbles `op`, `x`, `y` and `n`, highest first.
pub open spec fn opcode_of(op: u8, x: u8, y: u8, n: u8) -> u16 {
    (op * 0x1000 + x * 0x100 + y * 0x10 + n) as u16
}

/// An opcode built from four nibbles decodes into them.
pub proof fn lemma_decode(op: u8, x: u8, y: u8, n: u8)
    requires
        op < 16,
        x < 16,
        y < 16,
        n < 16,
    ensures
        nibble(opcode_of(op, x, y, n), 3) == op,
        nibble(opcode_of(op, x, y, n), 2) == x,
        nibble(opcode_of(op, x, y, n), 1) == y,
        nibble(opcode_of(op, x, y, n), 0) == n,
        opcode_of(op, x, y, n) % 0x1000 == x * 0x100 + y * 0x10 + n,
        opcode_of(op, x, y, n) % 0x100 == y * 0x10 + n,
{
    let opcode = opcode_of(op, x, y, n);
    assert(opcode == op * 0x1000 + x * 0x100 + y * 0x10 + n);
    assert(opcode % 0x10 == n && (opcode / 0x10) % 0x10 == y && (opcode / 0x100) % 0x10 == x && (
    opcode / 0x1000) % 0x10 == op && opcode % 0x1000 == x * 0x100 + y * 0x10 + n && opcode % 0x100
        == y * 0x10 + n) by (bit_vector)
        requires
            opcode == op * 0x1000 + x * 0x100 + y * 0x10 + n,
            op < 16,
            x < 16,
            y < 16,
            n < 16,
    ;
}

/// After `6XNN`, register `x` holds exactly `nn`, whatever the machine held
/// before, and nothing else has changed.
pub proof fn lemma_load_constant(m: Machine, x: u8, nn: u8, random: u8)
    requires
        m.wf(),
        x < V_SIZE,
    ensures
        m.cpu.op_6xnn(x, nn).reg(x) == nn,
        m.execute(opcode_of(6, x, nn / 16, nn % 16), random) == (Machine {
            cpu: m.cpu.op_6xnn(x, nn),
            ..m
        }),
{
    lemma_decode(6, x, nn / 16, nn % 16);
}

/// After `7XNN`, register `x` holds its old value plus `nn` modulo 256, a
/// value of eight bits; every other register is as it was, so the flag
/// register is untouched unless it is the register added to.
pub proof fn lemma_add_constant(m: Machine, x: u8, nn: u8, random: u8)
    requires
        m.wf(),
        x < V_SIZE,
    ensures
        m.cpu.op_7xnn(x, nn).reg(x) == (m.cpu.reg(x) + nn) % 256,
        0 <= m.cpu.op_7xnn(x, nn).reg(x) <= 255,
        forall|r: u8| r < V_SIZE && r != x ==> m.cpu.op_7xnn(x, nn).reg(r) == m.cpu.reg(r),
        x != FLAG ==> m.cpu.op_7xnn(x, nn).reg(FLAG as u8) == m.cpu.reg(FLAG as u8),
        m.execute(opcode_of(7, x, nn / 16, nn % 16), random) == (Machine {
            cpu: m.cpu.op_7xnn(x, nn),
            ..m
        }),
{
    lemma_decode(7, x, nn / 16, nn % 16);
}

/// `00EE` on an empty call stack changes nothing: the program counter stays
/// where it is.
pub proof fn lemma_return_on_empty_stack(m: Machine, random: u8)
    requires
        m.cpu.stack.len() == 0,
    ensures
        m.cpu.op_00ee() == m.cpu,
        m.execute(0x00EE, random) == m,
{
    lemma_decode(0, 0, 0xE, 0xE);
}

/// What the first pressed key is: a key that is down with every key below
/// it up; and there is none exactly when no key is down.
pub proof fn lemma_first_pressed(keys: Seq<bool>, n: nat)
    requires
        n <= 256,
    ensures
        match first_pressed(keys, n) {
            Some(key) => key < n && keys[key as int] && forall|k: int| 0 <= k < key ==> !keys[k],
            None => forall|k: int| 0 <= k < n ==> !keys[k],
        },
    decreases n,
{
    if n > 0 {
        lemma_first_pressed(keys, (n - 1) as nat);
    }
}

/// `FX0A` starts a key wait for register `x` and has no other effect than
/// that the program counter has moved past it.
pub proof fn lemma_key_wait_begins(m: Machine, x: u8, random: u8)
    requires
        m.wf(),
        x < V_SIZE,
        m.cpu.key_await is None,
        m.fetch() == opcode_of(0xF, x, 0x0, 0xA),
    ensures
        m.step(random) == (Machine {
            cpu: CpuState { key_await: Some(x), pc: wrap12(m.cpu.pc + 2), ..m.cpu },
            ..m
        }),
{
    lemma_decode(0xF, x, 0x0, 0xA);
}

/// While the machine waits for a key and no key is down, a step changes
/// nothing, and so do any number of steps: the program counter stays where
/// it is.
pub proof fn lemma_key_wait_holds(m: Machine, randoms: Seq<u8>)
    requires
        m.cpu.key_await is Some,
        forall|k: int| 0 <= k < KEYPAD_SIZE ==> !m.bus.keys[k],
    ensures
        m.run(randoms) == m,
        forall|random: u8| #[trigger] m.step(random) == m,
    decreases randoms.len(),
{
    lemma_first_pressed(m.bus.keys, KEYPAD_SIZE as nat);
    if randoms.len() > 0 {
        lemma_key_wait_holds(m, randoms.drop_last());
    }
}

/// While the machine waits for a key for register `x` and key `key` is the
/// lowest that is down, a step stores `key` in register `x` and ends the
/// wait, with the program counter and everything else as they were; the step
/// after that fetches and executes the next instruction.
pub proof fn lemma_key_wait_ends(m: Machine, x: u8, key: u8, random: u8, next: u8)
    requires
        m.wf(),
        m.cpu.key_await == Some(x),
        key < KEYPAD_SIZE,
        m.bus.keys[key as int],
        forall|k: int| 0 <= k < key ==> !m.bus.keys[k],
    ensures
        m.step(random) == (Machine {
            cpu: CpuState { key_await: None, v: m.cpu.v.update(x as int, key), ..m.cpu },
            ..m
        }),
        m.step(random).cpu.reg(x) == key,
        m.step(random).cpu.pc == m.cpu.pc,
        m.step(random).step(next) == m.step(random).advance().execute(
            m.step(random).fetch(),
            next,
        ),
{
    lemma_first_pressed(m.bus.keys, key as nat);
    lemma_first_pressed_found(m.bus.keys, key, KEYPAD_SIZE as nat);
}

/// Registers 0 to `x`, stored by `FX55` and loaded again by `FX65` from the
/// same index, come back as they were, whatever the registers held in
/// between; and each of the two instructions moves the index register on by
/// `x + 1` within the address space.
pub proof fn lemma_store_then_load(m: Machine, x: u8, between: CpuState)
    requires
        m.wf(),
        x < V_SIZE,
        between.wf(),
        between.i == m.cpu.i,
    ensures
        ({
            let stored = m.bus.op_fx55(m.cpu.i, x, m.cpu.v);
            let loaded = between.op_fx65(x, stored.memory);
            &&& forall|k: int| 0 <= k <= x ==> loaded.v[k] == m.cpu.v[k]
            &&& forall|k: int| x < k < V_SIZE ==> loaded.v[k] == between.v[k]
            &&& loaded.i == wrap12(m.cpu.i + x + 1)
            &&& m.cpu.advance_index(x).i == wrap12(m.cpu.i + x + 1)
        }),
        between.v == m.cpu.v ==> between.op_fx65(x, m.bus.op_fx55(m.cpu.i, x, m.cpu.v).memory).v
            == m.cpu.v,
{
    let stored = m.bus.op_fx55(m.cpu.i, x, m.cpu.v);
    let loaded = between.op_fx65(x, stored.memory);
    assert forall|k: int| 0 <= k <= x implies loaded.v[k] == m.cpu.v[k] by {
        let a = wrap12(m.cpu.i + k) as int;
        assert((a - m.cpu.i) % 0x1000 == k);
    }
    if between.v == m.cpu.v {
        assert(loaded.v =~= m.cpu.v);
    }
}

/// Coordinates wrap around the display: a cell written or read 64 columns
/// further right, or 32 rows further down, is the same cell. So column 64 is
/// column 0 and row 32 is row 0.
pub proof fn lemma_pixel_wraps(s: Screen, x: int, y: int, value: bool)
    ensures
        set_pixel(s, x + 64, y, value) == set_pixel(s, x, y, value),
        set_pixel(s, x, y + 32, value) == set_pixel(s, x, y, value),
        pixel(s, x + 64, y) == pixel(s, x, y),
        pixel(s, x, y + 32) == pixel(s, x, y),
        set_pixel(s, 64, y, value) == set_pixel(s, 0, y, value),
        set_pixel(s, x, 32, value) == set_pixel(s, x, 0, value),
{
}

} // verus!
