//! The executable machine.

use vstd::prelude::*;
use crate::font::{font_bytes, FONT_SIZE, GLYPH_SIZE};
use crate::laws::law_unrecognized;
use crate::model::{
    blank_display, family, first_pressed, first_pressed_from, n_of, nn_of, nnn_of, recognized,
    x_of, y_of, Fault, Machine, DISPLAY_CELLS, DISPLAY_HEIGHT, DISPLAY_WIDTH, FLAG_REGISTER,
    KEY_COUNT, MEMORY_SIZE, PROGRAM_ORIGIN, REGISTER_COUNT, STACK_DEPTH,
};
use crate::sprite::{
    lemma_sprite_cell, lemma_sprite_position, sprite_cell, sprite_col, sprite_covers, sprite_row,
};

verus! {

/// A CHIP-8 machine: memory, registers, call stack, timers, key latch and
/// display, together with the instruction set that acts on them.
pub struct Emulator {
    program_counter: u16,
    ram: [u8; MEMORY_SIZE],
    screen: [bool; DISPLAY_CELLS],
    registers: [u8; REGISTER_COUNT],
    i_register: u16,
    stack_pointer: u16,
    stack: [u16; STACK_DEPTH],
    keys: [bool; KEY_COUNT],
    delay_timer: u8,
    sound_timer: u8,
    awaiting: Option<u8>,
    entropy: u16,
}

impl View for Emulator {
    type V = Machine;

    closed spec fn view(&self) -> Machine {
        Machine {
            pc: self.program_counter,
            memory: self.ram@,
            display: self.screen@,
            registers: self.registers@,
            index: self.i_register,
            depth: self.stack_pointer,
            stack: self.stack@,
            keys: self.keys@,
            delay: self.delay_timer,
            sound: self.sound_timer,
            awaiting: self.awaiting,
            entropy: self.entropy,
        }
    }
}

/// The fields of an instruction word.
struct Fields {
    family: usize,
    x: usize,
    y: usize,
    n: usize,
    nn: u8,
    nnn: u16,
}

impl Fields {
    /// Splits an instruction word into its nibbles and immediates.
    fn of(opcode: u16) -> (fields: Fields)
        ensures
            fields.family == family(opcode),
            fields.x == x_of(opcode),
            fields.y == y_of(opcode),
            fields.n == n_of(opcode),
            fields.nn == nn_of(opcode),
            fields.nnn == nnn_of(opcode),
    {
        let hex_1: u16 = (opcode & 0xF000) >> 12;
        let hex_2: u16 = (opcode & 0x0F00) >> 8;
        let hex_3: u16 = (opcode & 0x00F0) >> 4;
        let hex_4: u16 = opcode & 0x000F;
        let low_byte: u16 = opcode & 0x00FF;
        let address: u16 = opcode & 0x0FFF;
        proof {
            assert((opcode & 0xF000) >> 12 == opcode / 4096) by (bit_vector);
            assert((opcode & 0x0F00) >> 8 == (opcode / 256) % 16) by (bit_vector);
            assert((opcode & 0x00F0) >> 4 == (opcode / 16) % 16) by (bit_vector);
            assert(opcode & 0x000F == opcode % 16) by (bit_vector);
            assert(opcode & 0x00FF == opcode % 256) by (bit_vector);
            assert(opcode & 0x0FFF == opcode % 4096) by (bit_vector);
        }
        Fields {
            family: hex_1 as usize,
            x: hex_2 as usize,
            y: hex_3 as usize,
            n: hex_4 as usize,
            nn: low_byte as u8,
            nnn: address,
        }
    }
}

/// The sum of two bytes modulo 256, and 1 where the sum passed 255.
fn sum_with_carry(a: u8, b: u8) -> (r: (u8, u8))
    ensures
        r.0 == (a + b) % 256,
        r.1 == if a + b > 255 { 1u8 } else { 0u8 },
{
    let carry: u8 = if a > u8::MAX - b { 1 } else { 0 };
    (a.wrapping_add(b), carry)
}

/// The difference `a - b` modulo 256, and 0 where it had to borrow.
fn difference_with_borrow(a: u8, b: u8) -> (r: (u8, u8))
    ensures
        r.0 == (a - b) % 256,
        r.1 == if a < b { 0u8 } else { 1u8 },
{
    let no_borrow: u8 = if a < b { 0 } else { 1 };
    (a.wrapping_sub(b), no_borrow)
}

/// A byte shifted right by one, and the bit that left it.
fn halved(a: u8) -> (r: (u8, u8))
    ensures
        r.0 == a / 2,
        r.1 == a % 2,
{
    let lsb: u8 = a & 1;
    let shifted: u8 = a >> 1;
    assert(lsb == a % 2 && shifted == a / 2) by (bit_vector)
        requires
            lsb == a & 1,
            shifted == a >> 1,
    ;
    (shifted, lsb)
}

/// A byte shifted left by one, and the bit that left it.
fn doubled(a: u8) -> (r: (u8, u8))
    ensures
        r.0 == (a * 2) % 256,
        r.1 == a / 128,
{
    let msb: u8 = (a >> 7) & 1;
    let shifted: u8 = a << 1;
    assert(msb == a / 128 && shifted == (a * 2) % 256) by (bit_vector)
        requires
            msb == (a >> 7) & 1,
            shifted == a << 1,
    ;
    (shifted, msb)
}

/// Copies the first `count` bytes of `bytes` into memory from `at` on.
fn write_bytes(memory: &mut [u8; MEMORY_SIZE], at: usize, bytes: &[u8], count: usize)
    requires
        count <= bytes@.len(),
        at + count <= MEMORY_SIZE,
    ensures
        forall|a: int| at <= a < at + count ==> final(memory)@[a] == bytes@[a - at],
        forall|a: int|
            0 <= a < MEMORY_SIZE && !(at <= a < at + count) ==> final(memory)@[a] == old(
                memory,
            )@[a],
{
    let mut i: usize = 0;
    while i < count
        invariant
            i <= count,
            count <= bytes@.len(),
            at + count <= MEMORY_SIZE,
            forall|a: int| at <= a < at + i ==> memory@[a] == bytes@[a - at],
            forall|a: int|
                0 <= a < MEMORY_SIZE && !(at <= a < at + i) ==> memory@[a] == old(memory)@[a],
        decreases count - i,
    {
        memory[at + i] = bytes[i];
        i += 1;
    }
}

/// Fills the first `count` registers from memory from `at` on.
fn read_bytes(
    registers: &mut [u8; REGISTER_COUNT],
    memory: &[u8; MEMORY_SIZE],
    at: usize,
    count: usize,
)
    requires
        count <= REGISTER_COUNT,
        at + count <= MEMORY_SIZE,
    ensures
        forall|r: int| 0 <= r < count ==> final(registers)@[r] == memory@[at + r],
        forall|r: int| count <= r < REGISTER_COUNT ==> final(registers)@[r] == old(registers)@[r],
{
    let mut i: usize = 0;
    while i < count
        invariant
            i <= count,
            count <= REGISTER_COUNT,
            at + count <= MEMORY_SIZE,
            forall|r: int| 0 <= r < i ==> registers@[r] == memory@[at + r],
            forall|r: int| i <= r < REGISTER_COUNT ==> registers@[r] == old(registers)@[r],
        decreases count - i,
    {
        registers[i] = memory[at + i];
        i += 1;
    }
}

/// Place of a cell's sprite pixel in drawing order: row after row, left to
/// right.
spec fn sprite_order(cell: int, vx: u8, vy: u8) -> int {
    sprite_row(cell, vy) * 8 + sprite_col(cell, vx)
}

/// Draws the sprite of `rows` rows that memory holds from `base` on, with
/// its corner at (`vx`, `vy`): every cell under a set pixel is flipped.
/// Says whether a lit cell went off.
fn blit(
    screen: &mut [bool; DISPLAY_CELLS],
    memory: &[u8; MEMORY_SIZE],
    base: usize,
    vx: u8,
    vy: u8,
    rows: usize,
) -> (collision: bool)
    requires
        rows < 16,
        rows > 0 ==> base + rows <= MEMORY_SIZE,
    ensures
        forall|cell: int|
            0 <= cell < DISPLAY_CELLS ==> #[trigger] final(screen)@[cell] == (old(screen)@[cell]
                != sprite_covers(memory@, base as int, vx, vy, rows as int, cell)),
        collision <==> exists|cell: int|
            0 <= cell < DISPLAY_CELLS && #[trigger] old(screen)@[cell] && sprite_covers(
                memory@,
                base as int,
                vx,
                vy,
                rows as int,
                cell,
            ),
{
    proof {
        assert forall|cell: int| 0 <= cell < DISPLAY_CELLS implies sprite_order(cell, vx, vy)
            >= 0 by {
            lemma_sprite_position(vx, vy, cell);
        }
    }
    let mut collision = false;
    let mut k: usize = 0;
    while k < rows * 8
        invariant
            k <= rows * 8,
            rows < 16,
            rows > 0 ==> base + rows <= MEMORY_SIZE,
            forall|cell: int|
                0 <= cell < DISPLAY_CELLS ==> #[trigger] screen@[cell] == (old(screen)@[cell] != (
                sprite_covers(memory@, base as int, vx, vy, rows as int, cell) && sprite_order(
                    cell,
                    vx,
                    vy,
                ) < k)),
            collision <==> exists|cell: int|
                0 <= cell < DISPLAY_CELLS && #[trigger] old(screen)@[cell] && sprite_covers(
                    memory@,
                    base as int,
                    vx,
                    vy,
                    rows as int,
                    cell,
                ) && sprite_order(cell, vx, vy) < k,
        decreases rows * 8 - k,
    {
        let row: usize = k / 8;
        let col: usize = k % 8;
        let px: usize = (vx as usize + col) % DISPLAY_WIDTH;
        let py: usize = (vy as usize + row) % DISPLAY_HEIGHT;
        let target: usize = py * DISPLAY_WIDTH + px;
        let byte: u8 = memory[base + row];
        let lit: bool = byte & (0x80u8 >> (col as u8)) != 0;
        proof {
            lemma_sprite_cell(vx, vy, row as int, col as int);
            assert(target == sprite_cell(vx, vy, row as int, col as int));
            assert(lit == sprite_covers(memory@, base as int, vx, vy, rows as int, target as int));
            assert forall|cell: int|
                0 <= cell < DISPLAY_CELLS && sprite_col(cell, vx) < 8 && sprite_order(cell, vx, vy)
                    == k implies cell == target by {
                lemma_sprite_position(vx, vy, cell);
            }
        }
        if lit {
            if screen[target] {
                collision = true;
            }
            screen[target] = !screen[target];
        }
        k += 1;
    }
    collision
}

impl Emulator {
    /// Whether the machine is in a state that its operations keep.
    pub open spec fn wf(&self) -> bool {
        self@.valid()
    }

    /// Builds a machine in its initial state.
    pub fn new() -> (machine: Emulator)
        ensures
            machine.wf(),
            machine@ == Machine::initial(),
    {
        let mut machine = Emulator {
            program_counter: PROGRAM_ORIGIN,
            ram: [0; MEMORY_SIZE],
            screen: [false; DISPLAY_CELLS],
            registers: [0; REGISTER_COUNT],
            i_register: 0,
            stack_pointer: 0,
            stack: [0; STACK_DEPTH],
            keys: [false; KEY_COUNT],
            delay_timer: 0,
            sound_timer: 0,
            awaiting: None,
            entropy: 0,
        };
        machine.load_fonts();
        proof {
            let initial = Machine::initial();
            assert(machine@.memory =~= initial.memory);
            assert(machine@.display =~= initial.display);
            assert(machine@.registers =~= initial.registers);
            assert(machine@.stack =~= initial.stack);
            assert(machine@.keys =~= initial.keys);
        }
        machine
    }

    /// Copies the font table to the bottom of memory.
    pub fn load_fonts(&mut self)
        ensures
            old(self).wf() ==> final(self).wf(),
            final(self)@ == old(self)@.font_loaded(),
    {
        let table = font_bytes();
        write_bytes(&mut self.ram, 0, table.as_slice(), FONT_SIZE);
        assert(self@.memory =~= old(self)@.font_loaded().memory);
    }

    /// Puts the machine back into its initial state, whatever state it is
    /// in. A program image has to be loaded again afterwards.
    pub fn reset(&mut self)
        ensures
            final(self).wf(),
            final(self)@ == Machine::initial(),
    {
        *self = Emulator::new();
    }

    /// One step of the timers, to be taken sixty times a second: each timer
    /// above zero goes down by one.
    pub fn timer_tick(&mut self)
        ensures
            final(self)@ == old(self)@.timers_ticked(),
            old(self).wf() ==> final(self).wf(),
    {
        if self.delay_timer > 0 {
            self.delay_timer -= 1;
        }
        if self.sound_timer > 0 {
            self.sound_timer -= 1;
        }
    }

    /// Reads the instruction word at the program counter and moves the
    /// counter past it. Fails, and changes nothing, where the word does not
    /// lie within memory.
    pub fn fetch(&mut self) -> (r: Result<u16, Fault>)
        requires
            old(self).wf(),
        ensures
            final(self).wf(),
            match old(self)@.fetched() {
                Ok((m, opcode)) => r == Ok::<u16, Fault>(opcode) && final(self)@ == m,
                Err(fault) => r == Err::<u16, Fault>(fault) && final(self)@ == old(self)@,
            },
    {
        let at: usize = self.program_counter as usize;
        if at + 1 >= MEMORY_SIZE {
            return Err(Fault::OutOfBounds);
        }
        let higher_byte: u16 = self.ram[at] as u16;
        let lower_byte: u16 = self.ram[at + 1] as u16;
        let opcode: u16 = (higher_byte << 8) | lower_byte;
        assert(opcode == higher_byte * 256 + lower_byte) by (bit_vector)
            requires
                higher_byte < 256,
                lower_byte < 256,
                opcode == (higher_byte << 8) | lower_byte,
        ;
        self.program_counter += 2;
        Ok(opcode)
    }

    /// Pushes a return address onto the call stack. Fails, and changes
    /// nothing, where the stack is full.
    pub fn push(&mut self, val: u16) -> (r: Result<(), Fault>)
        requires
            old(self).wf(),
        ensures
            final(self).wf(),
            match old(self)@.pushed(val) {
                Ok(m) => r is Ok && final(self)@ == m,
                Err(fault) => r == Err::<(), Fault>(fault) && final(self)@ == old(self)@,
            },
    {
        if self.stack_pointer as usize >= STACK_DEPTH {
            return Err(Fault::StackExhausted);
        }
        self.stack[self.stack_pointer as usize] = val;
        self.stack_pointer += 1;
        Ok(())
    }

    /// Pops the latest return address off the call stack. Fails, and
    /// changes nothing, where the stack is empty.
    pub fn pop(&mut self) -> (r: Result<u16, Fault>)
        requires
            old(self).wf(),
        ensures
            final(self).wf(),
            match old(self)@.popped() {
                Ok((m, address)) => r == Ok::<u16, Fault>(address) && final(self)@ == m,
                Err(fault) => r == Err::<u16, Fault>(fault) && final(self)@ == old(self)@,
            },
    {
        if self.stack_pointer == 0 {
            return Err(Fault::StackExhausted);
        }
        self.stack_pointer -= 1;
        Ok(self.stack[self.stack_pointer as usize])
    }

    /// Moves the program counter past the next instruction where
    /// `condition` holds.
    fn skip_if(&mut self, condition: bool) -> (r: Result<(), Fault>)
        requires
            old(self).wf(),
        ensures
            final(self).wf(),
            match old(self)@.skipping(condition) {
                Ok(m) => r is Ok && final(self)@ == m,
                Err(fault) => r == Err::<(), Fault>(fault) && final(self)@ == old(self)@,
            },
    {
        if condition {
            if self.program_counter > 0xFFFD {
                return Err(Fault::OutOfBounds);
            }
            self.program_counter += 2;
        }
        Ok(())
    }

    /// Calls the subroutine at `target`.
    fn call(&mut self, target: u16) -> (r: Result<(), Fault>)
        requires
            old(self).wf(),
        ensures
            final(self).wf(),
            match old(self)@.called(target) {
                Ok(m) => r is Ok && final(self)@ == m,
                Err(fault) => r == Err::<(), Fault>(fault) && final(self)@ == old(self)@,
            },
    {
        match self.push(self.program_counter) {
            Ok(()) => {
                self.program_counter = target;
                Ok(())
            },
            Err(fault) => Err(fault),
        }
    }

    /// Returns from a subroutine.
    fn ret(&mut self) -> (r: Result<(), Fault>)
        requires
            old(self).wf(),
        ensures
            final(self).wf(),
            match old(self)@.returned() {
                Ok(m) => r is Ok && final(self)@ == m,
                Err(fault) => r == Err::<(), Fault>(fault) && final(self)@ == old(self)@,
            },
    {
        match self.pop() {
            Ok(return_address) => {
                self.program_counter = return_address;
                Ok(())
            },
            Err(fault) => Err(fault),
        }
    }

    /// Stores a result in register `x` and then the flag that goes with it.
    fn set_result(&mut self, x: usize, value: u8, flag: u8)
        requires
            old(self).wf(),
            x < REGISTER_COUNT,
        ensures
            final(self).wf(),
            final(self)@ == old(self)@.with_result(x as int, value, flag),
    {
        self.registers[x] = value;
        self.registers[FLAG_REGISTER] = flag;
    }

    /// The instructions that combine two registers.
    fn combine(&mut self, x: usize, y: usize, n: usize) -> (r: Result<(), Fault>)
        requires
            old(self).wf(),
            x < REGISTER_COUNT,
            y < REGISTER_COUNT,
        ensures
            final(self).wf(),
            match old(self)@.combined(x as int, y as int, n as int) {
                Ok(m) => r is Ok && final(self)@ == m,
                Err(fault) => r == Err::<(), Fault>(fault) && final(self)@ == old(self)@,
            },
    {
        let vx: u8 = self.registers[x];
        let vy: u8 = self.registers[y];
        match n {
            0 => {
                self.registers[x] = vy;
            },
            1 => {
                self.registers[x] = vx | vy;
            },
            2 => {
                self.registers[x] = vx & vy;
            },
            3 => {
                self.registers[x] = vx ^ vy;
            },
            4 => {
                let (value, carry) = sum_with_carry(vx, vy);
                self.set_result(x, value, carry);
            },
            5 => {
                let (value, no_borrow) = difference_with_borrow(vx, vy);
                self.set_result(x, value, no_borrow);
            },
            6 => {
                let (value, lsb) = halved(vx);
                self.set_result(x, value, lsb);
            },
            7 => {
                let (value, no_borrow) = difference_with_borrow(vy, vx);
                self.set_result(x, value, no_borrow);
            },
            0xE => {
                let (value, msb) = doubled(vx);
                self.set_result(x, value, msb);
            },
            _ => {
                return Err(Fault::UnrecognizedOpcode);
            },
        }
        Ok(())
    }

    /// The lowest pressed key, if any key is pressed.
    pub fn first_pressed_key(&self) -> (key: Option<u8>)
        ensures
            key == first_pressed(self@.keys),
    {
        let mut k: u8 = 0;
        while k < 16
            invariant
                k <= KEY_COUNT,
                first_pressed(self@.keys) == first_pressed_from(self@.keys, k as int),
            decreases 16 - k,
        {
            if self.keys[k as usize] {
                return Some(k);
            }
            k += 1;
        }
        None
    }

    /// Takes the lowest pressed key into register `x`, or starts to wait for
    /// a key.
    fn await_key(&mut self, x: usize)
        requires
            old(self).wf(),
            x < REGISTER_COUNT,
        ensures
            final(self).wf(),
            final(self)@ == old(self)@.key_awaited(x as int),
    {
        match self.first_pressed_key() {
            Some(key) => {
                self.registers[x] = key;
                self.awaiting = None;
            },
            None => {
                self.awaiting = Some(x as u8);
            },
        }
    }

    /// Stores the decimal digits of `value` at the index register.
    fn store_decimal(&mut self, value: u8) -> (r: Result<(), Fault>)
        requires
            old(self).wf(),
        ensures
            final(self).wf(),
            match old(self)@.decimal_stored(value) {
                Ok(m) => r is Ok && final(self)@ == m,
                Err(fault) => r == Err::<(), Fault>(fault) && final(self)@ == old(self)@,
            },
    {
        let at: usize = self.i_register as usize;
        if at + 2 >= MEMORY_SIZE {
            return Err(Fault::OutOfBounds);
        }
        self.ram[at] = value / 100;
        self.ram[at + 1] = (value / 10) % 10;
        self.ram[at + 2] = value % 10;
        Ok(())
    }

    /// Copies registers 0 to `x` to memory at the index register.
    fn store_registers(&mut self, x: usize) -> (r: Result<(), Fault>)
        requires
            old(self).wf(),
            x < REGISTER_COUNT,
        ensures
            final(self).wf(),
            match old(self)@.registers_stored(x as int) {
                Ok(m) => r is Ok && final(self)@ == m,
                Err(fault) => r == Err::<(), Fault>(fault) && final(self)@ == old(self)@,
            },
    {
        let base: usize = self.i_register as usize;
        if base + x >= MEMORY_SIZE {
            return Err(Fault::OutOfBounds);
        }
        write_bytes(&mut self.ram, base, self.registers.as_slice(), x + 1);
        assert(self@.memory =~= old(self)@.registers_stored(x as int).unwrap().memory);
        Ok(())
    }

    /// Fills registers 0 to `x` from memory at the index register.
    fn load_registers(&mut self, x: usize) -> (r: Result<(), Fault>)
        requires
            old(self).wf(),
            x < REGISTER_COUNT,
        ensures
            final(self).wf(),
            match old(self)@.registers_loaded(x as int) {
                Ok(m) => r is Ok && final(self)@ == m,
                Err(fault) => r == Err::<(), Fault>(fault) && final(self)@ == old(self)@,
            },
    {
        let base: usize = self.i_register as usize;
        if base + x >= MEMORY_SIZE {
            return Err(Fault::OutOfBounds);
        }
        read_bytes(&mut self.registers, &self.ram, base, x + 1);
        assert(self@.registers =~= old(self)@.registers_loaded(x as int).unwrap().registers);
        Ok(())
    }

    /// The instructions on timers, keys, the index register and memory.
    fn service(&mut self, x: usize, nn: u8) -> (r: Result<(), Fault>)
        requires
            old(self).wf(),
            x < REGISTER_COUNT,
        ensures
            final(self).wf(),
            match old(self)@.serviced(x as int, nn) {
                Ok(m) => r is Ok && final(self)@ == m,
                Err(fault) => r == Err::<(), Fault>(fault) && final(self)@ == old(self)@,
            },
    {
        let vx: u8 = self.registers[x];
        match nn {
            0x07 => {
                self.registers[x] = self.delay_timer;
                Ok(())
            },
            0x0A => {
                self.await_key(x);
                Ok(())
            },
            0x15 => {
                self.delay_timer = vx;
                Ok(())
            },
            0x18 => {
                self.sound_timer = vx;
                Ok(())
            },
            0x1E => {
                self.i_register = self.i_register.wrapping_add(vx as u16);
                Ok(())
            },
            0x29 => {
                self.i_register = (GLYPH_SIZE * ((vx % 16) as usize)) as u16;
                Ok(())
            },
            0x33 => self.store_decimal(vx),
            0x55 => self.store_registers(x),
            0x65 => self.load_registers(x),
            _ => Err(Fault::UnrecognizedOpcode),
        }
    }

    /// Draws a random byte and stores it in register `x`, masked by `nn`.
    fn draw_random(&mut self, x: usize, nn: u8)
        requires
            old(self).wf(),
            x < REGISTER_COUNT,
        ensures
            final(self).wf(),
            final(self)@ == old(self)@.random_drawn(x as int, nn),
    {
        let next: u32 = (self.entropy as u32 * 25173 + 13849) % 65536;
        self.entropy = next as u16;
        self.registers[x] = nn & ((next / 256) as u8);
    }

    /// Draws the sprite at the index register with its corner at
    /// (`vx`, `vy`).
    fn draw(&mut self, vx: u8, vy: u8, rows: usize) -> (r: Result<(), Fault>)
        requires
            old(self).wf(),
            rows < 16,
        ensures
            final(self).wf(),
            match old(self)@.drawn(vx, vy, rows as int) {
                Ok(m) => r is Ok && final(self)@ == m,
                Err(fault) => r == Err::<(), Fault>(fault) && final(self)@ == old(self)@,
            },
    {
        let base: usize = self.i_register as usize;
        if rows > 0 && base + rows > MEMORY_SIZE {
            return Err(Fault::OutOfBounds);
        }
        let collision = blit(&mut self.screen, &self.ram, base, vx, vy, rows);
        self.registers[FLAG_REGISTER] = if collision { 1 } else { 0 };
        assert(self@.display =~= old(self)@.drawn(vx, vy, rows as int).unwrap().display);
        Ok(())
    }

    /// Decodes and executes one instruction word. Fails, and changes
    /// nothing, where the word is not an instruction, where a call or a
    /// return finds the stack full or empty, where the instruction reaches
    /// beyond memory, and where a skip would carry the program counter out
    /// of its sixteen bits.
    pub fn execute(&mut self, opcode: u16) -> (r: Result<(), Fault>)
        requires
            old(self).wf(),
        ensures
            final(self).wf(),
            match old(self)@.step(opcode) {
                Ok(m) => r is Ok && final(self)@ == m,
                Err(fault) => r == Err::<(), Fault>(fault) && final(self)@ == old(self)@,
            },
            r == Err::<(), Fault>(Fault::UnrecognizedOpcode) <==> !recognized(opcode),
    {
        proof {
            law_unrecognized(self@, opcode);
        }
        let fields = Fields::of(opcode);
        let x: usize = fields.x;
        let y: usize = fields.y;
        let n: usize = fields.n;
        let nn: u8 = fields.nn;
        let nnn: u16 = fields.nnn;
        let vx: u8 = self.registers[x];
        let vy: u8 = self.registers[y];
        match fields.family {
            0 => match opcode {
                0x0000 => Ok(()),
                0x00E0 => {
                    self.screen = [false; DISPLAY_CELLS];
                    assert(self.screen@ =~= blank_display());
                    Ok(())
                },
                0x00EE => self.ret(),
                _ => Err(Fault::UnrecognizedOpcode),
            },
            1 => {
                self.program_counter = nnn;
                Ok(())
            },
            2 => self.call(nnn),
            3 => self.skip_if(vx == nn),
            4 => self.skip_if(vx != nn),
            5 => if n == 0 {
                self.skip_if(vx == vy)
            } else {
                Err(Fault::UnrecognizedOpcode)
            },
            6 => {
                self.registers[x] = nn;
                Ok(())
            },
            7 => {
                // The carry is dropped: this addition has no flag.
                self.registers[x] = sum_with_carry(vx, nn).0;
                Ok(())
            },
            8 => self.combine(x, y, n),
            9 => if n == 0 {
                self.skip_if(vx != vy)
            } else {
                Err(Fault::UnrecognizedOpcode)
            },
            0xA => {
                self.i_register = nnn;
                Ok(())
            },
            0xB => {
                self.program_counter = nnn + self.registers[0] as u16;
                Ok(())
            },
            0xC => {
                self.draw_random(x, nn);
                Ok(())
            },
            0xD => self.draw(vx, vy, n),
            0xE => {
                let down: bool = (vx as usize) < KEY_COUNT && self.keys[vx as usize];
                if nn == 0x9E {
                    self.skip_if(down)
                } else if nn == 0xA1 {
                    self.skip_if(!down)
                } else {
                    Err(Fault::UnrecognizedOpcode)
                }
            },
            _ => self.service(x, nn),
        }
    }

    /// One tick of the processor. A machine that waits for a key stores the
    /// lowest pressed key and stops waiting, or keeps waiting where no key
    /// is pressed; any other machine fetches one instruction and executes
    /// it. A tick that fails changes nothing: the program counter stays at
    /// the instruction that failed.
    pub fn tick(&mut self) -> (r: Result<(), Fault>)
        requires
            old(self).wf(),
        ensures
            final(self).wf(),
            match old(self)@.ticked() {
                Ok(m) => r is Ok && final(self)@ == m,
                Err(fault) => r == Err::<(), Fault>(fault) && final(self)@ == old(self)@,
            },
    {
        match self.awaiting {
            Some(x) => {
                match self.first_pressed_key() {
                    Some(key) => {
                        self.registers[x as usize] = key;
                        self.awaiting = None;
                    },
                    None => {},
                }
                Ok(())
            },
            None => {
                let at: u16 = self.program_counter;
                match self.fetch() {
                    Ok(opcode) => match self.execute(opcode) {
                        Ok(()) => Ok(()),
                        Err(fault) => {
                            self.program_counter = at;
                            Err(fault)
                        },
                    },
                    Err(fault) => Err(fault),
                }
            },
        }
    }

    /// Copies a program image into memory from the program origin on.
    /// Fails, and changes nothing, where the image is longer than the
    /// memory above the origin.
    pub fn load(&mut self, image: &[u8]) -> (r: Result<(), Fault>)
        requires
            old(self).wf(),
        ensures
            final(self).wf(),
            match old(self)@.loaded(image@) {
                Ok(m) => r is Ok && final(self)@ == m,
                Err(fault) => r == Err::<(), Fault>(fault) && final(self)@ == old(self)@,
            },
    {
        let origin: usize = PROGRAM_ORIGIN as usize;
        if image.len() > MEMORY_SIZE - origin {
            return Err(Fault::OutOfBounds);
        }
        write_bytes(&mut self.ram, origin, image, image.len());
        assert(self@.memory =~= old(self)@.loaded(image@).unwrap().memory);
        Ok(())
    }

    /// Presses or releases a key of the pad.
    pub fn set_key(&mut self, key: usize, pressed: bool)
        requires
            old(self).wf(),
            key < KEY_COUNT,
        ensures
            final(self).wf(),
            final(self)@ == (Machine {
                keys: old(self)@.keys.update(key as int, pressed),
                ..old(self)@
            }),
    {
        self.keys[key] = pressed;
    }

    /// Sets the state of the generator of random bytes.
    pub fn seed(&mut self, value: u16)
        requires
            old(self).wf(),
        ensures
            final(self).wf(),
            final(self)@ == (Machine { entropy: value, ..old(self)@ }),
    {
        self.entropy = value;
    }

    /// The address of the next instruction.
    pub fn program_counter(&self) -> (pc: u16)
        ensures
            pc == self@.pc,
    {
        self.program_counter
    }

    /// The index register.
    pub fn index_register(&self) -> (index: u16)
        ensures
            index == self@.index,
    {
        self.i_register
    }

    /// The value of a general register.
    pub fn register(&self, x: usize) -> (value: u8)
        requires
            self.wf(),
            x < REGISTER_COUNT,
        ensures
            value == self@.registers[x as int],
    {
        self.registers[x]
    }

    /// The byte of memory at an address.
    pub fn memory_at(&self, address: usize) -> (byte: u8)
        requires
            self.wf(),
            address < MEMORY_SIZE,
        ensures
            byte == self@.memory[address as int],
    {
        self.ram[address]
    }

    /// The number of return addresses on the call stack.
    pub fn stack_depth(&self) -> (depth: usize)
        requires
            self.wf(),
        ensures
            depth == self@.depth,
            depth <= STACK_DEPTH,
    {
        self.stack_pointer as usize
    }

    /// The delay timer.
    pub fn delay_timer(&self) -> (delay: u8)
        ensures
            delay == self@.delay,
    {
        self.delay_timer
    }

    /// The sound timer. The machine sounds while it is above zero.
    pub fn sound_timer(&self) -> (sound: u8)
        ensures
            sound == self@.sound,
    {
        self.sound_timer
    }

    /// Whether a key of the pad is pressed.
    pub fn key(&self, key: usize) -> (pressed: bool)
        requires
            self.wf(),
            key < KEY_COUNT,
        ensures
            pressed == self@.keys[key as int],
    {
        self.keys[key]
    }

    /// Whether the machine waits for a key press.
    pub fn is_waiting(&self) -> (waiting: bool)
        ensures
            waiting == self@.awaiting is Some,
    {
        self.awaiting.is_some()
    }

    /// The display's cells in row-major order: cell `64 * y + x` is the
    /// pixel in column `x` of row `y`.
    pub fn display(&self) -> (cells: &[bool; DISPLAY_CELLS])
        ensures
            cells@ == self@.display,
    {
        &self.screen
    }

    /// Whether the pixel in column `x` of row `y` is lit.
    pub fn pixel(&self, x: usize, y: usize) -> (lit: bool)
        requires
            self.wf(),
            x < DISPLAY_WIDTH,
            y < DISPLAY_HEIGHT,
        ensures
            lit == self@.display[y * DISPLAY_WIDTH + x],
    {
        self.screen[y * DISPLAY_WIDTH + x]
    }
}

} // verus!
