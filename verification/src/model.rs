//! The mathematical model of the machine and the meaning of each instruction.

use vstd::prelude::*;
use crate::font::{font_table, GLYPH_SIZE};
use crate::sprite::sprite_covers;

verus! {

/// Bytes of addressable memory.
pub const MEMORY_SIZE: usize = 4096;

/// Address at which a program image starts, and the program counter of a
/// freshly built machine.
pub const PROGRAM_ORIGIN: u16 = 0x200;

/// Number of general registers.
pub const REGISTER_COUNT: usize = 16;

/// Index of the register that instructions use as their flag.
pub const FLAG_REGISTER: usize = 15;

/// Number of return addresses the call stack can hold.
pub const STACK_DEPTH: usize = 16;

/// Number of keys on the pad.
pub const KEY_COUNT: usize = 16;

/// Width of the display in cells.
pub const DISPLAY_WIDTH: usize = 64;

/// Height of the display in cells.
pub const DISPLAY_HEIGHT: usize = 32;

/// Cells of the display, row after row.
pub const DISPLAY_CELLS: usize = 2048;

/// A condition that stops the machine. None is recoverable by the machine
/// itself: the operation that meets one leaves the machine as it found it.
#[derive(Clone, Copy, Debug, PartialEq, Eq, Structural)]
pub enum Fault {
    /// An access beyond the last byte of memory, or a program counter that
    /// would leave the range of its sixteen bits.
    OutOfBounds,
    /// A call with a full stack, or a return with an empty one.
    StackExhausted,
    /// An instruction word that the instruction set does not define.
    UnrecognizedOpcode,
}

/// The state of a machine as plain mathematical values.
pub struct Machine {
    /// Address of the next instruction.
    pub pc: u16,
    /// Memory, byte by byte.
    pub memory: Seq<u8>,
    /// The display's cells in row-major order; `true` is lit.
    pub display: Seq<bool>,
    /// The general registers.
    pub registers: Seq<u8>,
    /// The index register.
    pub index: u16,
    /// Number of return addresses on the call stack.
    pub depth: u16,
    /// The slots of the call stack; those below `depth` are live.
    pub stack: Seq<u16>,
    /// The key latch; `true` is pressed.
    pub keys: Seq<bool>,
    /// The delay timer.
    pub delay: u8,
    /// The sound timer.
    pub sound: u8,
    /// The register that waits for a key press, while the machine waits.
    pub awaiting: Option<u8>,
    /// State of the generator of random bytes.
    pub entropy: u16,
}

impl Machine {
    /// The shape every machine has: each bank has its fixed size, the stack
    /// cursor stays within the stack, and a waiting register exists.
    pub open spec fn valid(self) -> bool {
        &&& self.memory.len() == MEMORY_SIZE
        &&& self.display.len() == DISPLAY_CELLS
        &&& self.registers.len() == REGISTER_COUNT
        &&& self.stack.len() == STACK_DEPTH
        &&& self.keys.len() == KEY_COUNT
        &&& self.depth <= STACK_DEPTH
        &&& (self.awaiting matches Some(x) ==> x < REGISTER_COUNT)
    }

    /// The machine with the font copied to the bottom of its memory.
    pub open spec fn font_loaded(self) -> Machine {
        Machine {
            memory: Seq::new(
                MEMORY_SIZE as nat,
                |a: int| if a < font_table().len() { font_table()[a] } else { self.memory[a] },
            ),
            ..self
        }
    }

    /// The machine as construction leaves it: the font at the bottom of
    /// memory, the program counter at the program origin, all else zero.
    pub open spec fn initial() -> Machine {
        Machine {
            pc: PROGRAM_ORIGIN,
            memory: Seq::new(
                MEMORY_SIZE as nat,
                |a: int| if a < font_table().len() { font_table()[a] } else { 0u8 },
            ),
            display: blank_display(),
            registers: Seq::new(REGISTER_COUNT as nat, |r: int| 0u8),
            index: 0,
            depth: 0,
            stack: Seq::new(STACK_DEPTH as nat, |i: int| 0u16),
            keys: Seq::new(KEY_COUNT as nat, |k: int| false),
            delay: 0,
            sound: 0,
            awaiting: None,
            entropy: 0,
        }
    }
}

/// A display with every cell off.
pub open spec fn blank_display() -> Seq<bool> {
    Seq::new(DISPLAY_CELLS as nat, |c: int| false)
}

/// The highest nibble of an instruction word: its family.
pub open spec fn family(op: u16) -> int {
    op as int / 4096
}

/// The second nibble: most often a register, called X.
pub open spec fn x_of(op: u16) -> int {
    (op as int / 256) % 16
}

/// The third nibble: most often a register, called Y.
pub open spec fn y_of(op: u16) -> int {
    (op as int / 16) % 16
}

/// The lowest nibble, called N.
pub open spec fn n_of(op: u16) -> int {
    op as int % 16
}

/// The low byte, called NN.
pub open spec fn nn_of(op: u16) -> u8 {
    (op as int % 256) as u8
}

/// The low twelve bits, called NNN.
pub open spec fn nnn_of(op: u16) -> u16 {
    (op as int % 4096) as u16
}

/// Whether the instruction set defines the instruction word.
pub open spec fn recognized(op: u16) -> bool {
    let f = family(op);
    let n = n_of(op);
    let nn = nn_of(op);
    if f == 0 {
        op == 0x0000 || op == 0x00E0 || op == 0x00EE
    } else if f == 5 || f == 9 {
        n == 0
    } else if f == 8 {
        n <= 7 || n == 0xE
    } else if f == 0xE {
        nn == 0x9E || nn == 0xA1
    } else if f == 0xF {
        nn == 0x07 || nn == 0x0A || nn == 0x15 || nn == 0x18 || nn == 0x1E || nn == 0x29
            || nn == 0x33 || nn == 0x55 || nn == 0x65
    } else {
        true
    }
}

/// The lowest pressed key at or above `from`, if there is one.
pub open spec fn first_pressed_from(keys: Seq<bool>, from: int) -> Option<u8>
    decreases KEY_COUNT - from,
{
    if from < 0 || from >= KEY_COUNT {
        None
    } else if keys[from] {
        Some(from as u8)
    } else {
        first_pressed_from(keys, from + 1)
    }
}

/// The lowest pressed key, if any key is pressed.
pub open spec fn first_pressed(keys: Seq<bool>) -> Option<u8> {
    first_pressed_from(keys, 0)
}

/// The generator's state after one draw: a linear congruential step with
/// full period over sixteen bits.
pub open spec fn next_entropy(e: u16) -> u16 {
    ((e as int * 25173 + 13849) % 65536) as u16
}

/// The byte that a draw hands out: the high byte of the new state.
pub open spec fn drawn_byte(e: u16) -> u8 {
    (next_entropy(e) as int / 256) as u8
}

impl Machine {
    /// The machine with register `x` set to `v`.
    pub open spec fn with_register(self, x: int, v: u8) -> Machine {
        Machine { registers: self.registers.update(x, v), ..self }
    }

    /// The machine with register `x` set to `v` and then the flag register
    /// set to `flag`: where `x` is the flag register, the flag stays.
    pub open spec fn with_result(self, x: int, v: u8, flag: u8) -> Machine {
        Machine {
            registers: self.registers.update(x, v).update(FLAG_REGISTER as int, flag),
            ..self
        }
    }

    /// The machine with the program counter at `target`.
    pub open spec fn jumped(self, target: u16) -> Machine {
        Machine { pc: target, ..self }
    }

    /// Skips the next instruction where `condition` holds.
    pub open spec fn skipping(self, condition: bool) -> Result<Machine, Fault> {
        if !condition {
            Ok(self)
        } else if self.pc + 2 > u16::MAX {
            Err(Fault::OutOfBounds)
        } else {
            Ok(self.jumped((self.pc + 2) as u16))
        }
    }

    /// Puts `address` at the stack's cursor and advances the cursor.
    pub open spec fn pushed(self, address: u16) -> Result<Machine, Fault> {
        if self.depth >= STACK_DEPTH {
            Err(Fault::StackExhausted)
        } else {
            Ok(
                Machine {
                    stack: self.stack.update(self.depth as int, address),
                    depth: (self.depth + 1) as u16,
                    ..self
                },
            )
        }
    }

    /// Retreats the stack's cursor and reads the address under it.
    pub open spec fn popped(self) -> Result<(Machine, u16), Fault> {
        if self.depth == 0 {
            Err(Fault::StackExhausted)
        } else {
            Ok((Machine { depth: (self.depth - 1) as u16, ..self }, self.stack[self.depth - 1]))
        }
    }

    /// Reads the instruction word at the program counter, most significant
    /// byte first, and moves the counter past it.
    pub open spec fn fetched(self) -> Result<(Machine, u16), Fault> {
        if self.pc + 1 >= MEMORY_SIZE {
            Err(Fault::OutOfBounds)
        } else {
            Ok(
                (
                    self.jumped((self.pc + 2) as u16),
                    (self.memory[self.pc as int] * 256 + self.memory[self.pc + 1]) as u16,
                ),
            )
        }
    }

    /// Whether the key whose number is `value` is pressed. No key has a
    /// number above fifteen.
    pub open spec fn key_down(self, value: u8) -> bool {
        value < KEY_COUNT && self.keys[value as int]
    }

    /// A call: the program counter goes onto the stack, then moves to
    /// `target`.
    pub open spec fn called(self, target: u16) -> Result<Machine, Fault> {
        match self.pushed(self.pc) {
            Ok(m) => Ok(m.jumped(target)),
            Err(fault) => Err(fault),
        }
    }

    /// A return: the program counter comes off the stack.
    pub open spec fn returned(self) -> Result<Machine, Fault> {
        match self.popped() {
            Ok((m, address)) => Ok(m.jumped(address)),
            Err(fault) => Err(fault),
        }
    }

    /// The instructions of family 8 on registers `x` and `y`, selected by
    /// `n`.
    pub open spec fn combined(self, x: int, y: int, n: int) -> Result<Machine, Fault> {
        let vx = self.registers[x];
        let vy = self.registers[y];
        if n == 0 {
            Ok(self.with_register(x, vy))
        } else if n == 1 {
            Ok(self.with_register(x, vx | vy))
        } else if n == 2 {
            Ok(self.with_register(x, vx & vy))
        } else if n == 3 {
            Ok(self.with_register(x, vx ^ vy))
        } else if n == 4 {
            Ok(self.with_result(x, ((vx + vy) % 256) as u8, if vx + vy > 255 { 1u8 } else { 0u8 }))
        } else if n == 5 {
            Ok(self.with_result(x, ((vx - vy) % 256) as u8, if vx < vy { 0u8 } else { 1u8 }))
        } else if n == 6 {
            Ok(self.with_result(x, (vx / 2) as u8, (vx % 2) as u8))
        } else if n == 7 {
            Ok(self.with_result(x, ((vy - vx) % 256) as u8, if vy < vx { 0u8 } else { 1u8 }))
        } else if n == 0xE {
            Ok(self.with_result(x, ((vx * 2) % 256) as u8, (vx / 128) as u8))
        } else {
            Err(Fault::UnrecognizedOpcode)
        }
    }

    /// A random byte drawn: the generator moves on, and register `x` takes
    /// the byte it hands out, masked by `nn`.
    pub open spec fn random_drawn(self, x: int, nn: u8) -> Machine {
        Machine {
            entropy: next_entropy(self.entropy),
            ..self.with_register(x, nn & drawn_byte(self.entropy))
        }
    }

    /// Whether the sprite of `rows` rows at the index register, drawn with
    /// its corner at (`vx`, `vy`), has a set pixel on the display cell.
    pub open spec fn sprite_lit(self, vx: u8, vy: u8, rows: int, cell: int) -> bool {
        sprite_covers(self.memory, self.index as int, vx, vy, rows, cell)
    }

    /// Whether drawing the sprite turns a lit cell off.
    pub open spec fn sprite_collides(self, vx: u8, vy: u8, rows: int) -> bool {
        exists|cell: int|
            0 <= cell < DISPLAY_CELLS && #[trigger] self.display[cell] && self.sprite_lit(
                vx,
                vy,
                rows,
                cell,
            )
    }

    /// A sprite drawn: each cell under a set pixel is flipped, and the flag
    /// register says whether a lit cell went off. A sprite that reaches
    /// beyond memory is a fault.
    pub open spec fn drawn(self, vx: u8, vy: u8, rows: int) -> Result<Machine, Fault> {
        if rows > 0 && self.index + rows > MEMORY_SIZE {
            Err(Fault::OutOfBounds)
        } else {
            Ok(
                Machine {
                    display: Seq::new(
                        DISPLAY_CELLS as nat,
                        |cell: int| self.display[cell] != self.sprite_lit(vx, vy, rows, cell),
                    ),
                    registers: self.registers.update(
                        FLAG_REGISTER as int,
                        if self.sprite_collides(vx, vy, rows) { 1u8 } else { 0u8 },
                    ),
                    ..self
                },
            )
        }
    }

    /// The key wait: register `x` takes the lowest pressed key; with no key
    /// pressed the machine starts to wait for one.
    pub open spec fn key_awaited(self, x: int) -> Machine {
        match first_pressed(self.keys) {
            Some(key) => Machine { awaiting: None, ..self.with_register(x, key) },
            None => Machine { awaiting: Some(x as u8), ..self },
        }
    }

    /// The three decimal digits of `value` stored at the index register:
    /// hundreds, tens, ones.
    pub open spec fn decimal_stored(self, value: u8) -> Result<Machine, Fault> {
        if self.index + 2 >= MEMORY_SIZE {
            Err(Fault::OutOfBounds)
        } else {
            Ok(
                Machine {
                    memory: self.memory.update(self.index as int, (value / 100) as u8).update(
                        self.index + 1,
                        ((value / 10) % 10) as u8,
                    ).update(self.index + 2, (value % 10) as u8),
                    ..self
                },
            )
        }
    }

    /// Registers 0 to `x` copied to memory from the index register on.
    pub open spec fn registers_stored(self, x: int) -> Result<Machine, Fault> {
        if self.index + x >= MEMORY_SIZE {
            Err(Fault::OutOfBounds)
        } else {
            Ok(
                Machine {
                    memory: Seq::new(
                        MEMORY_SIZE as nat,
                        |a: int|
                            if self.index <= a <= self.index + x {
                                self.registers[a - self.index]
                            } else {
                                self.memory[a]
                            },
                    ),
                    ..self
                },
            )
        }
    }

    /// Registers 0 to `x` filled from memory from the index register on.
    pub open spec fn registers_loaded(self, x: int) -> Result<Machine, Fault> {
        if self.index + x >= MEMORY_SIZE {
            Err(Fault::OutOfBounds)
        } else {
            Ok(
                Machine {
                    registers: Seq::new(
                        REGISTER_COUNT as nat,
                        |r: int|
                            if r <= x {
                                self.memory[self.index + r]
                            } else {
                                self.registers[r]
                            },
                    ),
                    ..self
                },
            )
        }
    }

    /// The instructions of family F on register `x`, selected by `nn`.
    pub open spec fn serviced(self, x: int, nn: u8) -> Result<Machine, Fault> {
        let vx = self.registers[x];
        if nn == 0x07 {
            Ok(self.with_register(x, self.delay))
        } else if nn == 0x0A {
            Ok(self.key_awaited(x))
        } else if nn == 0x15 {
            Ok(Machine { delay: vx, ..self })
        } else if nn == 0x18 {
            Ok(Machine { sound: vx, ..self })
        } else if nn == 0x1E {
            Ok(Machine { index: ((self.index + vx) % 65536) as u16, ..self })
        } else if nn == 0x29 {
            Ok(Machine { index: (GLYPH_SIZE * (vx % 16)) as u16, ..self })
        } else if nn == 0x33 {
            self.decimal_stored(vx)
        } else if nn == 0x55 {
            self.registers_stored(x)
        } else if nn == 0x65 {
            self.registers_loaded(x)
        } else {
            Err(Fault::UnrecognizedOpcode)
        }
    }

    /// One instruction decoded and executed.
    pub open spec fn step(self, op: u16) -> Result<Machine, Fault> {
        let f = family(op);
        let x = x_of(op);
        let y = y_of(op);
        let n = n_of(op);
        let nn = nn_of(op);
        let nnn = nnn_of(op);
        let vx = self.registers[x];
        let vy = self.registers[y];
        if f == 0 {
            if op == 0x0000 {
                Ok(self)
            } else if op == 0x00E0 {
                Ok(Machine { display: blank_display(), ..self })
            } else if op == 0x00EE {
                self.returned()
            } else {
                Err(Fault::UnrecognizedOpcode)
            }
        } else if f == 1 {
            Ok(self.jumped(nnn))
        } else if f == 2 {
            self.called(nnn)
        } else if f == 3 {
            self.skipping(vx == nn)
        } else if f == 4 {
            self.skipping(vx != nn)
        } else if f == 5 {
            if n == 0 {
                self.skipping(vx == vy)
            } else {
                Err(Fault::UnrecognizedOpcode)
            }
        } else if f == 6 {
            Ok(self.with_register(x, nn))
        } else if f == 7 {
            Ok(self.with_register(x, ((vx + nn) % 256) as u8))
        } else if f == 8 {
            self.combined(x, y, n)
        } else if f == 9 {
            if n == 0 {
                self.skipping(vx != vy)
            } else {
                Err(Fault::UnrecognizedOpcode)
            }
        } else if f == 0xA {
            Ok(Machine { index: nnn, ..self })
        } else if f == 0xB {
            Ok(self.jumped((nnn + self.registers[0]) as u16))
        } else if f == 0xC {
            Ok(self.random_drawn(x, nn))
        } else if f == 0xD {
            self.drawn(vx, vy, n)
        } else if f == 0xE {
            if nn == 0x9E {
                self.skipping(self.key_down(vx))
            } else if nn == 0xA1 {
                self.skipping(!self.key_down(vx))
            } else {
                Err(Fault::UnrecognizedOpcode)
            }
        } else {
            self.serviced(x, nn)
        }
    }

    /// One tick of the processor. A machine that waits for a key looks at
    /// the key latch and does nothing else; any other machine fetches one
    /// instruction and executes it.
    pub open spec fn ticked(self) -> Result<Machine, Fault> {
        match self.awaiting {
            Some(x) => match first_pressed(self.keys) {
                Some(key) => Ok(Machine { awaiting: None, ..self.with_register(x as int, key) }),
                None => Ok(self),
            },
            None => match self.fetched() {
                Ok((m, op)) => m.step(op),
                Err(fault) => Err(fault),
            },
        }
    }

    /// One tick of the timers: each goes down by one and stays at zero.
    pub open spec fn timers_ticked(self) -> Machine {
        Machine {
            delay: if self.delay > 0 { (self.delay - 1) as u8 } else { 0u8 },
            sound: if self.sound > 0 { (self.sound - 1) as u8 } else { 0u8 },
            ..self
        }
    }

    /// A program image copied to memory from the program origin on. An
    /// image that does not fit is a fault.
    pub open spec fn loaded(self, image: Seq<u8>) -> Result<Machine, Fault> {
        if PROGRAM_ORIGIN + image.len() > MEMORY_SIZE {
            Err(Fault::OutOfBounds)
        } else {
            Ok(
                Machine {
                    memory: Seq::new(
                        MEMORY_SIZE as nat,
                        |a: int|
                            if PROGRAM_ORIGIN <= a < PROGRAM_ORIGIN + image.len() {
                                image[a - PROGRAM_ORIGIN]
                            } else {
                                self.memory[a]
                            },
                    ),
                    ..self
                },
            )
        }
    }
}

} // verus!
