//! Laws of the instruction set, proved from the model.

use vstd::prelude::*;
use crate::font::font_table;
use crate::model::{
    drawn_byte, family, first_pressed, first_pressed_from, n_of, next_entropy, nn_of, recognized,
    x_of, y_of, Fault, Machine, KEY_COUNT, PROGRAM_ORIGIN,
};

verus! {

/// The initial machine is valid, starts at the program origin with an empty
/// stack, and holds the font in the first bytes of its memory and zero in
/// all the others.
pub proof fn law_initial_state()
    ensures
        Machine::initial().valid(),
        Machine::initial().pc == PROGRAM_ORIGIN,
        Machine::initial().depth == 0,
        forall|a: int| 0 <= a < 80 ==> Machine::initial().memory[a] == font_table()[a],
        forall|a: int| 80 <= a < 4096 ==> Machine::initial().memory[a] == 0,
{
}

/// Every instruction keeps a valid machine valid.
pub proof fn law_step_keeps_validity(s: Machine, op: u16)
    requires
        s.valid(),
        s.step(op) is Ok,
    ensures
        s.step(op).unwrap().valid(),
{
}

/// After an addition of two registers the flag register holds 1 where the
/// sum of the two values passed 255, and 0 where it did not, whichever
/// registers were added.
pub proof fn law_add_sets_carry(s: Machine, op: u16)
    requires
        s.valid(),
        family(op) == 8,
        n_of(op) == 4,
    ensures
        s.step(op) is Ok,
        s.registers[x_of(op)] + s.registers[y_of(op)] > 255 <==> s.step(op).unwrap().registers[15]
            == 1,
        s.registers[x_of(op)] + s.registers[y_of(op)] <= 255 <==> s.step(op).unwrap().registers[15]
            == 0,
{
}

/// After a subtraction of register Y from register X the flag register
/// holds 0 where X was below Y, and 1 where it was not, whichever registers
/// were subtracted.
pub proof fn law_subtract_sets_no_borrow(s: Machine, op: u16)
    requires
        s.valid(),
        family(op) == 8,
        n_of(op) == 5,
    ensures
        s.step(op) is Ok,
        s.registers[x_of(op)] < s.registers[y_of(op)] <==> s.step(op).unwrap().registers[15] == 0,
        s.registers[x_of(op)] >= s.registers[y_of(op)] <==> s.step(op).unwrap().registers[15]
            == 1,
{
}

/// Adding a constant to a register wraps round 256 and changes no other
/// register: the flag register only where it is the one added to.
pub proof fn law_add_constant_wraps(s: Machine, op: u16)
    requires
        s.valid(),
        family(op) == 7,
    ensures
        s.step(op) is Ok,
        s.step(op).unwrap().registers[x_of(op)] == (s.registers[x_of(op)] + nn_of(op)) % 256,
        forall|r: int|
            0 <= r < 16 && r != x_of(op) ==> s.step(op).unwrap().registers[r] == s.registers[r],
{
}

/// A shift to the right leaves in the flag register the bit that left
/// register X, as it was before the shift, and in register X, where it is
/// not the flag register, half its value.
pub proof fn law_shift_right_captures_low_bit(s: Machine, op: u16)
    requires
        s.valid(),
        family(op) == 8,
        n_of(op) == 6,
    ensures
        s.step(op) is Ok,
        s.step(op).unwrap().registers[15] == s.registers[x_of(op)] % 2,
        x_of(op) != 15 ==> s.step(op).unwrap().registers[x_of(op)] == s.registers[x_of(op)] / 2,
{
}

/// A register is set by an instruction that a tick fetches, and a skip that
/// compares the same register with a constant is executed right after it.
/// Where the two constants are equal the program counter ends 4 above its
/// value before the tick; where they differ, 2 above.
pub proof fn law_set_then_skip(s: Machine, set: u16, skip: u16)
    requires
        s.valid(),
        s.awaiting is None,
        s.fetched() is Ok,
        s.fetched().unwrap().1 == set,
        family(set) == 6,
        family(skip) == 3,
        x_of(set) == x_of(skip),
    ensures
        s.ticked() is Ok,
        s.ticked().unwrap().step(skip) is Ok,
        s.ticked().unwrap().step(skip).unwrap().pc == s.pc + (if nn_of(set) == nn_of(skip) {
            4int
        } else {
            2int
        }),
{
}

/// A call followed at once by a return leaves the program counter where it
/// was before the call, and the stack as deep as it was. Nothing else
/// changes but the stack slot that held the return address.
pub proof fn law_call_then_return(s: Machine, call: u16)
    requires
        s.valid(),
        s.depth < 16,
        family(call) == 2,
    ensures
        s.step(call) is Ok,
        s.step(call).unwrap().step(0x00EE) == Ok::<Machine, Fault>(
            Machine { stack: s.stack.update(s.depth as int, s.pc), ..s },
        ),
        s.step(call).unwrap().step(0x00EE).unwrap().pc == s.pc,
        s.step(call).unwrap().step(0x00EE).unwrap().depth == s.depth,
{
}

/// A call exhausts the stack exactly where sixteen addresses are on it, and
/// a return exactly where none is.
pub proof fn law_stack_exhaustion(s: Machine, call: u16)
    requires
        s.valid(),
        family(call) == 2,
    ensures
        s.step(call) == Err::<Machine, Fault>(Fault::StackExhausted) <==> s.depth == 16,
        s.step(call) is Ok <==> s.depth < 16,
        s.step(0x00EE) == Err::<Machine, Fault>(Fault::StackExhausted) <==> s.depth == 0,
        s.step(0x00EE) is Ok <==> s.depth > 0,
{
}

/// The instruction words that fail as unrecognized are exactly those that
/// the instruction set does not define.
pub proof fn law_unrecognized(s: Machine, op: u16)
    requires
        s.valid(),
    ensures
        s.step(op) == Err::<Machine, Fault>(Fault::UnrecognizedOpcode) <==> !recognized(op),
{
}

/// A tick that fetches a word which the instruction set does not define
/// fails as unrecognized.
pub proof fn law_tick_unrecognized(s: Machine)
    requires
        s.valid(),
        s.awaiting is None,
        s.fetched() is Ok,
        !recognized(s.fetched().unwrap().1),
    ensures
        s.ticked() == Err::<Machine, Fault>(Fault::UnrecognizedOpcode),
{
}

/// No instruction touches the key latch, and only the clear instruction
/// and the draw instructions touch the display.
pub proof fn law_step_frame(s: Machine, op: u16)
    requires
        s.valid(),
        s.step(op) is Ok,
    ensures
        s.step(op).unwrap().keys == s.keys,
        op != 0x00E0 && family(op) != 0xD ==> s.step(op).unwrap().display == s.display,
{
}

/// No tick touches the key latch, and a tick of a machine that waits for a
/// key touches nothing but the register that waits and the waiting itself.
pub proof fn law_tick_frame(s: Machine)
    requires
        s.valid(),
        s.ticked() is Ok,
    ensures
        s.ticked().unwrap().keys == s.keys,
        s.awaiting is Some ==> s.ticked().unwrap() == (Machine {
            registers: s.ticked().unwrap().registers,
            awaiting: s.ticked().unwrap().awaiting,
            ..s
        }),
        s.awaiting is Some && first_pressed(s.keys) is None ==> s.ticked().unwrap() == s,
{
}

/// A sprite drawn twice in the same place leaves the display as it was.
pub proof fn law_draw_twice_restores(s: Machine, vx: u8, vy: u8, rows: int)
    requires
        s.valid(),
        s.drawn(vx, vy, rows) is Ok,
    ensures
        s.drawn(vx, vy, rows).unwrap().drawn(vx, vy, rows) is Ok,
        s.drawn(vx, vy, rows).unwrap().drawn(vx, vy, rows).unwrap().display == s.display,
{
    let once = s.drawn(vx, vy, rows).unwrap();
    let twice = once.drawn(vx, vy, rows).unwrap();
    assert forall|cell: int| 0 <= cell < 2048 implies twice.display[cell] == s.display[cell] by {
        assert(once.sprite_lit(vx, vy, rows, cell) == s.sprite_lit(vx, vy, rows, cell));
    }
    assert(twice.display =~= s.display);
}

/// What the search from `from` upwards finds is pressed and has no pressed
/// key between `from` and itself; where it finds nothing, no key at or
/// above `from` is pressed.
pub proof fn law_first_pressed_from(keys: Seq<bool>, from: int)
    requires
        keys.len() == KEY_COUNT,
        0 <= from <= KEY_COUNT,
    ensures
        match first_pressed_from(keys, from) {
            Some(key) => from <= key < KEY_COUNT && keys[key as int] && forall|j: int|
                from <= j < key ==> !keys[j],
            None => forall|j: int| from <= j < KEY_COUNT ==> !keys[j],
        },
    decreases KEY_COUNT - from,
{
    if from < KEY_COUNT && !keys[from] {
        law_first_pressed_from(keys, from + 1);
    }
}

/// The first pressed key is the lowest key that is pressed, and there is
/// none exactly where no key is pressed.
pub proof fn law_first_pressed(keys: Seq<bool>)
    requires
        keys.len() == KEY_COUNT,
    ensures
        match first_pressed(keys) {
            Some(key) => key < KEY_COUNT && keys[key as int] && forall|j: int|
                0 <= j < key ==> !keys[j],
            None => forall|j: int| 0 <= j < KEY_COUNT ==> !keys[j],
        },
{
    law_first_pressed_from(keys, 0);
}

/// A timer tick lowers each timer by at most one and never below zero, and
/// touches nothing but the timers.
pub proof fn law_timers(s: Machine)
    ensures
        s.timers_ticked().delay == if s.delay == 0 { 0int } else { s.delay - 1 },
        s.timers_ticked().sound == if s.sound == 0 { 0int } else { s.sound - 1 },
        s.timers_ticked() == (Machine {
            delay: s.timers_ticked().delay,
            sound: s.timers_ticked().sound,
            ..s
        }),
{
}

/// A generator state from which the next draw hands out `byte`.
pub open spec fn seed_drawing(byte: u8) -> u16 {
    (((byte as int * 256 + 51687) * 35581) % 65536) as u16
}

/// Every byte is drawn from some state of the generator: no value is out
/// of the random instruction's reach.
pub proof fn law_every_byte_is_drawn(byte: u8)
    ensures
        next_entropy(seed_drawing(byte)) == byte as int * 256,
        drawn_byte(seed_drawing(byte)) == byte,
{
    let b = byte as u64;
    let shifted = (b * 256 + 51687) as u64;
    let seed = ((shifted * 35581) % 65536) as u64;
    let next = ((seed * 25173 + 13849) % 65536) as u64;
    assert(next == (b * 256) as u64) by (bit_vector)
        requires
            b < 256,
            shifted == (b * 256 + 51687) as u64,
            seed == ((shifted * 35581) % 65536) as u64,
            next == ((seed * 25173 + 13849) % 65536) as u64,
    ;
    assert(seed == seed_drawing(byte));
}

} // verus!
