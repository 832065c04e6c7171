//! Laws that relate several transitions of the machine to one another.

use crate::display::{collides, covers_cell, drawn, SCREEN_CELLS};
use crate::error::CpuError;
use crate::instruction::{decode, family_of, nnn_of, Instruction};
use crate::machine::{ticked_times, CpuState, Machine, MEMORY_SIZE, STACK_LIMIT};
use vstd::prelude::*;

verus! {

/// For an instruction that skips conditionally, whether its condition holds
/// on a machine; `None` for every other instruction.
pub open spec fn skip_condition(m: Machine, instr: Instruction) -> Option<bool> {
    match instr {
        Instruction::SkipEqImm { x, nn } => Some(m.regs[x as int] == nn),
        Instruction::SkipNeImm { x, nn } => Some(m.regs[x as int] != nn),
        Instruction::SkipEqReg { x, y } => Some(m.regs[x as int] == m.regs[y as int]),
        Instruction::SkipNeReg { x, y } => Some(m.regs[x as int] != m.regs[y as int]),
        Instruction::SkipKey { x } => Some(m.key_pressed(m.regs[x as int])),
        Instruction::SkipNoKey { x } => Some(!m.key_pressed(m.regs[x as int])),
        _ => None,
    }
}

/// A step that executes a conditional skip succeeds and moves the program
/// counter by exactly 4 where the condition holds and by exactly 2 where it
/// does not; nothing else changes.
pub proof fn lemma_skip_advances_pc(m: Machine, rnd: u8)
    requires
        m.wf(),
        m.state is Running,
        m.pc + 1 < MEMORY_SIZE,
        decode(m.word_at(m.pc as int)) is Ok,
        skip_condition(m, decode(m.word_at(m.pc as int))->Ok_0) is Some,
    ensures
        m.step(rnd).1 == Ok::<CpuState, CpuError>(CpuState::Running),
        m.step(rnd).0.pc == m.pc + if skip_condition(
            m,
            decode(m.word_at(m.pc as int))->Ok_0,
        )->Some_0 {
            4int
        } else {
            2int
        },
        m.step(rnd).0 == (Machine { pc: m.step(rnd).0.pc, ..m }),
{
    let instr = decode(m.word_at(m.pc as int))->Ok_0;
    let cond = skip_condition(m, instr)->Some_0;
    let fetched = m.next();
    assert(fetched.pc == m.pc + 2);
    assert(fetched.fault(instr) is None);
    assert(fetched.apply(instr, rnd) == fetched.skip_if(cond)) by {
        match instr {
            Instruction::SkipEqImm { x, nn } => {},
            Instruction::SkipNeImm { x, nn } => {},
            Instruction::SkipEqReg { x, y } => {},
            Instruction::SkipNeReg { x, y } => {},
            Instruction::SkipKey { x } => {},
            Instruction::SkipNoKey { x } => {},
            _ => {},
        }
    }
    assert(fetched.execute(m.word_at(m.pc as int), rnd) == (
        fetched.skip_if(cond),
        Ok::<(), CpuError>(()),
    ));
}

/// Reading the delay timer right after setting it gives back the value it
/// was set to.
pub proof fn lemma_delay_round_trip(m: Machine, x: int, y: int)
    requires
        m.wf(),
        0 <= x < 16,
        0 <= y < 16,
    ensures
        m.set_delay(x).read_delay(y).regs[y] == m.regs[x],
        m.set_delay(x).read_delay(y).delay == m.regs[x],
{
}

/// Drawing a sprite twice at one place restores the frame, and the second
/// drawing reports a collision exactly where the first switched a pixel on.
pub proof fn lemma_draw_twice_restores(frame: Seq<bool>, sprite: Seq<u8>, x: int, y: int)
    requires
        frame.len() == SCREEN_CELLS,
    ensures
        drawn(drawn(frame, sprite, x, y), sprite, x, y) == frame,
        collides(drawn(frame, sprite, x, y), sprite, x, y) <==> exists|i: int|
            0 <= i < SCREEN_CELLS && !frame[i] && #[trigger] drawn(frame, sprite, x, y)[i],
{
    let once = drawn(frame, sprite, x, y);
    assert(drawn(once, sprite, x, y) =~= frame);
    if collides(once, sprite, x, y) {
        let i = choose|i: int|
            0 <= i < SCREEN_CELLS && once[i] && #[trigger] covers_cell(sprite, x, y, i);
        assert(!frame[i] && once[i]);
    }
    if exists|i: int| 0 <= i < SCREEN_CELLS && !frame[i] && #[trigger] once[i] {
        let i = choose|i: int| 0 <= i < SCREEN_CELLS && !frame[i] && #[trigger] once[i];
        assert(covers_cell(sprite, x, y, i));
    }
}

/// The same law for the draw instruction. The second drawing is at the same
/// place as the first only if the first left the two position registers as
/// they were, which it does unless one of them is the flag register.
pub proof fn lemma_draw_instruction_twice(m: Machine, x: int, y: int, n: int)
    requires
        m.wf(),
        0 <= x < 16,
        0 <= y < 16,
        0 <= n < 16,
        m.addr + n <= MEMORY_SIZE,
        m.draw(x, y, n).regs[x] == m.regs[x],
        m.draw(x, y, n).regs[y] == m.regs[y],
    ensures
        m.draw(x, y, n).draw(x, y, n).screen == m.screen,
        m.draw(x, y, n).draw(x, y, n).regs[15] == 1 <==> exists|i: int|
            0 <= i < SCREEN_CELLS && !m.screen[i] && #[trigger] m.draw(x, y, n).screen[i],
{
    lemma_draw_twice_restores(m.screen, m.sprite(n), m.regs[x] as int, m.regs[y] as int);
}

/// However often a timer is ticked, it holds what it held less the number
/// of ticks, or 0 where that would be negative.
pub proof fn lemma_ticked_times(timer: u8, n: nat)
    ensures
        ticked_times(timer, n) == if timer >= n {
            timer - n
        } else {
            0
        },
    decreases n,
{
    if n > 0 {
        lemma_ticked_times(timer, (n - 1) as nat);
    }
}

/// A timer at 0 stays at 0 however often it is ticked.
pub proof fn lemma_timer_floor(n: nat)
    ensures
        ticked_times(0, n) == 0,
{
    lemma_ticked_times(0, n);
}

/// Loading registers 0 to `x` right after storing them brings back every
/// register, and neither instruction changes the address register.
pub proof fn lemma_store_load_round_trip(m: Machine, x: int)
    requires
        m.wf(),
        0 <= x < 16,
        m.addr + x < MEMORY_SIZE,
    ensures
        m.store(x).load(x).regs == m.regs,
        m.store(x).addr == m.addr,
        m.store(x).load(x).addr == m.addr,
{
    assert(m.store(x).load(x).regs =~= m.regs);
}

/// A return right after a call brings the program counter and the call
/// stack back to what they were before the call.
pub proof fn lemma_call_then_return(m: Machine, nnn: u16)
    requires
        m.wf(),
        m.stack.len() < STACK_LIMIT,
    ensures
        m.fault(Instruction::Call { nnn }) is None,
        m.call(nnn).fault(Instruction::Return) is None,
        m.call(nnn).ret().pc == m.pc,
        m.call(nnn).ret().stack == m.stack,
{
    assert(m.call(nnn).ret().stack =~= m.stack);
}

/// A step that executes a call, followed by a step that executes a return,
/// leaves the program counter at the instruction right after the call.
pub proof fn lemma_call_return_steps(m: Machine, rnd1: u8, rnd2: u8)
    requires
        m.wf(),
        m.state is Running,
        m.pc + 1 < MEMORY_SIZE,
        m.stack.len() < STACK_LIMIT,
        family_of(m.word_at(m.pc as int)) == 2,
        nnn_of(m.word_at(m.pc as int)) + 1 < MEMORY_SIZE,
        m.word_at(nnn_of(m.word_at(m.pc as int)) as int) == 0x00EE,
    ensures
        m.step(rnd1).1 is Ok,
        m.step(rnd1).0.pc == nnn_of(m.word_at(m.pc as int)),
        m.step(rnd1).0.step(rnd2).1 is Ok,
        m.step(rnd1).0.step(rnd2).0.pc == m.pc + 2,
        m.step(rnd1).0.step(rnd2).0 == m.next(),
{
    let word = m.word_at(m.pc as int);
    let called = m.step(rnd1).0;
    assert(decode(word) == Ok::<Instruction, CpuError>(Instruction::Call { nnn: nnn_of(word) }));
    assert(called == m.next().call(nnn_of(word)));
    assert(decode(0x00EEu16) == Ok::<Instruction, CpuError>(Instruction::Return));
    assert(called.next().stack.drop_last() =~= m.stack);
}

} // verus!
