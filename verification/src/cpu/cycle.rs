//! The instruction cycle: execute one word, step once, run for a while.

use super::Cpu;
use crate::error::CpuError;
use crate::instruction::{lemma_fields_by_bits, Instruction};
use crate::machine::{CpuState, Machine};
use vstd::prelude::*;

verus! {

/// Once a run has failed or come to wait for a key, further steps change
/// neither the machine nor the result.
proof fn lemma_run_settled(m: Machine, rnds: Seq<u8>, more: Seq<u8>)
    requires
        m.run(rnds).1 is Err || (m.run(rnds).0.state is AwaitingKey && m.run(rnds).1 == Ok::<
            CpuState,
            CpuError,
        >(m.run(rnds).0.state)),
    ensures
        m.run(rnds + more) == m.run(rnds),
    decreases more.len(),
{
    if more.len() == 0 {
        assert(rnds + more =~= rnds);
    } else {
        lemma_run_settled(m, rnds, more.drop_last());
        assert((rnds + more).drop_last() =~= rnds + more.drop_last());
    }
}

impl Cpu {
    /// Decodes the instruction word `opcode` and executes it.
    ///
    /// Fails, and changes nothing, where the word encodes no instruction or
    /// the instruction fails. Whatever byte a `CXNN` draws, machine and
    /// result are those that [`Machine::execute`] gives for that byte.
    pub fn execute(&mut self, opcode: u16) -> (r: Result<(), CpuError>)
        ensures
            old(self)@.wf(),
            final(self)@.wf(),
            exists|rnd: u8| (final(self)@, r) == #[trigger] old(self)@.execute(opcode, rnd),
    {
        proof {
            use_type_invariant(&*self);
            lemma_fields_by_bits(opcode);
        }
        let ghost mut rnd: u8 = 0;
        let r: Result<(), CpuError> = match Cpu::decode_opcode(opcode) {
            Err(e) => Err(e),
            Ok(instr) => match instr {
                Instruction::ClearScreen => {
                    self.opcode_00e0(opcode);
                    Ok(())
                },
                Instruction::Return => self.opcode_00ee(opcode),
                Instruction::Jump { .. } => {
                    self.opcode_1nnn(opcode);
                    Ok(())
                },
                Instruction::Call { .. } => self.opcode_2nnn(opcode),
                Instruction::SkipEqImm { .. } => {
                    self.opcode_3xnn(opcode);
                    Ok(())
                },
                Instruction::SkipNeImm { .. } => {
                    self.opcode_4xnn(opcode);
                    Ok(())
                },
                Instruction::SkipEqReg { .. } => {
                    self.opcode_5xy0(opcode);
                    Ok(())
                },
                Instruction::LoadImm { .. } => {
                    self.opcode_6xnn(opcode);
                    Ok(())
                },
                Instruction::AddImm { .. } => {
                    self.opcode_7xnn(opcode);
                    Ok(())
                },
                Instruction::Move { .. } => {
                    self.opcode_8xy0(opcode);
                    Ok(())
                },
                Instruction::Or { .. } => {
                    self.opcode_8xy1(opcode);
                    Ok(())
                },
                Instruction::And { .. } => {
                    self.opcode_8xy2(opcode);
                    Ok(())
                },
                Instruction::Xor { .. } => {
                    self.opcode_8xy3(opcode);
                    Ok(())
                },
                Instruction::AddReg { .. } => {
                    self.opcode_8xy4(opcode);
                    Ok(())
                },
                Instruction::SubReg { .. } => {
                    self.opcode_8xy5(opcode);
                    Ok(())
                },
                Instruction::ShiftLow { .. } => {
                    self.opcode_8xy6(opcode);
                    Ok(())
                },
                Instruction::SubFrom { .. } => {
                    self.opcode_8xy7(opcode);
                    Ok(())
                },
                Instruction::ShiftHigh { .. } => {
                    self.opcode_8xye(opcode);
                    Ok(())
                },
                Instruction::SkipNeReg { .. } => {
                    self.opcode_9xy0(opcode);
                    Ok(())
                },
                Instruction::LoadAddr { .. } => {
                    self.opcode_annn(opcode);
                    Ok(())
                },
                Instruction::JumpOffset { .. } => {
                    self.opcode_bnnn(opcode);
                    Ok(())
                },
                Instruction::Random { x, nn } => {
                    self.opcode_cxnn(opcode);
                    proof {
                        rnd = choose|rnd: u8|
                            self@ == #[trigger] old(self)@.random(x as int, nn, rnd);
                    }
                    Ok(())
                },
                Instruction::Draw { .. } => self.opcode_dxyn(opcode),
                Instruction::SkipKey { .. } => {
                    self.opcode_ex9e(opcode);
                    Ok(())
                },
                Instruction::SkipNoKey { .. } => {
                    self.opcode_exa1(opcode);
                    Ok(())
                },
                Instruction::ReadDelay { .. } => {
                    self.opcode_fx07(opcode);
                    Ok(())
                },
                Instruction::WaitKey { .. } => {
                    self.opcode_fx0a(opcode);
                    Ok(())
                },
                Instruction::SetDelay { .. } => {
                    self.opcode_fx15(opcode);
                    Ok(())
                },
                Instruction::SetSound { .. } => {
                    self.opcode_fx18(opcode);
                    Ok(())
                },
                Instruction::AddAddr { .. } => {
                    self.opcode_fx1e(opcode);
                    Ok(())
                },
                Instruction::Glyph { .. } => {
                    self.opcode_fx29(opcode);
                    Ok(())
                },
                Instruction::Bcd { .. } => self.opcode_fx33(opcode),
                Instruction::Store { .. } => self.opcode_fx55(opcode),
                Instruction::Load { .. } => self.opcode_fx65(opcode),
            },
        };
        assert((self@, r) == old(self)@.execute(opcode, rnd));
        r
    }

    /// Performs one step of the interpreter.
    ///
    /// While the interpreter waits for a key, a step does nothing.
    /// Otherwise it fetches the instruction word at the program counter,
    /// moves the program counter past it and executes the word. The result
    /// is the state after the step.
    ///
    /// Fails, and leaves the interpreter as it was before the step, where
    /// the word does not lie within memory, encodes no instruction, or
    /// encodes one that fails.
    pub fn step(&mut self) -> (r: Result<CpuState, CpuError>)
        ensures
            old(self)@.wf(),
            final(self)@.wf(),
            exists|rnd: u8| (final(self)@, r) == #[trigger] old(self)@.step(rnd),
    {
        proof {
            use_type_invariant(&*self);
        }
        match self.state {
            CpuState::AwaitingKey(_) => {
                assert((self@, Ok::<CpuState, CpuError>(self@.state)) == old(self)@.step(0u8));
                return Ok(self.state);
            },
            CpuState::Running => {},
        }
        let saved_pc: u16 = self.pc;
        let opcode: u16 = match self.get_opcode() {
            Ok(word) => word,
            Err(e) => {
                assert((self@, Err::<CpuState, CpuError>(e)) == old(self)@.step(0u8));
                return Err(e);
            },
        };
        let ghost fetched = self@;
        match self.execute(opcode) {
            Ok(()) => {
                proof {
                    let rnd = choose|rnd: u8|
                        (self@, Ok::<(), CpuError>(())) == #[trigger] fetched.execute(opcode, rnd);
                    assert((self@, Ok::<CpuState, CpuError>(self@.state)) == old(self)@.step(rnd));
                }
                Ok(self.state)
            },
            Err(e) => {
                proof {
                    use_type_invariant(&*self);
                }
                self.pc = saved_pc;
                proof {
                    let rnd = choose|rnd: u8|
                        (fetched, Err::<(), CpuError>(e)) == #[trigger] fetched.execute(opcode, rnd);
                    assert((self@, Err::<CpuState, CpuError>(e)) == old(self)@.step(rnd));
                }
                Err(e)
            },
        }
    }

    /// Performs `cycles` steps, or fewer where a step fails or the
    /// interpreter comes to wait for a key, after which further steps would
    /// change nothing. The result is that of the last step.
    pub fn run(&mut self, cycles: u32) -> (r: Result<CpuState, CpuError>)
        ensures
            old(self)@.wf(),
            final(self)@.wf(),
            exists|rnds: Seq<u8>|
                rnds.len() == cycles && (final(self)@, r) == #[trigger] old(self)@.run(rnds),
    {
        proof {
            use_type_invariant(&*self);
        }
        let ghost mut rnds: Seq<u8> = Seq::empty();
        let mut done: u32 = 0;
        while done < cycles
            invariant
                done <= cycles,
                rnds.len() == done,
                old(self)@.wf(),
                self@.wf(),
                (self@, Ok::<CpuState, CpuError>(self@.state)) == old(self)@.run(rnds),
            decreases cycles - done,
        {
            let ghost before = self@;
            let r: Result<CpuState, CpuError> = self.step();
            proof {
                let rnd = choose|rnd: u8| (self@, r) == #[trigger] before.step(rnd);
                assert(rnds.push(rnd).drop_last() =~= rnds);
                rnds = rnds.push(rnd);
                assert((self@, r) == old(self)@.run(rnds));
            }
            done = done + 1;
            let settled: bool = match r {
                Ok(CpuState::Running) => false,
                _ => true,
            };
            if settled {
                proof {
                    let more = Seq::new((cycles - done) as nat, |i: int| 0u8);
                    lemma_run_settled(old(self)@, rnds, more);
                    assert((rnds + more).len() == cycles);
                }
                return r;
            }
        }
        Ok(self.state)
    }
}

} // verus!
