//! A small interpreter for a handful of opcodes, used to run assembled
//! bytes: load immediate into the accumulator, transfer accumulator to X,
//! store accumulator to a zero-page address, and break.
//!
//! Execution is modelled by [`spec_execute`], a step-by-step interpretation
//! of memory from the current program counter; [`CPU::run`] is proved to
//! compute exactly that interpretation. Programs whose execution would leave
//! the supported opcodes or run past the end of memory are excluded by
//! precondition, as the interpreter stops for nothing else.

use vstd::prelude::*;

verus! {

/// Bytes of addressable memory.
pub const MEMORY_SIZE: usize = 0xFFFF;

/// Where loaded programs start.
pub const PROGRAM_BASE: usize = 0x8000;

/// The processor: registers, status flags, the program counter and memory,
/// plus bookkeeping for monitoring.
#[derive(Debug)]
pub struct CPU {
    pub register_a: u8,
    pub register_x: u8,
    pub register_y: u8,
    pub status: u8,
    pub program_counter: u16,
    pub memory: Vec<u8>,
    pub is_running: bool,
    pub debug_mode: bool,
    pub monitored_memory_range: (usize, usize),
}

/// The model of a [`CPU`].
pub struct CpuModel {
    pub register_a: u8,
    pub register_x: u8,
    pub register_y: u8,
    pub status: u8,
    pub program_counter: u16,
    pub memory: Seq<u8>,
    pub is_running: bool,
    pub debug_mode: bool,
    pub monitored_memory_range: (usize, usize),
}

impl View for CPU {
    type V = CpuModel;

    open spec fn view(&self) -> CpuModel {
        CpuModel {
            register_a: self.register_a,
            register_x: self.register_x,
            register_y: self.register_y,
            status: self.status,
            program_counter: self.program_counter,
            memory: self.memory@,
            is_running: self.is_running,
            debug_mode: self.debug_mode,
            monitored_memory_range: self.monitored_memory_range,
        }
    }
}

/// A well-formed processor has exactly its fixed amount of memory.
pub open spec fn cpu_wf(m: CpuModel) -> bool {
    m.memory.len() == MEMORY_SIZE
}

/// The part of the state execution reads and writes.
pub struct CoreState {
    pub register_a: u8,
    pub register_x: u8,
    pub status: u8,
    pub program_counter: u16,
    pub memory: Seq<u8>,
}

/// The execution-relevant part of a processor state.
pub open spec fn core_state(m: CpuModel) -> CoreState {
    CoreState {
        register_a: m.register_a,
        register_x: m.register_x,
        status: m.status,
        program_counter: m.program_counter,
        memory: m.memory,
    }
}

/// The status byte after an operation produced `result`: the zero flag set
/// exactly when the result is zero, the negative flag exactly when its high
/// bit is set.
pub open spec fn zn_update(status: u8, result: u8) -> u8 {
    let s1 = if result == 0 {
        status | 0x02
    } else {
        status & 0xFD
    };
    if result & 0x80 != 0 {
        s1 | 0x80
    } else {
        s1 & 0x7F
    }
}

/// Interprets memory from the program counter until a break opcode, stepping
/// through the supported opcodes. Yields the halted state — the program
/// counter just past the break, running flag aside — or nothing when
/// execution reads past the end of memory or meets an unsupported opcode.
pub open spec fn spec_execute(s: CoreState) -> Option<CoreState>
    decreases 0x10000 - s.program_counter,
{
    let pc = s.program_counter as int;
    if pc >= MEMORY_SIZE {
        None
    } else {
        let op = s.memory[pc];
        if op == 0x00 {
            Some(CoreState { program_counter: (pc + 1) as u16, ..s })
        } else if op == 0xAA {
            spec_execute(
                CoreState {
                    register_x: s.register_a,
                    status: zn_update(s.status, s.register_a),
                    program_counter: (pc + 1) as u16,
                    ..s
                },
            )
        } else if op == 0xA9 {
            if pc + 1 < MEMORY_SIZE {
                let param = s.memory[pc + 1];
                spec_execute(
                    CoreState {
                        register_a: param,
                        status: zn_update(s.status, param),
                        program_counter: (pc + 2) as u16,
                        ..s
                    },
                )
            } else {
                None
            }
        } else if op == 0x85 {
            if pc + 1 < MEMORY_SIZE {
                let param = s.memory[pc + 1];
                spec_execute(
                    CoreState {
                        memory: s.memory.update(param as int, s.register_a),
                        program_counter: (pc + 2) as u16,
                        ..s
                    },
                )
            } else {
                None
            }
        } else {
            None
        }
    }
}

/// Memory after a program is loaded: the program's bytes at the program
/// base, the reset vector pointing at the program base, everything else
/// untouched.
pub open spec fn spec_load(mem: Seq<u8>, prog: Seq<u8>) -> Seq<u8> {
    Seq::new(
        mem.len(),
        |i: int|
            if i == 0xFFFC {
                0x00u8
            } else if i == 0xFFFD {
                0x80u8
            } else if PROGRAM_BASE <= i < PROGRAM_BASE + prog.len() {
                prog[i - PROGRAM_BASE]
            } else {
                mem[i]
            },
    )
}

/// The state a processor boots into after loading a program and resetting:
/// cleared registers, the program counter read from the reset vector.
pub open spec fn spec_boot(m: CpuModel, prog: Seq<u8>) -> CoreState {
    let mem = spec_load(m.memory, prog);
    CoreState {
        register_a: 0,
        register_x: 0,
        status: 0,
        program_counter: (mem[0xFFFC] + mem[0xFFFD] * 0x100) as u16,
        memory: mem,
    }
}

impl CPU {
    /// A powered-off processor: cleared registers and zeroed memory.
    pub fn new() -> (r: Self)
        ensures
            r@.register_a == 0,
            r@.register_x == 0,
            r@.register_y == 0,
            r@.status == 0,
            r@.program_counter == 0,
            r@.memory == Seq::new(MEMORY_SIZE as nat, |i: int| 0u8),
            r@.is_running == false,
            r@.debug_mode == false,
            r@.monitored_memory_range == (0usize, 15usize),
            cpu_wf(r@),
    {
        let mut memory: Vec<u8> = Vec::new();
        let mut i: usize = 0;
        while i < MEMORY_SIZE
            invariant
                i <= MEMORY_SIZE,
                memory@.len() == i,
                forall|k: int| 0 <= k < i ==> memory@[k] == 0u8,
            decreases MEMORY_SIZE - i,
        {
            memory.push(0);
            i += 1;
        }
        proof {
            assert(memory@ =~= Seq::new(MEMORY_SIZE as nat, |k: int| 0u8));
        }
        CPU {
            register_a: 0,
            register_x: 0,
            register_y: 0,
            status: 0,
            program_counter: 0,
            memory,
            is_running: false,
            debug_mode: false,
            monitored_memory_range: (0x0000, 15),
        }
    }

    fn mem_read(&self, addr: u16) -> (r: u8)
        requires
            cpu_wf(self@),
            addr < MEMORY_SIZE,
        ensures
            r == self@.memory[addr as int],
    {
        self.memory[addr as usize]
    }

    fn mem_write(&mut self, addr: u16, data: u8)
        requires
            cpu_wf(old(self)@),
            addr < MEMORY_SIZE,
        ensures
            final(self)@ == (CpuModel {
                memory: old(self)@.memory.update(addr as int, data),
                ..old(self)@
            }),
            cpu_wf(final(self)@),
    {
        self.memory[addr as usize] = data;
    }

    fn mem_read_u16(&mut self, pos: u16) -> (r: u16)
        requires
            cpu_wf(old(self)@),
            pos + 1 < MEMORY_SIZE,
        ensures
            final(self)@ == old(self)@,
            r == old(self)@.memory[pos as int] + old(self)@.memory[pos as int + 1] * 0x100,
    {
        let lo = self.mem_read(pos) as u16;
        let hi = self.mem_read(pos + 1) as u16;
        hi * 0x100 + lo
    }

    fn mem_write_u16(&mut self, pos: u16, data: u16)
        requires
            cpu_wf(old(self)@),
            pos + 1 < MEMORY_SIZE,
        ensures
            final(self)@ == (CpuModel {
                memory: old(self)@.memory.update(pos as int, (data as int % 0x100) as u8).update(
                    pos as int + 1,
                    (data as int / 0x100) as u8,
                ),
                ..old(self)@
            }),
            cpu_wf(final(self)@),
    {
        let hi = (data / 0x100) as u8;
        let lo = (data % 0x100) as u8;
        self.mem_write(pos, lo);
        self.mem_write(pos + 1, hi);
    }

    /// Clears the registers and reads the program counter from the reset
    /// vector.
    pub fn reset(&mut self)
        requires
            cpu_wf(old(self)@),
        ensures
            final(self)@ == (CpuModel {
                register_a: 0,
                register_x: 0,
                register_y: 0,
                status: 0,
                program_counter: (old(self)@.memory[0xFFFC] + old(self)@.memory[0xFFFD] * 0x100)
                    as u16,
                ..old(self)@
            }),
            cpu_wf(final(self)@),
    {
        self.register_a = 0;
        self.register_x = 0;
        self.register_y = 0;
        self.status = 0;

        self.program_counter = self.mem_read_u16(0xFFFC);
    }

    /// Copies a program into memory at the program base and points the reset
    /// vector at it.
    pub fn load(&mut self, program: Vec<u8>)
        requires
            cpu_wf(old(self)@),
            program@.len() <= 0x7FFF,
        ensures
            final(self)@ == (CpuModel {
                memory: spec_load(old(self)@.memory, program@),
                ..old(self)@
            }),
            cpu_wf(final(self)@),
    {
        let ghost orig = self@.memory;
        let mut i: usize = 0;
        while i < program.len()
            invariant
                cpu_wf(self@),
                i <= program@.len() <= 0x7FFF,
                self@ == (CpuModel { memory: self@.memory, ..old(self)@ }),
                self@.memory.len() == orig.len(),
                forall|k: int| 0 <= k < i ==> self@.memory[PROGRAM_BASE + k] == program@[k],
                forall|j: int|
                    0 <= j < orig.len() && !(PROGRAM_BASE <= j < PROGRAM_BASE + i)
                        ==> self@.memory[j] == orig[j],
            decreases program@.len() - i,
        {
            let b = program[i];
            self.mem_write((PROGRAM_BASE + i) as u16, b);
            i += 1;
        }
        self.mem_write_u16(0xFFFC, PROGRAM_BASE as u16);
        proof {
            assert(final(self)@.memory =~= spec_load(orig, program@));
        }
    }

    /// Loads a program, resets, and runs it to its break instruction.
    pub fn load_and_run(&mut self, program: Vec<u8>)
        requires
            cpu_wf(old(self)@),
            program@.len() <= 0x7FFF,
            spec_execute(spec_boot(old(self)@, program@)) is Some,
        ensures
            cpu_wf(final(self)@),
            core_state(final(self)@) == spec_execute(spec_boot(old(self)@, program@))->Some_0,
            final(self)@.register_y == 0,
            final(self)@.is_running == false,
            final(self)@.debug_mode == old(self)@.debug_mode,
            final(self)@.monitored_memory_range == old(self)@.monitored_memory_range,
    {
        self.load(program);
        self.reset();
        self.run();
    }

    fn lda(&mut self, value: u8)
        ensures
            final(self)@ == (CpuModel {
                register_a: value,
                status: zn_update(old(self)@.status, value),
                ..old(self)@
            }),
    {
        self.register_a = value;
        self.update_zero_and_negative_flags(self.register_a);
    }

    fn tax(&mut self)
        ensures
            final(self)@ == (CpuModel {
                register_x: old(self)@.register_a,
                status: zn_update(old(self)@.status, old(self)@.register_a),
                ..old(self)@
            }),
    {
        self.register_x = self.register_a;
        self.update_zero_and_negative_flags(self.register_x);
    }

    fn sta(&mut self, value: u8)
        requires
            cpu_wf(old(self)@),
        ensures
            final(self)@ == (CpuModel {
                memory: old(self)@.memory.update(value as int, old(self)@.register_a),
                ..old(self)@
            }),
            cpu_wf(final(self)@),
    {
        self.memory[value as usize] = self.register_a;
    }

    fn update_zero_and_negative_flags(&mut self, result: u8)
        ensures
            final(self)@ == (CpuModel { status: zn_update(old(self)@.status, result), ..old(self)@
            }),
    {
        if result == 0 {
            self.status = self.status | 0b0000_0010;
        } else {
            self.status = self.status & 0b1111_1101;
        }

        if result & 0b1000_0000 != 0 {
            self.status = self.status | 0b1000_0000;
        } else {
            self.status = self.status & 0b0111_1111;
        }
    }

    /// Interprets memory from the current program counter until a break
    /// opcode, exactly as [`spec_execute`] describes.
    pub fn run(&mut self)
        requires
            cpu_wf(old(self)@),
            spec_execute(core_state(old(self)@)) is Some,
        ensures
            cpu_wf(final(self)@),
            core_state(final(self)@) == spec_execute(core_state(old(self)@))->Some_0,
            final(self)@.register_y == old(self)@.register_y,
            final(self)@.is_running == false,
            final(self)@.debug_mode == old(self)@.debug_mode,
            final(self)@.monitored_memory_range == old(self)@.monitored_memory_range,
    {
        self.is_running = true;

        loop
            invariant_except_break
                cpu_wf(self@),
                spec_execute(core_state(self@)) == spec_execute(core_state(old(self)@)),
                spec_execute(core_state(self@)) is Some,
                self@.register_y == old(self)@.register_y,
                self@.is_running == true,
                self@.debug_mode == old(self)@.debug_mode,
                self@.monitored_memory_range == old(self)@.monitored_memory_range,
            ensures
                cpu_wf(self@),
                core_state(self@) == spec_execute(core_state(old(self)@))->Some_0,
                self@.register_y == old(self)@.register_y,
                self@.debug_mode == old(self)@.debug_mode,
                self@.monitored_memory_range == old(self)@.monitored_memory_range,
            decreases 0x10000 - self.program_counter,
        {
            let ghost head = core_state(self@);
            proof {
                assert(head.program_counter < MEMORY_SIZE);
            }
            let opscode = self.mem_read(self.program_counter);
            self.program_counter = self.program_counter + 1;

            if opscode == 0xA9 {
                proof {
                    assert(head.program_counter + 1 < MEMORY_SIZE);
                }
                let param = self.mem_read(self.program_counter);
                self.program_counter = self.program_counter + 1;
                self.lda(param);
                proof {
                    assert(core_state(self@) == (CoreState {
                        register_a: param,
                        status: zn_update(head.status, param),
                        program_counter: (head.program_counter + 2) as u16,
                        ..head
                    }));
                }
            } else if opscode == 0xAA {
                self.tax();
                proof {
                    assert(core_state(self@) == (CoreState {
                        register_x: head.register_a,
                        status: zn_update(head.status, head.register_a),
                        program_counter: (head.program_counter + 1) as u16,
                        ..head
                    }));
                }
            } else if opscode == 0x85 {
                proof {
                    assert(head.program_counter + 1 < MEMORY_SIZE);
                }
                let param = self.mem_read(self.program_counter);
                self.program_counter = self.program_counter + 1;
                self.sta(param);
                proof {
                    assert(core_state(self@) == (CoreState {
                        memory: head.memory.update(param as int, head.register_a),
                        program_counter: (head.program_counter + 2) as u16,
                        ..head
                    }));
                }
            } else if opscode == 0x00 {
                proof {
                    assert(core_state(self@) == (CoreState {
                        program_counter: (head.program_counter + 1) as u16,
                        ..head
                    }));
                }
                break ;
            } else {
                proof {
                    assert(false);
                }
            }
        }

        self.is_running = false;
    }

    /// Points the monitored memory window at a new start address.
    pub fn set_memory_start_address(&mut self, start: usize)
        ensures
            final(self)@ == (CpuModel {
                monitored_memory_range: (start, 10usize),
                ..old(self)@
            }),
    {
        self.monitored_memory_range = (start, 10);
    }
}

} // verus!
