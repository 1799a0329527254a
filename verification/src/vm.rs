use vstd::prelude::*;

use std::collections::HashMap;

use crate::error::VmError;
use crate::memory::{store16, word_at, Addressable, LinearMemory};
use crate::op::{decode, decode_spec, Instruction};
use crate::register::{reg_idx, register_index, Register, REGISTER_COUNT};
use crate::render::{dec_digits, push_decimal};
use vstd::string::StringExecFns;

verus! {

/// Default memory capacity, in kilobytes.
pub const MEMORY_KILO_BYTES: usize = 8;

/// The machine's state as the contracts see it: the byte image of its
/// memory, the register file, the set of signal ids with a registered
/// handler, and the halted flag. What a registered handler does when
/// invoked is host code and stays outside this model.
#[verifier::ext_equal]
pub ghost struct MachineView {
    pub mem: Seq<u8>,
    pub regs: Seq<u16>,
    pub handlers: Set<u8>,
    pub halted: bool,
}

impl MachineView {
    /// The register file has exactly one slot per identity.
    pub open spec fn wf(self) -> bool {
        self.regs.len() == REGISTER_COUNT
    }

    /// The value held by register `r`.
    pub open spec fn reg(self, r: Register) -> u16 {
        self.regs[reg_idx(r)]
    }
}

/// Addition modulo 2^16: the carry out of the top bit is discarded rather
/// than trapped.
pub open spec fn wrap_add16(x: u16, y: u16) -> u16 {
    if x + y > 0xFFFF {
        (x + y - 0x10000) as u16
    } else {
        (x + y) as u16
    }
}

/// What `push` does to a machine state. Pushing writes the value as a word
/// at the address in SP and then moves SP up by 2; it fails with
/// `OutOfBoundsAccess`, changing nothing, when the stack has run off the
/// end of memory (or off the 16-bit address space).
pub open spec fn push_model(v: MachineView, value: u16) -> (MachineView, Result<(), VmError>)
    recommends
        v.wf(),
{
    let sp = v.reg(Register::SP);
    if sp > 0xFFFD {
        (v, Err(VmError::OutOfBoundsAccess))
    } else if sp + 1 >= v.mem.len() {
        (v, Err(VmError::OutOfBoundsAccess))
    } else {
        (
            MachineView {
                mem: store16(v.mem, sp as int, value),
                regs: v.regs.update(reg_idx(Register::SP), (sp + 2) as u16),
                ..v
            },
            Ok(()),
        )
    }
}

/// What `pop` does to a machine state. With SP below 2 it fails with
/// `StackUnderflow` and changes nothing. Otherwise SP first moves down by
/// 2; then the word at the new SP is read, and a failing read — possible
/// only after SP was redirected out of range — leaves that decrement in
/// place.
pub open spec fn pop_model(v: MachineView) -> (MachineView, Result<u16, VmError>)
    recommends
        v.wf(),
{
    let sp = v.reg(Register::SP);
    if sp < 2 {
        (v, Err(VmError::StackUnderflow))
    } else {
        let nsp = (sp - 2) as u16;
        let v1 = MachineView { regs: v.regs.update(reg_idx(Register::SP), nsp), ..v };
        if nsp + 1 >= v.mem.len() {
            (v1, Err(VmError::OutOfBoundsAccess))
        } else {
            (v1, Ok(word_at(v.mem, nsp as int) as u16))
        }
    }
}

/// The effect of one step. `Done` carries the state after the step and what
/// the step returned. `Dispatch` marks a step that hands the machine, in
/// the carried state, to the host-registered handler for `id`: what that
/// handler does is beyond the model.
pub ghost enum StepEffect {
    Done { post: MachineView, result: Result<(), VmError> },
    Dispatch { pre: MachineView, id: u8 },
}

/// The dispatch of one decoded instruction on a machine whose program
/// counter has already advanced.
pub open spec fn dispatch_model(v: MachineView, instr: Instruction) -> StepEffect
    recommends
        v.wf(),
{
    match instr {
        Instruction::Nop => StepEffect::Done { post: v, result: Ok(()) },
        Instruction::Push(imm) => {
            let (v1, r) = push_model(v, imm as u16);
            StepEffect::Done { post: v1, result: r }
        },
        Instruction::PopReg(r) => {
            let (v1, res) = pop_model(v);
            match res {
                Ok(value) => StepEffect::Done {
                    post: MachineView { regs: v1.regs.update(reg_idx(r), value), ..v1 },
                    result: Ok(()),
                },
                Err(e) => StepEffect::Done { post: v1, result: Err(e) },
            }
        },
        Instruction::PushReg(r) => {
            let (v1, res) = push_model(v, v.reg(r));
            StepEffect::Done { post: v1, result: res }
        },
        Instruction::AddStack => {
            let (v1, r1) = pop_model(v);
            match r1 {
                Err(e) => StepEffect::Done { post: v1, result: Err(e) },
                Ok(a) => {
                    let (v2, r2) = pop_model(v1);
                    match r2 {
                        Err(e) => StepEffect::Done { post: v2, result: Err(e) },
                        Ok(b) => {
                            let (v3, r3) = push_model(v2, wrap_add16(a, b));
                            StepEffect::Done { post: v3, result: r3 }
                        },
                    }
                },
            }
        },
        Instruction::AddReg(r1, r2) => StepEffect::Done {
            post: MachineView {
                regs: v.regs.update(reg_idx(r1), wrap_add16(v.reg(r1), v.reg(r2))),
                ..v
            },
            result: Ok(()),
        },
        Instruction::Signal(id) => {
            if v.handlers.contains(id) {
                StepEffect::Dispatch { pre: v, id }
            } else {
                StepEffect::Done { post: v, result: Err(VmError::UnknownSignal) }
            }
        },
        Instruction::Jmp(r) => StepEffect::Done {
            post: MachineView { regs: v.regs.update(reg_idx(Register::PC), v.reg(r)), ..v },
            result: Ok(()),
        },
    }
}

/// One whole step: fetch the word at PC, advance PC past it, decode, and
/// dispatch. A failing fetch changes nothing; from the decode on, PC stays
/// advanced, so a word that decodes to no instruction is skipped, not
/// retried, and every later failure leaves the mutations already applied in
/// place.
pub open spec fn step_model(v: MachineView) -> StepEffect
    recommends
        v.wf(),
{
    let pc = v.reg(Register::PC);
    if pc > 0xFFFD || pc + 1 >= v.mem.len() {
        StepEffect::Done { post: v, result: Err(VmError::OutOfBoundsAccess) }
    } else {
        let word = word_at(v.mem, pc as int) as u16;
        let v1 = MachineView { regs: v.regs.update(reg_idx(Register::PC), (pc + 2) as u16), ..v };
        match decode_spec(word) {
            None => StepEffect::Done { post: v1, result: Err(VmError::InvalidOpcode) },
            Some(instr) => dispatch_model(v1, instr),
        }
    }
}

/// A host-supplied signal callback, invoked during `step` with mutable
/// access to the dispatching machine. Opaque to the verifier: the machine's
/// model records only which signal ids have a handler, never what a handler
/// does.
#[verifier::external_body]
#[verifier::reject_recursive_types(M)]
struct SignalHandler<M: Addressable> {
    f: std::rc::Rc<dyn Fn(&mut Machine<M>)>,
}

impl<M: Addressable> SignalHandler<M> {
    /// Wraps the callback unexamined; nothing is stated about it.
    #[verifier::external_body]
    fn new(f: impl Fn(&mut Machine<M>) + 'static) -> (h: Self) {
        SignalHandler { f: std::rc::Rc::new(f) }
    }
}

/// The execution engine: owns the memory, the register file, the signal
/// handler registry and the halted flag, and advances by exactly one
/// instruction per `step`. Generic over the memory backend, so another
/// `Addressable` can stand in for the linear one without any engine change.
///
/// `machine_halted` is a convention between host and driver: a handler is
/// expected to set it and the driver to check it; `step` itself never does.
#[verifier::reject_recursive_types(M)]
pub struct Machine<M: Addressable> {
    pub memory: M,
    registers: [u16; REGISTER_COUNT],
    signal_handlers: HashMap<u8, SignalHandler<M>>,
    pub machine_halted: bool,
}

impl<M: Addressable> View for Machine<M> {
    type V = MachineView;

    closed spec fn view(&self) -> MachineView {
        MachineView {
            mem: self.memory.contents(),
            regs: self.registers@,
            handlers: self.signal_handlers@.dom(),
            halted: self.machine_halted,
        }
    }
}

impl Machine<LinearMemory> {
    /// A fresh machine: zero-filled memory of the default capacity, zeroed
    /// registers, no handlers, not halted.
    #[must_use]
    pub fn new() -> (m: Self)
        ensures
            m@.regs == Seq::new(REGISTER_COUNT as nat, |i: int| 0u16),
            m@.mem == Seq::new((MEMORY_KILO_BYTES * 1024) as nat, |i: int| 0u8),
            m@.handlers == Set::<u8>::empty(),
            m@.halted == false,
    {
        let m = Machine {
            memory: LinearMemory::new(MEMORY_KILO_BYTES * 1024),
            registers: [0u16; REGISTER_COUNT],
            signal_handlers: HashMap::new(),
            machine_halted: false,
        };
        proof {
            assert(m@.regs =~= Seq::new(REGISTER_COUNT as nat, |i: int| 0u16));
            assert(m@.handlers =~= Set::<u8>::empty());
        }
        m
    }
}

impl Default for Machine<LinearMemory> {
    /// The same machine as [`Machine::new`].
    fn default() -> (m: Self)
        ensures
            m@.regs == Seq::new(REGISTER_COUNT as nat, |i: int| 0u16),
            m@.mem == Seq::new((MEMORY_KILO_BYTES * 1024) as nat, |i: int| 0u8),
            m@.handlers == Set::<u8>::empty(),
            m@.halted == false,
    {
        Machine::new()
    }
}

/// The rendering of the register file that [`Machine::status`] returns:
/// each register's name and decimal value, space-separated, in the fixed
/// order of the file.
pub open spec fn status_spec(v: MachineView) -> Seq<char>
    recommends
        v.wf(),
{
    "A="@ + dec_digits(v.reg(Register::A) as nat) + " B="@ + dec_digits(v.reg(Register::B) as nat)
        + " C="@ + dec_digits(v.reg(Register::C) as nat) + " M="@ + dec_digits(
        v.reg(Register::M) as nat,
    ) + " SP="@ + dec_digits(v.reg(Register::SP) as nat) + " PC="@ + dec_digits(
        v.reg(Register::PC) as nat,
    ) + " BP="@ + dec_digits(v.reg(Register::BP) as nat) + " FL="@ + dec_digits(
        v.reg(Register::FL) as nat,
    )
}

impl<M: Addressable> Machine<M> {
    /// A human-readable, one-line rendering of the register file, for
    /// status display and debugging. Exactly [`status_spec`].
    #[must_use]
    pub fn status(&self) -> (s: String)
        ensures
            s@ == status_spec(self@),
    {
        let mut s = String::new();
        s.append("A=");
        push_decimal(&mut s, self.get_register(Register::A));
        s.append(" B=");
        push_decimal(&mut s, self.get_register(Register::B));
        s.append(" C=");
        push_decimal(&mut s, self.get_register(Register::C));
        s.append(" M=");
        push_decimal(&mut s, self.get_register(Register::M));
        s.append(" SP=");
        push_decimal(&mut s, self.get_register(Register::SP));
        s.append(" PC=");
        push_decimal(&mut s, self.get_register(Register::PC));
        s.append(" BP=");
        push_decimal(&mut s, self.get_register(Register::BP));
        s.append(" FL=");
        push_decimal(&mut s, self.get_register(Register::FL));
        proof {
            assert(s@ =~= status_spec(self@));
        }
        s
    }

    /// The value currently held by register `r`.
    #[must_use]
    pub fn get_register(&self, r: Register) -> (value: u16)
        ensures
            value == self@.reg(r),
    {
        self.registers[register_index(r)]
    }

    /// Register `handler` for signal `id`, replacing any handler that id
    /// had. Only the set of registered ids is modeled; the callback itself
    /// is host code.
    pub fn define_handler(&mut self, id: u8, handler: impl Fn(&mut Machine<M>) + 'static)
        ensures
            final(self)@ == (MachineView { handlers: old(self)@.handlers.insert(id), ..old(self)@ }),
    {
        self.signal_handlers.insert(id, SignalHandler::new(handler));
    }

    /// Push `value`: write it as a word at the address in SP, then move SP
    /// up by 2. Exactly [`push_model`].
    pub fn push(&mut self, value: u16) -> (r: Result<(), VmError>)
        ensures
            final(self)@ == push_model(old(self)@, value).0,
            r == push_model(old(self)@, value).1,
    {
        let sp = self.registers[register_index(Register::SP)];
        if sp >= 0xFFFE {
            return Err(VmError::OutOfBoundsAccess);
        }
        match self.memory.write_u16(sp, value) {
            Ok(()) => {
                self.registers[register_index(Register::SP)] = sp + 2;
                Ok(())
            },
            Err(e) => Err(e),
        }
    }

    /// Pop a word: move SP down by 2, then read the word there. Exactly
    /// [`pop_model`].
    pub fn pop(&mut self) -> (r: Result<u16, VmError>)
        ensures
            final(self)@ == pop_model(old(self)@).0,
            r == pop_model(old(self)@).1,
    {
        let sp = self.registers[register_index(Register::SP)];
        if sp < 2 {
            return Err(VmError::StackUnderflow);
        }
        let nsp = sp - 2;
        self.registers[register_index(Register::SP)] = nsp;
        match self.memory.read_u16(nsp) {
            Ok(w) => Ok(w),
            Err(e) => Err(e),
        }
    }

    /// Relies on the host-registered callback for `id`: dispatches it with
    /// mutable access to this machine. The callback may read and write
    /// registers, memory and the halted flag at will, so nothing is stated
    /// about the machine afterwards.
    #[verifier::external_body]
    fn run_handler(&mut self, id: u8)
        requires
            old(self)@.handlers.contains(id),
    {
        let f = std::rc::Rc::clone(&self.signal_handlers.get(&id).unwrap().f);
        f(self);
    }

    /// Advance the machine by exactly one instruction, as [`step_model`]
    /// says: fetch at PC, advance PC by 2, decode, dispatch. The first
    /// failure is returned and ends the step; mutations already applied —
    /// the advanced PC, a first pop's moved SP — stay in place. When the
    /// instruction is a `Signal` with a registered handler, the handler
    /// runs synchronously on this machine and the step returns `Ok`; the
    /// machine is then whatever the handler left behind.
    pub fn step(&mut self) -> (r: Result<(), VmError>)
        ensures
            (step_model(old(self)@) matches StepEffect::Done { post, result } ==> (final(self)@
                == post && r == result)),
            (step_model(old(self)@) matches StepEffect::Dispatch { pre, id } ==> r == Ok::<
                (),
                VmError,
            >(())),
    {
        let pc = self.registers[register_index(Register::PC)];
        let word = match self.memory.read_u16(pc) {
            Ok(w) => w,
            Err(e) => {
                return Err(e);
            },
        };
        if pc >= 0xFFFE {
            return Err(VmError::OutOfBoundsAccess);
        }
        self.registers[register_index(Register::PC)] = pc + 2;
        let instr = match decode(word) {
            Ok(i) => i,
            Err(e) => {
                return Err(e);
            },
        };
        self.dispatch(instr)
    }

    /// Dispatch one decoded instruction on a machine whose PC has already
    /// advanced. Exactly [`dispatch_model`], but for a `Signal` with a
    /// registered handler, where the handler decides the final state.
    fn dispatch(&mut self, instr: Instruction) -> (r: Result<(), VmError>)
        ensures
            (dispatch_model(old(self)@, instr) matches StepEffect::Done { post, result } ==> (
            final(self)@ == post && r == result)),
            (dispatch_model(old(self)@, instr) matches StepEffect::Dispatch { pre, id } ==> r
                == Ok::<(), VmError>(())),
    {
        match instr {
            Instruction::Nop => Ok(()),
            Instruction::Push(imm) => self.push(imm as u16),
            Instruction::PopReg(r) => {
                match self.pop() {
                    Ok(value) => {
                        self.registers[register_index(r)] = value;
                        Ok(())
                    },
                    Err(e) => Err(e),
                }
            },
            Instruction::PushReg(r) => {
                let value = self.registers[register_index(r)];
                self.push(value)
            },
            Instruction::AddStack => {
                match self.pop() {
                    Err(e) => Err(e),
                    Ok(a) => {
                        match self.pop() {
                            Err(e) => Err(e),
                            Ok(b) => self.push(a.wrapping_add(b)),
                        }
                    },
                }
            },
            Instruction::AddReg(r1, r2) => {
                let x = self.registers[register_index(r1)];
                let y = self.registers[register_index(r2)];
                self.registers[register_index(r1)] = x.wrapping_add(y);
                Ok(())
            },
            Instruction::Signal(id) => {
                if self.signal_handlers.contains_key(&id) {
                    self.run_handler(id);
                    Ok(())
                } else {
                    Err(VmError::UnknownSignal)
                }
            },
            Instruction::Jmp(r) => {
                let target = self.registers[register_index(r)];
                self.registers[register_index(Register::PC)] = target;
                Ok(())
            },
        }
    }
}

/// Stack symmetry: a push that succeeds, followed by a pop, hands the
/// pushed value back exactly and leaves SP at its pre-push value, with the
/// halted flag and the handler set untouched.
pub proof fn lemma_push_pop_symmetry(v: MachineView, value: u16)
    requires
        v.wf(),
        push_model(v, value).1 is Ok,
    ensures
        pop_model(push_model(v, value).0).1 == Ok::<u16, VmError>(value),
        pop_model(push_model(v, value).0).0.reg(Register::SP) == v.reg(Register::SP),
        pop_model(push_model(v, value).0).0.halted == v.halted,
        pop_model(push_model(v, value).0).0.handlers == v.handlers,
{
    let sp = v.reg(Register::SP);
    crate::memory::lemma_word_roundtrip(v.mem, sp as int, value);
}

/// Underflow: with SP below 2 — as on a freshly constructed machine, where
/// it is 0 — a pop fails with `StackUnderflow` and changes nothing at all.
pub proof fn lemma_pop_underflow(v: MachineView)
    requires
        v.wf(),
        v.reg(Register::SP) < 2,
    ensures
        pop_model(v) == (v, Err::<u16, VmError>(VmError::StackUnderflow)),
{
}

/// Unknown opcode: when the fetched word decodes to no instruction, the
/// step fails with `InvalidOpcode`; PC has advanced by 2 past the rejected
/// word, and nothing else — memory, every other register, the halted flag,
/// the handler set — has changed.
pub proof fn lemma_unknown_opcode(v: MachineView)
    requires
        v.wf(),
        v.reg(Register::PC) <= 0xFFFD,
        v.reg(Register::PC) + 1 < v.mem.len(),
        decode_spec(word_at(v.mem, v.reg(Register::PC) as int) as u16) is None,
    ensures
        step_model(v) matches StepEffect::Done { post, result } && result == Err::<
            (),
            VmError,
        >(VmError::InvalidOpcode) && post.mem == v.mem && post.halted == v.halted
            && post.handlers == v.handlers && post.reg(Register::PC) == v.reg(Register::PC) + 2
            && (forall|r: Register| r != Register::PC ==> post.reg(r) == v.reg(r)),
{
}

/// Unknown signal: a `Signal` instruction whose id has no registered
/// handler fails with `UnknownSignal`; no handler runs, the halted flag is
/// untouched, and the machine is unchanged but for the advanced PC.
pub proof fn lemma_unknown_signal(v: MachineView, id: u8)
    requires
        v.wf(),
        v.reg(Register::PC) <= 0xFFFD,
        v.reg(Register::PC) + 1 < v.mem.len(),
        decode_spec(word_at(v.mem, v.reg(Register::PC) as int) as u16) == Some(
            Instruction::Signal(id),
        ),
        !v.handlers.contains(id),
    ensures
        step_model(v) matches StepEffect::Done { post, result } && result == Err::<
            (),
            VmError,
        >(VmError::UnknownSignal) && post.mem == v.mem && post.halted == v.halted
            && post.handlers == v.handlers && post.reg(Register::PC) == v.reg(Register::PC) + 2
            && (forall|r: Register| r != Register::PC ==> post.reg(r) == v.reg(r)),
{
}

/// The state after `n` modeled steps. A step that dispatches a host signal
/// handler hands the machine to code outside the model, so the run is cut
/// there, in the state the handler would receive.
pub open spec fn run_model(v: MachineView, n: nat) -> MachineView
    recommends
        v.wf(),
    decreases n,
{
    if n == 0 {
        v
    } else {
        match step_model(v) {
            StepEffect::Done { post, result } => run_model(post, (n - 1) as nat),
            StepEffect::Dispatch { pre, id } => pre,
        }
    }
}

/// Repeatability: a step is a function of the machine state alone, so two
/// runs of the same length from identical initial states — the same program
/// image, register file, handler set and flag — pass through identical
/// states and end with identical register files. (What happens beyond a
/// host handler dispatch depends on the host, and the modeled run is cut
/// there.)
pub proof fn lemma_run_repeatable(v1: MachineView, v2: MachineView, n: nat)
    requires
        v1 == v2,
    ensures
        run_model(v1, n) == run_model(v2, n),
        run_model(v1, n).regs == run_model(v2, n).regs,
{
}

} // verus!
