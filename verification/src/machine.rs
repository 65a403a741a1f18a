//! The instruction-dispatch execution engine: a stack machine over the loaded
//! module. The executor owns all mutable runtime state - global slots, the
//! operand stack, the control stack of return addresses, and the instruction
//! pointer - and runs a fetch-decode-execute loop until the instruction
//! pointer passes the end of the code or a fatal trap stops the run.
//!
//! The semantics is stated once, as the small-step function [`spec_step`];
//! every handler's contract says that it performs exactly that step.

use vstd::prelude::*;

verus! {

use crate::errors::{LoadError, Trap};
use crate::object::{Bytecode, ModuleV, spec_load};
use crate::vint::{get_vint, lemma_vint_at_ok, vint_at};

/// Opcode: enter function scope.
pub const OP_ENTER: u8 = 0;
/// Opcode: leave function scope.
pub const OP_LEAVE: u8 = 1;
/// Opcode: push boolean immediate.
pub const OP_PUSHB: u8 = 2;
/// Opcode: push number immediate.
pub const OP_PUSHN: u8 = 3;
/// Opcode: push string immediate.
pub const OP_PUSHS: u8 = 4;
/// Opcode: push bytes immediate.
pub const OP_PUSHT: u8 = 5;
/// Opcode: push pointer to global.
pub const OP_PUSHPG: u8 = 6;
/// Opcode: push pointer to predefined global.
pub const OP_PUSHPPG: u8 = 7;
/// Opcode: push pointer to module global.
pub const OP_PUSHPMG: u8 = 8;
/// Opcode: push pointer to local.
pub const OP_PUSHPL: u8 = 9;
/// Opcode: push pointer to outer local.
pub const OP_PUSHPOL: u8 = 10;
/// Opcode: push 32-bit integer immediate.
pub const OP_PUSHI: u8 = 11;
/// Opcode: load boolean.
pub const OP_LOADB: u8 = 12;
/// Opcode: load number.
pub const OP_LOADN: u8 = 13;
/// Opcode: load string.
pub const OP_LOADS: u8 = 14;
/// Opcode: load bytes.
pub const OP_LOADT: u8 = 15;
/// Opcode: load array.
pub const OP_LOADA: u8 = 16;
/// Opcode: load dictionary.
pub const OP_LOADD: u8 = 17;
/// Opcode: load pointer.
pub const OP_LOADP: u8 = 18;
/// Opcode: load object.
pub const OP_LOADJ: u8 = 19;
/// Opcode: store boolean.
pub const OP_STOREB: u8 = 20;
/// Opcode: store number.
pub const OP_STOREN: u8 = 21;
/// Opcode: store string.
pub const OP_STORES: u8 = 22;
/// Opcode: store bytes.
pub const OP_STORET: u8 = 23;
/// Opcode: store array.
pub const OP_STOREA: u8 = 24;
/// Opcode: store dictionary.
pub const OP_STORED: u8 = 25;
/// Opcode: store pointer.
pub const OP_STOREP: u8 = 26;
/// Opcode: store object.
pub const OP_STOREJ: u8 = 27;
/// Opcode: negate number.
pub const OP_NEGN: u8 = 28;
/// Opcode: add number.
pub const OP_ADDN: u8 = 29;
/// Opcode: subtract number.
pub const OP_SUBN: u8 = 30;
/// Opcode: multiply number.
pub const OP_MULN: u8 = 31;
/// Opcode: divide number.
pub const OP_DIVN: u8 = 32;
/// Opcode: modulo number.
pub const OP_MODN: u8 = 33;
/// Opcode: exponentiate number.
pub const OP_EXPN: u8 = 34;
/// Opcode: compare equal boolean.
pub const OP_EQB: u8 = 35;
/// Opcode: compare unequal boolean.
pub const OP_NEB: u8 = 36;
/// Opcode: compare equal number.
pub const OP_EQN: u8 = 37;
/// Opcode: compare unequal number.
pub const OP_NEN: u8 = 38;
/// Opcode: compare less number.
pub const OP_LTN: u8 = 39;
/// Opcode: compare greater number.
pub const OP_GTN: u8 = 40;
/// Opcode: compare less equal number.
pub const OP_LEN: u8 = 41;
/// Opcode: compare greater equal number.
pub const OP_GEN: u8 = 42;
/// Opcode: compare equal string.
pub const OP_EQS: u8 = 43;
/// Opcode: compare unequal string.
pub const OP_NES: u8 = 44;
/// Opcode: compare less string.
pub const OP_LTS: u8 = 45;
/// Opcode: compare greater string.
pub const OP_GTS: u8 = 46;
/// Opcode: compare less equal string.
pub const OP_LES: u8 = 47;
/// Opcode: compare greater equal string.
pub const OP_GES: u8 = 48;
/// Opcode: compare equal bytes.
pub const OP_EQT: u8 = 49;
/// Opcode: compare unequal bytes.
pub const OP_NET: u8 = 50;
/// Opcode: compare less bytes.
pub const OP_LTT: u8 = 51;
/// Opcode: compare greater bytes.
pub const OP_GTT: u8 = 52;
/// Opcode: compare less equal bytes.
pub const OP_LET: u8 = 53;
/// Opcode: compare greater equal bytes.
pub const OP_GET: u8 = 54;
/// Opcode: compare equal array.
pub const OP_EQA: u8 = 55;
/// Opcode: compare unequal array.
pub const OP_NEA: u8 = 56;
/// Opcode: compare equal dictionary.
pub const OP_EQD: u8 = 57;
/// Opcode: compare unequal dictionary.
pub const OP_NED: u8 = 58;
/// Opcode: compare equal pointer.
pub const OP_EQP: u8 = 59;
/// Opcode: compare unequal pointer.
pub const OP_NEP: u8 = 60;
/// Opcode: and boolean.
pub const OP_ANDB: u8 = 61;
/// Opcode: or boolean.
pub const OP_ORB: u8 = 62;
/// Opcode: not boolean.
pub const OP_NOTB: u8 = 63;
/// Opcode: index array for read.
pub const OP_INDEXAR: u8 = 64;
/// Opcode: index array for write.
pub const OP_INDEXAW: u8 = 65;
/// Opcode: index array value.
pub const OP_INDEXAV: u8 = 66;
/// Opcode: index array value, no exception.
pub const OP_INDEXAN: u8 = 67;
/// Opcode: index dictionary for read.
pub const OP_INDEXDR: u8 = 68;
/// Opcode: index dictionary for write.
pub const OP_INDEXDW: u8 = 69;
/// Opcode: index dictionary value.
pub const OP_INDEXDV: u8 = 70;
/// Opcode: in array.
pub const OP_INA: u8 = 71;
/// Opcode: in dictionary.
pub const OP_IND: u8 = 72;
/// Opcode: call predefined.
pub const OP_CALLP: u8 = 73;
/// Opcode: call function.
pub const OP_CALLF: u8 = 74;
/// Opcode: call module function.
pub const OP_CALLMF: u8 = 75;
/// Opcode: call indirect.
pub const OP_CALLI: u8 = 76;
/// Opcode: unconditional jump.
pub const OP_JUMP: u8 = 77;
/// Opcode: jump if false.
pub const OP_JF: u8 = 78;
/// Opcode: jump if true.
pub const OP_JT: u8 = 79;
/// Opcode: jump and drop next if false.
pub const OP_JFCHAIN: u8 = 80;
/// Opcode: duplicate.
pub const OP_DUP: u8 = 81;
/// Opcode: duplicate under second value.
pub const OP_DUPX1: u8 = 82;
/// Opcode: drop.
pub const OP_DROP: u8 = 83;
/// Opcode: return.
pub const OP_RET: u8 = 84;
/// Opcode: call foreign.
pub const OP_CALLE: u8 = 85;
/// Opcode: construct array.
pub const OP_CONSA: u8 = 86;
/// Opcode: construct dictionary.
pub const OP_CONSD: u8 = 87;
/// Opcode: throw exception.
pub const OP_EXCEPT: u8 = 88;
/// Opcode: allocate record.
pub const OP_ALLOC: u8 = 89;
/// Opcode: push nil pointer.
pub const OP_PUSHNIL: u8 = 90;
/// Opcode: jump if assertions disabled.
pub const OP_JNASSERT: u8 = 91;
/// Opcode: reset cell.
pub const OP_RESETC: u8 = 92;
/// Opcode: push pointer to external global.
pub const OP_PUSHPEG: u8 = 93;
/// Opcode: jump table.
pub const OP_JUMPTBL: u8 = 94;
/// Opcode: call extension.
pub const OP_CALLX: u8 = 95;
/// Opcode: swap two top stack elements.
pub const OP_SWAP: u8 = 96;
/// Opcode: drop element n.
pub const OP_DROPN: u8 = 97;
/// Opcode: push current module.
pub const OP_PUSHM: u8 = 98;
/// Opcode: call virtual.
pub const OP_CALLV: u8 = 99;
/// Opcode: push class info.
pub const OP_PUSHCI: u8 = 100;
/// Opcode: map array.
pub const OP_MAPA: u8 = 101;
/// Opcode: map dictionary.
pub const OP_MAPD: u8 = 102;

/// A runtime value: the unit of storage on the operand stack and in global
/// slots. This engine realizes the "no value" and string kinds of the format's
/// value union; instructions for the other kinds are unimplemented traps, so
/// no other kind can ever be constructed.
pub enum Cell {
    /// The uninitialized/default "no value" kind.
    Nothing,
    /// An immutable text value.
    Str(String),
}

/// The mathematical content of a [`Cell`].
pub enum CellV {
    Nothing,
    Str(Seq<char>),
}

/// The content of one cell.
pub open spec fn cell_v(c: Cell) -> CellV {
    match c {
        Cell::Nothing => CellV::Nothing,
        Cell::Str(s) => CellV::Str(s@),
    }
}

/// The executor's mutable state, as mathematics: global slots, operand stack,
/// control stack, instruction pointer, and the lines of output produced so
/// far by the builtin `print`.
#[verifier::ext_equal]
pub struct StateV {
    pub globals: Seq<CellV>,
    pub stack: Seq<CellV>,
    pub callstack: Seq<usize>,
    pub ip: usize,
    pub output: Seq<Seq<char>>,
}

/// The outcome of one machine step: a successor state, a fatal trap, or a
/// normal halt because the instruction pointer passed the end of the code.
pub enum StepR {
    Next(StateV),
    Fault(Trap),
    Halted,
}

/// PUSHS: read a vint string-pool index following the opcode and push that
/// pool entry on the operand stack.
pub open spec fn step_pushs(code: Seq<u8>, strings: Seq<Seq<char>>, s: StateV) -> StepR {
    match vint_at(code, s.ip + 1, 0) {
        Err(_) => StepR::Fault(Trap::MalformedOperand(s.ip)),
        Ok((idx, end)) => if idx >= strings.len() {
            StepR::Fault(Trap::StringIndexOutOfRange(s.ip))
        } else {
            StepR::Next(
                StateV {
                    stack: s.stack.push(CellV::Str(strings[idx as int])),
                    ip: end as usize,
                    ..s
                },
            )
        },
    }
}

/// CALLP: read a vint string-pool index naming a builtin. The one builtin
/// this engine provides is `print`, which pops one string from the operand
/// stack and appends it to the output; it completes synchronously, without a
/// control-stack frame.
pub open spec fn step_callp(code: Seq<u8>, strings: Seq<Seq<char>>, s: StateV) -> StepR {
    match vint_at(code, s.ip + 1, 0) {
        Err(_) => StepR::Fault(Trap::MalformedOperand(s.ip)),
        Ok((idx, end)) => if idx >= strings.len() {
            StepR::Fault(Trap::StringIndexOutOfRange(s.ip))
        } else if strings[idx as int] == "print"@ {
            if s.stack.len() == 0 {
                StepR::Fault(Trap::StackUnderflow(s.ip))
            } else {
                match s.stack.last() {
                    CellV::Str(text) => StepR::Next(
                        StateV {
                            stack: s.stack.drop_last(),
                            output: s.output.push(text),
                            ip: end as usize,
                            ..s
                        },
                    ),
                    _ => StepR::Fault(Trap::TypeMismatch(s.ip)),
                }
            }
        } else {
            StepR::Fault(Trap::UnresolvedFunction(s.ip))
        },
    }
}

/// RET: pop the top return address of the control stack into the instruction
/// pointer.
pub open spec fn step_ret(s: StateV) -> StepR {
    if s.callstack.len() == 0 {
        StepR::Fault(Trap::ControlStackUnderflow(s.ip))
    } else {
        StepR::Next(
            StateV { ip: s.callstack.last(), callstack: s.callstack.drop_last(), ..s },
        )
    }
}

/// The small-step transition of the machine: halt past the end of the code,
/// perform the realized instruction at the instruction pointer, or fault -
/// with the unimplemented-opcode trap for format opcodes this engine does not
/// realize, and the invalid-opcode trap for bytes with no assigned meaning.
pub open spec fn spec_step(code: Seq<u8>, strings: Seq<Seq<char>>, s: StateV) -> StepR {
    if s.ip >= code.len() {
        StepR::Halted
    } else {
        let op = code[s.ip as int];
        if op == OP_PUSHS {
            step_pushs(code, strings, s)
        } else if op == OP_CALLP {
            step_callp(code, strings, s)
        } else if op == OP_RET {
            step_ret(s)
        } else if op <= OP_MAPD {
            StepR::Fault(Trap::UnimplementedOpcode(s.ip))
        } else {
            StepR::Fault(Trap::InvalidOpcode(s.ip))
        }
    }
}

/// `s2` is reached from `s1` by exactly `n` steps of [`spec_step`].
pub open spec fn reaches(
    code: Seq<u8>,
    strings: Seq<Seq<char>>,
    s1: StateV,
    s2: StateV,
    n: nat,
) -> bool
    decreases n,
{
    if n == 0 {
        s1 == s2
    } else {
        match spec_step(code, strings, s1) {
            StepR::Next(mid) => reaches(code, strings, mid, s2, (n - 1) as nat),
            _ => false,
        }
    }
}

/// Reachability extends by one more step at the end.
pub proof fn lemma_reaches_snoc(
    code: Seq<u8>,
    strings: Seq<Seq<char>>,
    s0: StateV,
    s1: StateV,
    s2: StateV,
    n: nat,
)
    requires
        reaches(code, strings, s0, s1, n),
        spec_step(code, strings, s1) == StepR::Next(s2),
    ensures
        reaches(code, strings, s0, s2, n + 1),
    decreases n,
{
    if n == 0 {
        assert(reaches(code, strings, s2, s2, 0));
    } else {
        match spec_step(code, strings, s0) {
            StepR::Next(mid) => {
                lemma_reaches_snoc(code, strings, mid, s1, s2, (n - 1) as nat);
            },
            _ => {
                assert(false);
            },
        }
    }
}

/// Every successor state either shrinks the control stack (RET) or moves the
/// instruction pointer strictly forward, staying within the code (the push
/// and call instructions): the realized subset has no backward jump, so a run
/// always terminates.
pub proof fn lemma_step_measure(code: Seq<u8>, strings: Seq<Seq<char>>, s: StateV)
    requires
        code.len() <= usize::MAX,
    ensures
        spec_step(code, strings, s) matches StepR::Next(s2) ==> {
            ||| s2.callstack.len() < s.callstack.len()
            ||| (s2.callstack == s.callstack && s.ip < s2.ip <= code.len())
        },
{
    if s.ip < code.len() {
        let op = code[s.ip as int];
        if op == OP_PUSHS || op == OP_CALLP {
            lemma_vint_at_ok(code, s.ip + 1, 0);
        }
    }
}

/// A return at the outermost frame: with only the synthetic bottom entry on
/// the control stack, RET sends the instruction pointer to the end of the
/// code, and the step after that halts the machine - no trap arises from a
/// normal program-end return.
pub proof fn lemma_ret_outermost(code: Seq<u8>, strings: Seq<Seq<char>>, s: StateV)
    requires
        s.ip < code.len() <= usize::MAX,
        code[s.ip as int] == OP_RET,
        s.callstack == seq![code.len() as usize],
    ensures
        spec_step(code, strings, s) matches StepR::Next(s2) && s2.ip == code.len()
            && spec_step(code, strings, s2) == StepR::Halted,
{
    assert(s.callstack.last() == code.len() as usize);
}

/// An opcode byte with no assigned meaning is the fatal invalid-opcode trap,
/// reporting the offending instruction offset.
pub proof fn lemma_invalid_opcode(code: Seq<u8>, strings: Seq<Seq<char>>, s: StateV)
    requires
        s.ip < code.len(),
        code[s.ip as int] > OP_MAPD,
    ensures
        spec_step(code, strings, s) == StepR::Fault(Trap::InvalidOpcode(s.ip)),
{
}

/// A format opcode without a realized handler is the fatal
/// unimplemented-opcode trap, distinct from the invalid-opcode trap.
pub proof fn lemma_unimplemented_opcode(code: Seq<u8>, strings: Seq<Seq<char>>, s: StateV)
    requires
        s.ip < code.len(),
        code[s.ip as int] <= OP_MAPD,
        code[s.ip as int] != OP_PUSHS,
        code[s.ip as int] != OP_CALLP,
        code[s.ip as int] != OP_RET,
    ensures
        spec_step(code, strings, s) == StepR::Fault(Trap::UnimplementedOpcode(s.ip)),
{
}

/// The state an executor is constructed in: every global slot holds the
/// "no value" cell, both stacks are empty, the instruction pointer is zero,
/// and no output has been produced.
pub open spec fn init_state(m: ModuleV) -> StateV {
    StateV {
        globals: Seq::new(m.global_size as nat, |i: int| CellV::Nothing),
        stack: Seq::empty(),
        callstack: Seq::empty(),
        ip: 0,
        output: Seq::empty(),
    }
}

/// The execution engine: the loaded module and all mutable runtime state.
pub struct Executor {
    pub object: Bytecode,
    pub globals: Vec<Cell>,
    pub stack: Vec<Cell>,
    pub callstack: Vec<usize>,
    pub ip: usize,
    pub output: Vec<String>,
}

/// What every opcode handler promises: the module is untouched, and the call
/// performs exactly the step that [`spec_step`] assigns to the pre-state -
/// `Ok` with the successor state, or the exact trap with the state unchanged.
/// (A handler is only ever invoked on the opcode it handles, so the step is
/// never a halt.)
pub open spec fn step_post(pre: Executor, post: Executor, r: Result<(), Trap>) -> bool {
    &&& post.object == pre.object
    &&& match spec_step(pre.object.code@, pre.object@.strings, pre.st()) {
        StepR::Next(s2) => r == Ok::<(), Trap>(()) && post.st() == s2,
        StepR::Fault(t) => r == Err::<(), Trap>(t) && post.st() == pre.st(),
        StepR::Halted => false,
    }
}

impl Executor {
    /// The executor's mutable state as mathematics.
    pub open spec fn st(self) -> StateV {
        StateV {
            globals: self.globals@.map_values(|c: Cell| cell_v(c)),
            stack: self.stack@.map_values(|c: Cell| cell_v(c)),
            callstack: self.callstack@,
            ip: self.ip,
            output: self.output.deep_view(),
        }
    }

    /// Loads the module and readies an executor for one run, in
    /// [`init_state`]. Fails with the exact format error of the buffer.
    pub fn new(bytecode: &Vec<u8>) -> (r: Result<Executor, LoadError>)
        ensures
            match spec_load(bytecode@) {
                Ok(m) => r matches Ok(ex) && ex.object@ == m && ex.st() == init_state(m),
                Err(e) => r == Err::<Executor, LoadError>(e),
            },
    {
        let object = match Bytecode::new(bytecode) {
            Ok(o) => o,
            Err(e) => {
                return Err(e);
            },
        };
        let gs = object.global_size;
        let mut globals: Vec<Cell> = Vec::new();
        let mut k: usize = 0;
        while k < gs
            invariant
                k <= gs,
                globals@.len() == k,
                forall|j: int| 0 <= j < k ==> globals@[j] is Nothing,
            decreases gs - k,
        {
            globals.push(Cell::Nothing);
            k = k + 1;
        }
        let ex = Executor {
            object,
            globals,
            stack: Vec::new(),
            callstack: Vec::new(),
            ip: 0,
            output: Vec::new(),
        };
        proof {
            assert(ex.st() =~= init_state(spec_load(bytecode@)->Ok_0));
        }
        Ok(ex)
    }

    /// PUSHS: push the string-pool entry whose index follows the opcode as a
    /// vint operand.
    pub fn op_pushs(&mut self) -> (r: Result<(), Trap>)
        requires
            old(self).ip < old(self).object.code@.len(),
            old(self).object.code@[old(self).ip as int] == OP_PUSHS,
        ensures
            step_post(*old(self), *final (self), r),
    {
        proof {
            vstd::std_specs::vec::axiom_spec_len(&self.object.code);
        }
        let mut j: usize = self.ip + 1;
        let idx = match get_vint(self.object.code.as_slice(), &mut j) {
            Ok(v) => v,
            Err(_) => {
                return Err(Trap::MalformedOperand(self.ip));
            },
        };
        proof {
            lemma_vint_at_ok(self.object.code@, self.ip + 1, 0);
        }
        if idx >= self.object.strtable.len() {
            return Err(Trap::StringIndexOutOfRange(self.ip));
        }
        let ghost pre = *self;
        let text = self.object.strtable[idx].clone();
        self.stack.push(Cell::Str(text));
        self.ip = j;
        proof {
            let s2 = step_pushs(pre.object.code@, pre.object@.strings, pre.st())->Next_0;
            assert(self.st() =~= s2);
        }
        Ok(())
    }

    /// CALLP: call a builtin by string-pool name. The one builtin this engine
    /// provides is `print`, which pops one string and appends it, as one
    /// line, to the output.
    pub fn op_callp(&mut self) -> (r: Result<(), Trap>)
        requires
            old(self).ip < old(self).object.code@.len(),
            old(self).object.code@[old(self).ip as int] == OP_CALLP,
        ensures
            step_post(*old(self), *final (self), r),
    {
        proof {
            vstd::std_specs::vec::axiom_spec_len(&self.object.code);
        }
        let mut j: usize = self.ip + 1;
        let idx = match get_vint(self.object.code.as_slice(), &mut j) {
            Ok(v) => v,
            Err(_) => {
                return Err(Trap::MalformedOperand(self.ip));
            },
        };
        proof {
            lemma_vint_at_ok(self.object.code@, self.ip + 1, 0);
        }
        if idx >= self.object.strtable.len() {
            return Err(Trap::StringIndexOutOfRange(self.ip));
        }
        if self.object.strtable[idx] == "print".to_owned() {
            if self.stack.len() == 0 {
                return Err(Trap::StackUnderflow(self.ip));
            }
            let ghost pre = *self;
            let top = self.stack.pop();
            match top {
                Some(Cell::Str(text)) => {
                    self.output.push(text);
                    self.ip = j;
                    proof {
                        let s2 = step_callp(
                            pre.object.code@,
                            pre.object@.strings,
                            pre.st(),
                        )->Next_0;
                        assert(pre.st().stack.last() == cell_v(pre.stack@.last()));
                        assert(self.stack@.map_values(|c: Cell| cell_v(c)) =~= pre.st(
                        ).stack.drop_last());
                        assert(self.st() =~= s2);
                    }
                    Ok(())
                },
                Some(c) => {
                    self.stack.push(c);
                    proof {
                        assert(pre.st().stack.last() == cell_v(pre.stack@.last()));
                        assert(self.stack@ =~= pre.stack@);
                        assert(self.st() =~= pre.st());
                    }
                    Err(Trap::TypeMismatch(self.ip))
                },
                None => {
                    proof {
                        assert(false);
                    }
                    Err(Trap::StackUnderflow(self.ip))
                },
            }
        } else {
            Err(Trap::UnresolvedFunction(self.ip))
        }
    }

    /// RET: pop the control stack's top return address into the instruction
    /// pointer.
    pub fn op_ret(&mut self) -> (r: Result<(), Trap>)
        requires
            old(self).ip < old(self).object.code@.len(),
            old(self).object.code@[old(self).ip as int] == OP_RET,
        ensures
            step_post(*old(self), *final (self), r),
    {
        let ghost pre = *self;
        match self.callstack.pop() {
            Some(addr) => {
                self.ip = addr;
                proof {
                    let s2 = step_ret(pre.st())->Next_0;
                    assert(self.callstack@ =~= pre.callstack@.drop_last());
                    assert(self.st() =~= s2);
                }
                Ok(())
            },
            None => Err(Trap::ControlStackUnderflow(self.ip)),
        }
    }


    /// ENTER (enter function scope): not realized by this engine. Executing it is the
    /// fatal unimplemented-opcode trap; the state is left unchanged.
    pub fn op_enter(&mut self) -> (r: Result<(), Trap>)
        requires
            old(self).ip < old(self).object.code@.len(),
            old(self).object.code@[old(self).ip as int] == OP_ENTER,
        ensures
            step_post(*old(self), *final (self), r),
    {
        Err(Trap::UnimplementedOpcode(self.ip))
    }

    /// LEAVE (leave function scope): not realized by this engine. Executing it is the
    /// fatal unimplemented-opcode trap; the state is left unchanged.
    pub fn op_leave(&mut self) -> (r: Result<(), Trap>)
        requires
            old(self).ip < old(self).object.code@.len(),
            old(self).object.code@[old(self).ip as int] == OP_LEAVE,
        ensures
            step_post(*old(self), *final (self), r),
    {
        Err(Trap::UnimplementedOpcode(self.ip))
    }

    /// PUSHB (push boolean immediate): not realized by this engine. Executing it is the
    /// fatal unimplemented-opcode trap; the state is left unchanged.
    pub fn op_pushb(&mut self) -> (r: Result<(), Trap>)
        requires
            old(self).ip < old(self).object.code@.len(),
            old(self).object.code@[old(self).ip as int] == OP_PUSHB,
        ensures
            step_post(*old(self), *final (self), r),
    {
        Err(Trap::UnimplementedOpcode(self.ip))
    }

    /// PUSHN (push number immediate): not realized by this engine. Executing it is the
    /// fatal unimplemented-opcode trap; the state is left unchanged.
    pub fn op_pushn(&mut self) -> (r: Result<(), Trap>)
        requires
            old(self).ip < old(self).object.code@.len(),
            old(self).object.code@[old(self).ip as int] == OP_PUSHN,
        ensures
            step_post(*old(self), *final (self), r),
    {
        Err(Trap::UnimplementedOpcode(self.ip))
    }

    /// PUSHT (push bytes immediate): not realized by this engine. Executing it is the
    /// fatal unimplemented-opcode trap; the state is left unchanged.
    pub fn op_pusht(&mut self) -> (r: Result<(), Trap>)
        requires
            old(self).ip < old(self).object.code@.len(),
            old(self).object.code@[old(self).ip as int] == OP_PUSHT,
        ensures
            step_post(*old(self), *final (self), r),
    {
        Err(Trap::UnimplementedOpcode(self.ip))
    }

    /// PUSHPG (push pointer to global): not realized by this engine. Executing it is the
    /// fatal unimplemented-opcode trap; the state is left unchanged.
    pub fn op_pushpg(&mut self) -> (r: Result<(), Trap>)
        requires
            old(self).ip < old(self).object.code@.len(),
            old(self).object.code@[old(self).ip as int] == OP_PUSHPG,
        ensures
            step_post(*old(self), *final (self), r),
    {
        Err(Trap::UnimplementedOpcode(self.ip))
    }

    /// PUSHPPG (push pointer to predefined global): not realized by this engine. Executing it is the
    /// fatal unimplemented-opcode trap; the state is left unchanged.
    pub fn op_pushppg(&mut self) -> (r: Result<(), Trap>)
        requires
            old(self).ip < old(self).object.code@.len(),
            old(self).object.code@[old(self).ip as int] == OP_PUSHPPG,
        ensures
            step_post(*old(self), *final (self), r),
    {
        Err(Trap::UnimplementedOpcode(self.ip))
    }

    /// PUSHPMG (push pointer to module global): not realized by this engine. Executing it is the
    /// fatal unimplemented-opcode trap; the state is left unchanged.
    pub fn op_pushpmg(&mut self) -> (r: Result<(), Trap>)
        requires
            old(self).ip < old(self).object.code@.len(),
            old(self).object.code@[old(self).ip as int] == OP_PUSHPMG,
        ensures
            step_post(*old(self), *final (self), r),
    {
        Err(Trap::UnimplementedOpcode(self.ip))
    }

    /// PUSHPL (push pointer to local): not realized by this engine. Executing it is the
    /// fatal unimplemented-opcode trap; the state is left unchanged.
    pub fn op_pushpl(&mut self) -> (r: Result<(), Trap>)
        requires
            old(self).ip < old(self).object.code@.len(),
            old(self).object.code@[old(self).ip as int] == OP_PUSHPL,
        ensures
            step_post(*old(self), *final (self), r),
    {
        Err(Trap::UnimplementedOpcode(self.ip))
    }

    /// PUSHPOL (push pointer to outer local): not realized by this engine. Executing it is the
    /// fatal unimplemented-opcode trap; the state is left unchanged.
    pub fn op_pushpol(&mut self) -> (r: Result<(), Trap>)
        requires
            old(self).ip < old(self).object.code@.len(),
            old(self).object.code@[old(self).ip as int] == OP_PUSHPOL,
        ensures
            step_post(*old(self), *final (self), r),
    {
        Err(Trap::UnimplementedOpcode(self.ip))
    }

    /// PUSHI (push 32-bit integer immediate): not realized by this engine. Executing it is the
    /// fatal unimplemented-opcode trap; the state is left unchanged.
    pub fn op_pushi(&mut self) -> (r: Result<(), Trap>)
        requires
            old(self).ip < old(self).object.code@.len(),
            old(self).object.code@[old(self).ip as int] == OP_PUSHI,
        ensures
            step_post(*old(self), *final (self), r),
    {
        Err(Trap::UnimplementedOpcode(self.ip))
    }

    /// LOADB (load boolean): not realized by this engine. Executing it is the
    /// fatal unimplemented-opcode trap; the state is left unchanged.
    pub fn op_loadb(&mut self) -> (r: Result<(), Trap>)
        requires
            old(self).ip < old(self).object.code@.len(),
            old(self).object.code@[old(self).ip as int] == OP_LOADB,
        ensures
            step_post(*old(self), *final (self), r),
    {
        Err(Trap::UnimplementedOpcode(self.ip))
    }

    /// LOADN (load number): not realized by this engine. Executing it is the
    /// fatal unimplemented-opcode trap; the state is left unchanged.
    pub fn op_loadn(&mut self) -> (r: Result<(), Trap>)
        requires
            old(self).ip < old(self).object.code@.len(),
            old(self).object.code@[old(self).ip as int] == OP_LOADN,
        ensures
            step_post(*old(self), *final (self), r),
    {
        Err(Trap::UnimplementedOpcode(self.ip))
    }

    /// LOADS (load string): not realized by this engine. Executing it is the
    /// fatal unimplemented-opcode trap; the state is left unchanged.
    pub fn op_loads(&mut self) -> (r: Result<(), Trap>)
        requires
            old(self).ip < old(self).object.code@.len(),
            old(self).object.code@[old(self).ip as int] == OP_LOADS,
        ensures
            step_post(*old(self), *final (self), r),
    {
        Err(Trap::UnimplementedOpcode(self.ip))
    }

    /// LOADT (load bytes): not realized by this engine. Executing it is the
    /// fatal unimplemented-opcode trap; the state is left unchanged.
    pub fn op_loadt(&mut self) -> (r: Result<(), Trap>)
        requires
            old(self).ip < old(self).object.code@.len(),
            old(self).object.code@[old(self).ip as int] == OP_LOADT,
        ensures
            step_post(*old(self), *final (self), r),
    {
        Err(Trap::UnimplementedOpcode(self.ip))
    }

    /// LOADA (load array): not realized by this engine. Executing it is the
    /// fatal unimplemented-opcode trap; the state is left unchanged.
    pub fn op_loada(&mut self) -> (r: Result<(), Trap>)
        requires
            old(self).ip < old(self).object.code@.len(),
            old(self).object.code@[old(self).ip as int] == OP_LOADA,
        ensures
            step_post(*old(self), *final (self), r),
    {
        Err(Trap::UnimplementedOpcode(self.ip))
    }

    /// LOADD (load dictionary): not realized by this engine. Executing it is the
    /// fatal unimplemented-opcode trap; the state is left unchanged.
    pub fn op_loadd(&mut self) -> (r: Result<(), Trap>)
        requires
            old(self).ip < old(self).object.code@.len(),
            old(self).object.code@[old(self).ip as int] == OP_LOADD,
        ensures
            step_post(*old(self), *final (self), r),
    {
        Err(Trap::UnimplementedOpcode(self.ip))
    }

    /// LOADP (load pointer): not realized by this engine. Executing it is the
    /// fatal unimplemented-opcode trap; the state is left unchanged.
    pub fn op_loadp(&mut self) -> (r: Result<(), Trap>)
        requires
            old(self).ip < old(self).object.code@.len(),
            old(self).object.code@[old(self).ip as int] == OP_LOADP,
        ensures
            step_post(*old(self), *final (self), r),
    {
        Err(Trap::UnimplementedOpcode(self.ip))
    }

    /// LOADJ (load object): not realized by this engine. Executing it is the
    /// fatal unimplemented-opcode trap; the state is left unchanged.
    pub fn op_loadj(&mut self) -> (r: Result<(), Trap>)
        requires
            old(self).ip < old(self).object.code@.len(),
            old(self).object.code@[old(self).ip as int] == OP_LOADJ,
        ensures
            step_post(*old(self), *final (self), r),
    {
        Err(Trap::UnimplementedOpcode(self.ip))
    }

    /// STOREB (store boolean): not realized by this engine. Executing it is the
    /// fatal unimplemented-opcode trap; the state is left unchanged.
    pub fn op_storeb(&mut self) -> (r: Result<(), Trap>)
        requires
            old(self).ip < old(self).object.code@.len(),
            old(self).object.code@[old(self).ip as int] == OP_STOREB,
        ensures
            step_post(*old(self), *final (self), r),
    {
        Err(Trap::UnimplementedOpcode(self.ip))
    }

    /// STOREN (store number): not realized by this engine. Executing it is the
    /// fatal unimplemented-opcode trap; the state is left unchanged.
    pub fn op_storen(&mut self) -> (r: Result<(), Trap>)
        requires
            old(self).ip < old(self).object.code@.len(),
            old(self).object.code@[old(self).ip as int] == OP_STOREN,
        ensures
            step_post(*old(self), *final (self), r),
    {
        Err(Trap::UnimplementedOpcode(self.ip))
    }

    /// STORES (store string): not realized by this engine. Executing it is the
    /// fatal unimplemented-opcode trap; the state is left unchanged.
    pub fn op_stores(&mut self) -> (r: Result<(), Trap>)
        requires
            old(self).ip < old(self).object.code@.len(),
            old(self).object.code@[old(self).ip as int] == OP_STORES,
        ensures
            step_post(*old(self), *final (self), r),
    {
        Err(Trap::UnimplementedOpcode(self.ip))
    }

    /// STORET (store bytes): not realized by this engine. Executing it is the
    /// fatal unimplemented-opcode trap; the state is left unchanged.
    pub fn op_storet(&mut self) -> (r: Result<(), Trap>)
        requires
            old(self).ip < old(self).object.code@.len(),
            old(self).object.code@[old(self).ip as int] == OP_STORET,
        ensures
            step_post(*old(self), *final (self), r),
    {
        Err(Trap::UnimplementedOpcode(self.ip))
    }

    /// STOREA (store array): not realized by this engine. Executing it is the
    /// fatal unimplemented-opcode trap; the state is left unchanged.
    pub fn op_storea(&mut self) -> (r: Result<(), Trap>)
        requires
            old(self).ip < old(self).object.code@.len(),
            old(self).object.code@[old(self).ip as int] == OP_STOREA,
        ensures
            step_post(*old(self), *final (self), r),
    {
        Err(Trap::UnimplementedOpcode(self.ip))
    }

    /// STORED (store dictionary): not realized by this engine. Executing it is the
    /// fatal unimplemented-opcode trap; the state is left unchanged.
    pub fn op_stored(&mut self) -> (r: Result<(), Trap>)
        requires
            old(self).ip < old(self).object.code@.len(),
            old(self).object.code@[old(self).ip as int] == OP_STORED,
        ensures
            step_post(*old(self), *final (self), r),
    {
        Err(Trap::UnimplementedOpcode(self.ip))
    }

    /// STOREP (store pointer): not realized by this engine. Executing it is the
    /// fatal unimplemented-opcode trap; the state is left unchanged.
    pub fn op_storep(&mut self) -> (r: Result<(), Trap>)
        requires
            old(self).ip < old(self).object.code@.len(),
            old(self).object.code@[old(self).ip as int] == OP_STOREP,
        ensures
            step_post(*old(self), *final (self), r),
    {
        Err(Trap::UnimplementedOpcode(self.ip))
    }

    /// STOREJ (store object): not realized by this engine. Executing it is the
    /// fatal unimplemented-opcode trap; the state is left unchanged.
    pub fn op_storej(&mut self) -> (r: Result<(), Trap>)
        requires
            old(self).ip < old(self).object.code@.len(),
            old(self).object.code@[old(self).ip as int] == OP_STOREJ,
        ensures
            step_post(*old(self), *final (self), r),
    {
        Err(Trap::UnimplementedOpcode(self.ip))
    }

    /// NEGN (negate number): not realized by this engine. Executing it is the
    /// fatal unimplemented-opcode trap; the state is left unchanged.
    pub fn op_negn(&mut self) -> (r: Result<(), Trap>)
        requires
            old(self).ip < old(self).object.code@.len(),
            old(self).object.code@[old(self).ip as int] == OP_NEGN,
        ensures
            step_post(*old(self), *final (self), r),
    {
        Err(Trap::UnimplementedOpcode(self.ip))
    }

    /// ADDN (add number): not realized by this engine. Executing it is the
    /// fatal unimplemented-opcode trap; the state is left unchanged.
    pub fn op_addn(&mut self) -> (r: Result<(), Trap>)
        requires
            old(self).ip < old(self).object.code@.len(),
            old(self).object.code@[old(self).ip as int] == OP_ADDN,
        ensures
            step_post(*old(self), *final (self), r),
    {
        Err(Trap::UnimplementedOpcode(self.ip))
    }

    /// SUBN (subtract number): not realized by this engine. Executing it is the
    /// fatal unimplemented-opcode trap; the state is left unchanged.
    pub fn op_subn(&mut self) -> (r: Result<(), Trap>)
        requires
            old(self).ip < old(self).object.code@.len(),
            old(self).object.code@[old(self).ip as int] == OP_SUBN,
        ensures
            step_post(*old(self), *final (self), r),
    {
        Err(Trap::UnimplementedOpcode(self.ip))
    }

    /// MULN (multiply number): not realized by this engine. Executing it is the
    /// fatal unimplemented-opcode trap; the state is left unchanged.
    pub fn op_muln(&mut self) -> (r: Result<(), Trap>)
        requires
            old(self).ip < old(self).object.code@.len(),
            old(self).object.code@[old(self).ip as int] == OP_MULN,
        ensures
            step_post(*old(self), *final (self), r),
    {
        Err(Trap::UnimplementedOpcode(self.ip))
    }

    /// DIVN (divide number): not realized by this engine. Executing it is the
    /// fatal unimplemented-opcode trap; the state is left unchanged.
    pub fn op_divn(&mut self) -> (r: Result<(), Trap>)
        requires
            old(self).ip < old(self).object.code@.len(),
            old(self).object.code@[old(self).ip as int] == OP_DIVN,
        ensures
            step_post(*old(self), *final (self), r),
    {
        Err(Trap::UnimplementedOpcode(self.ip))
    }

    /// MODN (modulo number): not realized by this engine. Executing it is the
    /// fatal unimplemented-opcode trap; the state is left unchanged.
    pub fn op_modn(&mut self) -> (r: Result<(), Trap>)
        requires
            old(self).ip < old(self).object.code@.len(),
            old(self).object.code@[old(self).ip as int] == OP_MODN,
        ensures
            step_post(*old(self), *final (self), r),
    {
        Err(Trap::UnimplementedOpcode(self.ip))
    }

    /// EXPN (exponentiate number): not realized by this engine. Executing it is the
    /// fatal unimplemented-opcode trap; the state is left unchanged.
    pub fn op_expn(&mut self) -> (r: Result<(), Trap>)
        requires
            old(self).ip < old(self).object.code@.len(),
            old(self).object.code@[old(self).ip as int] == OP_EXPN,
        ensures
            step_post(*old(self), *final (self), r),
    {
        Err(Trap::UnimplementedOpcode(self.ip))
    }

    /// EQB (compare equal boolean): not realized by this engine. Executing it is the
    /// fatal unimplemented-opcode trap; the state is left unchanged.
    pub fn op_eqb(&mut self) -> (r: Result<(), Trap>)
        requires
            old(self).ip < old(self).object.code@.len(),
            old(self).object.code@[old(self).ip as int] == OP_EQB,
        ensures
            step_post(*old(self), *final (self), r),
    {
        Err(Trap::UnimplementedOpcode(self.ip))
    }

    /// NEB (compare unequal boolean): not realized by this engine. Executing it is the
    /// fatal unimplemented-opcode trap; the state is left unchanged.
    pub fn op_neb(&mut self) -> (r: Result<(), Trap>)
        requires
            old(self).ip < old(self).object.code@.len(),
            old(self).object.code@[old(self).ip as int] == OP_NEB,
        ensures
            step_post(*old(self), *final (self), r),
    {
        Err(Trap::UnimplementedOpcode(self.ip))
    }

    /// EQN (compare equal number): not realized by this engine. Executing it is the
    /// fatal unimplemented-opcode trap; the state is left unchanged.
    pub fn op_eqn(&mut self) -> (r: Result<(), Trap>)
        requires
            old(self).ip < old(self).object.code@.len(),
            old(self).object.code@[old(self).ip as int] == OP_EQN,
        ensures
            step_post(*old(self), *final (self), r),
    {
        Err(Trap::UnimplementedOpcode(self.ip))
    }

    /// NEN (compare unequal number): not realized by this engine. Executing it is the
    /// fatal unimplemented-opcode trap; the state is left unchanged.
    pub fn op_nen(&mut self) -> (r: Result<(), Trap>)
        requires
            old(self).ip < old(self).object.code@.len(),
            old(self).object.code@[old(self).ip as int] == OP_NEN,
        ensures
            step_post(*old(self), *final (self), r),
    {
        Err(Trap::UnimplementedOpcode(self.ip))
    }

    /// LTN (compare less number): not realized by this engine. Executing it is the
    /// fatal unimplemented-opcode trap; the state is left unchanged.
    pub fn op_ltn(&mut self) -> (r: Result<(), Trap>)
        requires
            old(self).ip < old(self).object.code@.len(),
            old(self).object.code@[old(self).ip as int] == OP_LTN,
        ensures
            step_post(*old(self), *final (self), r),
    {
        Err(Trap::UnimplementedOpcode(self.ip))
    }

    /// GTN (compare greater number): not realized by this engine. Executing it is the
    /// fatal unimplemented-opcode trap; the state is left unchanged.
    pub fn op_gtn(&mut self) -> (r: Result<(), Trap>)
        requires
            old(self).ip < old(self).object.code@.len(),
            old(self).object.code@[old(self).ip as int] == OP_GTN,
        ensures
            step_post(*old(self), *final (self), r),
    {
        Err(Trap::UnimplementedOpcode(self.ip))
    }

    /// LEN (compare less equal number): not realized by this engine. Executing it is the
    /// fatal unimplemented-opcode trap; the state is left unchanged.
    pub fn op_len(&mut self) -> (r: Result<(), Trap>)
        requires
            old(self).ip < old(self).object.code@.len(),
            old(self).object.code@[old(self).ip as int] == OP_LEN,
        ensures
            step_post(*old(self), *final (self), r),
    {
        Err(Trap::UnimplementedOpcode(self.ip))
    }

    /// GEN (compare greater equal number): not realized by this engine. Executing it is the
    /// fatal unimplemented-opcode trap; the state is left unchanged.
    pub fn op_gen(&mut self) -> (r: Result<(), Trap>)
        requires
            old(self).ip < old(self).object.code@.len(),
            old(self).object.code@[old(self).ip as int] == OP_GEN,
        ensures
            step_post(*old(self), *final (self), r),
    {
        Err(Trap::UnimplementedOpcode(self.ip))
    }

    /// EQS (compare equal string): not realized by this engine. Executing it is the
    /// fatal unimplemented-opcode trap; the state is left unchanged.
    pub fn op_eqs(&mut self) -> (r: Result<(), Trap>)
        requires
            old(self).ip < old(self).object.code@.len(),
            old(self).object.code@[old(self).ip as int] == OP_EQS,
        ensures
            step_post(*old(self), *final (self), r),
    {
        Err(Trap::UnimplementedOpcode(self.ip))
    }

    /// NES (compare unequal string): not realized by this engine. Executing it is the
    /// fatal unimplemented-opcode trap; the state is left unchanged.
    pub fn op_nes(&mut self) -> (r: Result<(), Trap>)
        requires
            old(self).ip < old(self).object.code@.len(),
            old(self).object.code@[old(self).ip as int] == OP_NES,
        ensures
            step_post(*old(self), *final (self), r),
    {
        Err(Trap::UnimplementedOpcode(self.ip))
    }

    /// LTS (compare less string): not realized by this engine. Executing it is the
    /// fatal unimplemented-opcode trap; the state is left unchanged.
    pub fn op_lts(&mut self) -> (r: Result<(), Trap>)
        requires
            old(self).ip < old(self).object.code@.len(),
            old(self).object.code@[old(self).ip as int] == OP_LTS,
        ensures
            step_post(*old(self), *final (self), r),
    {
        Err(Trap::UnimplementedOpcode(self.ip))
    }

    /// GTS (compare greater string): not realized by this engine. Executing it is the
    /// fatal unimplemented-opcode trap; the state is left unchanged.
    pub fn op_gts(&mut self) -> (r: Result<(), Trap>)
        requires
            old(self).ip < old(self).object.code@.len(),
            old(self).object.code@[old(self).ip as int] == OP_GTS,
        ensures
            step_post(*old(self), *final (self), r),
    {
        Err(Trap::UnimplementedOpcode(self.ip))
    }

    /// LES (compare less equal string): not realized by this engine. Executing it is the
    /// fatal unimplemented-opcode trap; the state is left unchanged.
    pub fn op_les(&mut self) -> (r: Result<(), Trap>)
        requires
            old(self).ip < old(self).object.code@.len(),
            old(self).object.code@[old(self).ip as int] == OP_LES,
        ensures
            step_post(*old(self), *final (self), r),
    {
        Err(Trap::UnimplementedOpcode(self.ip))
    }

    /// GES (compare greater equal string): not realized by this engine. Executing it is the
    /// fatal unimplemented-opcode trap; the state is left unchanged.
    pub fn op_ges(&mut self) -> (r: Result<(), Trap>)
        requires
            old(self).ip < old(self).object.code@.len(),
            old(self).object.code@[old(self).ip as int] == OP_GES,
        ensures
            step_post(*old(self), *final (self), r),
    {
        Err(Trap::UnimplementedOpcode(self.ip))
    }

    /// EQT (compare equal bytes): not realized by this engine. Executing it is the
    /// fatal unimplemented-opcode trap; the state is left unchanged.
    pub fn op_eqt(&mut self) -> (r: Result<(), Trap>)
        requires
            old(self).ip < old(self).object.code@.len(),
            old(self).object.code@[old(self).ip as int] == OP_EQT,
        ensures
            step_post(*old(self), *final (self), r),
    {
        Err(Trap::UnimplementedOpcode(self.ip))
    }

    /// NET (compare unequal bytes): not realized by this engine. Executing it is the
    /// fatal unimplemented-opcode trap; the state is left unchanged.
    pub fn op_net(&mut self) -> (r: Result<(), Trap>)
        requires
            old(self).ip < old(self).object.code@.len(),
            old(self).object.code@[old(self).ip as int] == OP_NET,
        ensures
            step_post(*old(self), *final (self), r),
    {
        Err(Trap::UnimplementedOpcode(self.ip))
    }

    /// LTT (compare less bytes): not realized by this engine. Executing it is the
    /// fatal unimplemented-opcode trap; the state is left unchanged.
    pub fn op_ltt(&mut self) -> (r: Result<(), Trap>)
        requires
            old(self).ip < old(self).object.code@.len(),
            old(self).object.code@[old(self).ip as int] == OP_LTT,
        ensures
            step_post(*old(self), *final (self), r),
    {
        Err(Trap::UnimplementedOpcode(self.ip))
    }

    /// GTT (compare greater bytes): not realized by this engine. Executing it is the
    /// fatal unimplemented-opcode trap; the state is left unchanged.
    pub fn op_gtt(&mut self) -> (r: Result<(), Trap>)
        requires
            old(self).ip < old(self).object.code@.len(),
            old(self).object.code@[old(self).ip as int] == OP_GTT,
        ensures
            step_post(*old(self), *final (self), r),
    {
        Err(Trap::UnimplementedOpcode(self.ip))
    }

    /// LET (compare less equal bytes): not realized by this engine. Executing it is the
    /// fatal unimplemented-opcode trap; the state is left unchanged.
    pub fn op_let(&mut self) -> (r: Result<(), Trap>)
        requires
            old(self).ip < old(self).object.code@.len(),
            old(self).object.code@[old(self).ip as int] == OP_LET,
        ensures
            step_post(*old(self), *final (self), r),
    {
        Err(Trap::UnimplementedOpcode(self.ip))
    }

    /// GET (compare greater equal bytes): not realized by this engine. Executing it is the
    /// fatal unimplemented-opcode trap; the state is left unchanged.
    pub fn op_get(&mut self) -> (r: Result<(), Trap>)
        requires
            old(self).ip < old(self).object.code@.len(),
            old(self).object.code@[old(self).ip as int] == OP_GET,
        ensures
            step_post(*old(self), *final (self), r),
    {
        Err(Trap::UnimplementedOpcode(self.ip))
    }

    /// EQA (compare equal array): not realized by this engine. Executing it is the
    /// fatal unimplemented-opcode trap; the state is left unchanged.
    pub fn op_eqa(&mut self) -> (r: Result<(), Trap>)
        requires
            old(self).ip < old(self).object.code@.len(),
            old(self).object.code@[old(self).ip as int] == OP_EQA,
        ensures
            step_post(*old(self), *final (self), r),
    {
        Err(Trap::UnimplementedOpcode(self.ip))
    }

    /// NEA (compare unequal array): not realized by this engine. Executing it is the
    /// fatal unimplemented-opcode trap; the state is left unchanged.
    pub fn op_nea(&mut self) -> (r: Result<(), Trap>)
        requires
            old(self).ip < old(self).object.code@.len(),
            old(self).object.code@[old(self).ip as int] == OP_NEA,
        ensures
            step_post(*old(self), *final (self), r),
    {
        Err(Trap::UnimplementedOpcode(self.ip))
    }

    /// EQD (compare equal dictionary): not realized by this engine. Executing it is the
    /// fatal unimplemented-opcode trap; the state is left unchanged.
    pub fn op_eqd(&mut self) -> (r: Result<(), Trap>)
        requires
            old(self).ip < old(self).object.code@.len(),
            old(self).object.code@[old(self).ip as int] == OP_EQD,
        ensures
            step_post(*old(self), *final (self), r),
    {
        Err(Trap::UnimplementedOpcode(self.ip))
    }

    /// NED (compare unequal dictionary): not realized by this engine. Executing it is the
    /// fatal unimplemented-opcode trap; the state is left unchanged.
    pub fn op_ned(&mut self) -> (r: Result<(), Trap>)
        requires
            old(self).ip < old(self).object.code@.len(),
            old(self).object.code@[old(self).ip as int] == OP_NED,
        ensures
            step_post(*old(self), *final (self), r),
    {
        Err(Trap::UnimplementedOpcode(self.ip))
    }

    /// EQP (compare equal pointer): not realized by this engine. Executing it is the
    /// fatal unimplemented-opcode trap; the state is left unchanged.
    pub fn op_eqp(&mut self) -> (r: Result<(), Trap>)
        requires
            old(self).ip < old(self).object.code@.len(),
            old(self).object.code@[old(self).ip as int] == OP_EQP,
        ensures
            step_post(*old(self), *final (self), r),
    {
        Err(Trap::UnimplementedOpcode(self.ip))
    }

    /// NEP (compare unequal pointer): not realized by this engine. Executing it is the
    /// fatal unimplemented-opcode trap; the state is left unchanged.
    pub fn op_nep(&mut self) -> (r: Result<(), Trap>)
        requires
            old(self).ip < old(self).object.code@.len(),
            old(self).object.code@[old(self).ip as int] == OP_NEP,
        ensures
            step_post(*old(self), *final (self), r),
    {
        Err(Trap::UnimplementedOpcode(self.ip))
    }

    /// ANDB (and boolean): not realized by this engine. Executing it is the
    /// fatal unimplemented-opcode trap; the state is left unchanged.
    pub fn op_andb(&mut self) -> (r: Result<(), Trap>)
        requires
            old(self).ip < old(self).object.code@.len(),
            old(self).object.code@[old(self).ip as int] == OP_ANDB,
        ensures
            step_post(*old(self), *final (self), r),
    {
        Err(Trap::UnimplementedOpcode(self.ip))
    }

    /// ORB (or boolean): not realized by this engine. Executing it is the
    /// fatal unimplemented-opcode trap; the state is left unchanged.
    pub fn op_orb(&mut self) -> (r: Result<(), Trap>)
        requires
            old(self).ip < old(self).object.code@.len(),
            old(self).object.code@[old(self).ip as int] == OP_ORB,
        ensures
            step_post(*old(self), *final (self), r),
    {
        Err(Trap::UnimplementedOpcode(self.ip))
    }

    /// NOTB (not boolean): not realized by this engine. Executing it is the
    /// fatal unimplemented-opcode trap; the state is left unchanged.
    pub fn op_notb(&mut self) -> (r: Result<(), Trap>)
        requires
            old(self).ip < old(self).object.code@.len(),
            old(self).object.code@[old(self).ip as int] == OP_NOTB,
        ensures
            step_post(*old(self), *final (self), r),
    {
        Err(Trap::UnimplementedOpcode(self.ip))
    }

    /// INDEXAR (index array for read): not realized by this engine. Executing it is the
    /// fatal unimplemented-opcode trap; the state is left unchanged.
    pub fn op_indexar(&mut self) -> (r: Result<(), Trap>)
        requires
            old(self).ip < old(self).object.code@.len(),
            old(self).object.code@[old(self).ip as int] == OP_INDEXAR,
        ensures
            step_post(*old(self), *final (self), r),
    {
        Err(Trap::UnimplementedOpcode(self.ip))
    }

    /// INDEXAW (index array for write): not realized by this engine. Executing it is the
    /// fatal unimplemented-opcode trap; the state is left unchanged.
    pub fn op_indexaw(&mut self) -> (r: Result<(), Trap>)
        requires
            old(self).ip < old(self).object.code@.len(),
            old(self).object.code@[old(self).ip as int] == OP_INDEXAW,
        ensures
            step_post(*old(self), *final (self), r),
    {
        Err(Trap::UnimplementedOpcode(self.ip))
    }

    /// INDEXAV (index array value): not realized by this engine. Executing it is the
    /// fatal unimplemented-opcode trap; the state is left unchanged.
    pub fn op_indexav(&mut self) -> (r: Result<(), Trap>)
        requires
            old(self).ip < old(self).object.code@.len(),
            old(self).object.code@[old(self).ip as int] == OP_INDEXAV,
        ensures
            step_post(*old(self), *final (self), r),
    {
        Err(Trap::UnimplementedOpcode(self.ip))
    }

    /// INDEXAN (index array value, no exception): not realized by this engine. Executing it is the
    /// fatal unimplemented-opcode trap; the state is left unchanged.
    pub fn op_indexan(&mut self) -> (r: Result<(), Trap>)
        requires
            old(self).ip < old(self).object.code@.len(),
            old(self).object.code@[old(self).ip as int] == OP_INDEXAN,
        ensures
            step_post(*old(self), *final (self), r),
    {
        Err(Trap::UnimplementedOpcode(self.ip))
    }

    /// INDEXDR (index dictionary for read): not realized by this engine. Executing it is the
    /// fatal unimplemented-opcode trap; the state is left unchanged.
    pub fn op_indexdr(&mut self) -> (r: Result<(), Trap>)
        requires
            old(self).ip < old(self).object.code@.len(),
            old(self).object.code@[old(self).ip as int] == OP_INDEXDR,
        ensures
            step_post(*old(self), *final (self), r),
    {
        Err(Trap::UnimplementedOpcode(self.ip))
    }

    /// INDEXDW (index dictionary for write): not realized by this engine. Executing it is the
    /// fatal unimplemented-opcode trap; the state is left unchanged.
    pub fn op_indexdw(&mut self) -> (r: Result<(), Trap>)
        requires
            old(self).ip < old(self).object.code@.len(),
            old(self).object.code@[old(self).ip as int] == OP_INDEXDW,
        ensures
            step_post(*old(self), *final (self), r),
    {
        Err(Trap::UnimplementedOpcode(self.ip))
    }

    /// INDEXDV (index dictionary value): not realized by this engine. Executing it is the
    /// fatal unimplemented-opcode trap; the state is left unchanged.
    pub fn op_indexdv(&mut self) -> (r: Result<(), Trap>)
        requires
            old(self).ip < old(self).object.code@.len(),
            old(self).object.code@[old(self).ip as int] == OP_INDEXDV,
        ensures
            step_post(*old(self), *final (self), r),
    {
        Err(Trap::UnimplementedOpcode(self.ip))
    }

    /// INA (in array): not realized by this engine. Executing it is the
    /// fatal unimplemented-opcode trap; the state is left unchanged.
    pub fn op_ina(&mut self) -> (r: Result<(), Trap>)
        requires
            old(self).ip < old(self).object.code@.len(),
            old(self).object.code@[old(self).ip as int] == OP_INA,
        ensures
            step_post(*old(self), *final (self), r),
    {
        Err(Trap::UnimplementedOpcode(self.ip))
    }

    /// IND (in dictionary): not realized by this engine. Executing it is the
    /// fatal unimplemented-opcode trap; the state is left unchanged.
    pub fn op_ind(&mut self) -> (r: Result<(), Trap>)
        requires
            old(self).ip < old(self).object.code@.len(),
            old(self).object.code@[old(self).ip as int] == OP_IND,
        ensures
            step_post(*old(self), *final (self), r),
    {
        Err(Trap::UnimplementedOpcode(self.ip))
    }

    /// CALLF (call function): not realized by this engine. Executing it is the
    /// fatal unimplemented-opcode trap; the state is left unchanged.
    pub fn op_callf(&mut self) -> (r: Result<(), Trap>)
        requires
            old(self).ip < old(self).object.code@.len(),
            old(self).object.code@[old(self).ip as int] == OP_CALLF,
        ensures
            step_post(*old(self), *final (self), r),
    {
        Err(Trap::UnimplementedOpcode(self.ip))
    }

    /// CALLMF (call module function): not realized by this engine. Executing it is the
    /// fatal unimplemented-opcode trap; the state is left unchanged.
    pub fn op_callmf(&mut self) -> (r: Result<(), Trap>)
        requires
            old(self).ip < old(self).object.code@.len(),
            old(self).object.code@[old(self).ip as int] == OP_CALLMF,
        ensures
            step_post(*old(self), *final (self), r),
    {
        Err(Trap::UnimplementedOpcode(self.ip))
    }

    /// CALLI (call indirect): not realized by this engine. Executing it is the
    /// fatal unimplemented-opcode trap; the state is left unchanged.
    pub fn op_calli(&mut self) -> (r: Result<(), Trap>)
        requires
            old(self).ip < old(self).object.code@.len(),
            old(self).object.code@[old(self).ip as int] == OP_CALLI,
        ensures
            step_post(*old(self), *final (self), r),
    {
        Err(Trap::UnimplementedOpcode(self.ip))
    }

    /// JUMP (unconditional jump): not realized by this engine. Executing it is the
    /// fatal unimplemented-opcode trap; the state is left unchanged.
    pub fn op_jump(&mut self) -> (r: Result<(), Trap>)
        requires
            old(self).ip < old(self).object.code@.len(),
            old(self).object.code@[old(self).ip as int] == OP_JUMP,
        ensures
            step_post(*old(self), *final (self), r),
    {
        Err(Trap::UnimplementedOpcode(self.ip))
    }

    /// JF (jump if false): not realized by this engine. Executing it is the
    /// fatal unimplemented-opcode trap; the state is left unchanged.
    pub fn op_jf(&mut self) -> (r: Result<(), Trap>)
        requires
            old(self).ip < old(self).object.code@.len(),
            old(self).object.code@[old(self).ip as int] == OP_JF,
        ensures
            step_post(*old(self), *final (self), r),
    {
        Err(Trap::UnimplementedOpcode(self.ip))
    }

    /// JT (jump if true): not realized by this engine. Executing it is the
    /// fatal unimplemented-opcode trap; the state is left unchanged.
    pub fn op_jt(&mut self) -> (r: Result<(), Trap>)
        requires
            old(self).ip < old(self).object.code@.len(),
            old(self).object.code@[old(self).ip as int] == OP_JT,
        ensures
            step_post(*old(self), *final (self), r),
    {
        Err(Trap::UnimplementedOpcode(self.ip))
    }

    /// JFCHAIN (jump and drop next if false): not realized by this engine. Executing it is the
    /// fatal unimplemented-opcode trap; the state is left unchanged.
    pub fn op_jfchain(&mut self) -> (r: Result<(), Trap>)
        requires
            old(self).ip < old(self).object.code@.len(),
            old(self).object.code@[old(self).ip as int] == OP_JFCHAIN,
        ensures
            step_post(*old(self), *final (self), r),
    {
        Err(Trap::UnimplementedOpcode(self.ip))
    }

    /// DUP (duplicate): not realized by this engine. Executing it is the
    /// fatal unimplemented-opcode trap; the state is left unchanged.
    pub fn op_dup(&mut self) -> (r: Result<(), Trap>)
        requires
            old(self).ip < old(self).object.code@.len(),
            old(self).object.code@[old(self).ip as int] == OP_DUP,
        ensures
            step_post(*old(self), *final (self), r),
    {
        Err(Trap::UnimplementedOpcode(self.ip))
    }

    /// DUPX1 (duplicate under second value): not realized by this engine. Executing it is the
    /// fatal unimplemented-opcode trap; the state is left unchanged.
    pub fn op_dupx1(&mut self) -> (r: Result<(), Trap>)
        requires
            old(self).ip < old(self).object.code@.len(),
            old(self).object.code@[old(self).ip as int] == OP_DUPX1,
        ensures
            step_post(*old(self), *final (self), r),
    {
        Err(Trap::UnimplementedOpcode(self.ip))
    }

    /// DROP (drop): not realized by this engine. Executing it is the
    /// fatal unimplemented-opcode trap; the state is left unchanged.
    pub fn op_drop(&mut self) -> (r: Result<(), Trap>)
        requires
            old(self).ip < old(self).object.code@.len(),
            old(self).object.code@[old(self).ip as int] == OP_DROP,
        ensures
            step_post(*old(self), *final (self), r),
    {
        Err(Trap::UnimplementedOpcode(self.ip))
    }

    /// CALLE (call foreign): not realized by this engine. Executing it is the
    /// fatal unimplemented-opcode trap; the state is left unchanged.
    pub fn op_calle(&mut self) -> (r: Result<(), Trap>)
        requires
            old(self).ip < old(self).object.code@.len(),
            old(self).object.code@[old(self).ip as int] == OP_CALLE,
        ensures
            step_post(*old(self), *final (self), r),
    {
        Err(Trap::UnimplementedOpcode(self.ip))
    }

    /// CONSA (construct array): not realized by this engine. Executing it is the
    /// fatal unimplemented-opcode trap; the state is left unchanged.
    pub fn op_consa(&mut self) -> (r: Result<(), Trap>)
        requires
            old(self).ip < old(self).object.code@.len(),
            old(self).object.code@[old(self).ip as int] == OP_CONSA,
        ensures
            step_post(*old(self), *final (self), r),
    {
        Err(Trap::UnimplementedOpcode(self.ip))
    }

    /// CONSD (construct dictionary): not realized by this engine. Executing it is the
    /// fatal unimplemented-opcode trap; the state is left unchanged.
    pub fn op_consd(&mut self) -> (r: Result<(), Trap>)
        requires
            old(self).ip < old(self).object.code@.len(),
            old(self).object.code@[old(self).ip as int] == OP_CONSD,
        ensures
            step_post(*old(self), *final (self), r),
    {
        Err(Trap::UnimplementedOpcode(self.ip))
    }

    /// EXCEPT (throw exception): not realized by this engine. Executing it is the
    /// fatal unimplemented-opcode trap; the state is left unchanged.
    pub fn op_except(&mut self) -> (r: Result<(), Trap>)
        requires
            old(self).ip < old(self).object.code@.len(),
            old(self).object.code@[old(self).ip as int] == OP_EXCEPT,
        ensures
            step_post(*old(self), *final (self), r),
    {
        Err(Trap::UnimplementedOpcode(self.ip))
    }

    /// ALLOC (allocate record): not realized by this engine. Executing it is the
    /// fatal unimplemented-opcode trap; the state is left unchanged.
    pub fn op_alloc(&mut self) -> (r: Result<(), Trap>)
        requires
            old(self).ip < old(self).object.code@.len(),
            old(self).object.code@[old(self).ip as int] == OP_ALLOC,
        ensures
            step_post(*old(self), *final (self), r),
    {
        Err(Trap::UnimplementedOpcode(self.ip))
    }

    /// PUSHNIL (push nil pointer): not realized by this engine. Executing it is the
    /// fatal unimplemented-opcode trap; the state is left unchanged.
    pub fn op_pushnil(&mut self) -> (r: Result<(), Trap>)
        requires
            old(self).ip < old(self).object.code@.len(),
            old(self).object.code@[old(self).ip as int] == OP_PUSHNIL,
        ensures
            step_post(*old(self), *final (self), r),
    {
        Err(Trap::UnimplementedOpcode(self.ip))
    }

    /// JNASSERT (jump if assertions disabled): not realized by this engine. Executing it is the
    /// fatal unimplemented-opcode trap; the state is left unchanged.
    pub fn op_jnassert(&mut self) -> (r: Result<(), Trap>)
        requires
            old(self).ip < old(self).object.code@.len(),
            old(self).object.code@[old(self).ip as int] == OP_JNASSERT,
        ensures
            step_post(*old(self), *final (self), r),
    {
        Err(Trap::UnimplementedOpcode(self.ip))
    }

    /// RESETC (reset cell): not realized by this engine. Executing it is the
    /// fatal unimplemented-opcode trap; the state is left unchanged.
    pub fn op_resetc(&mut self) -> (r: Result<(), Trap>)
        requires
            old(self).ip < old(self).object.code@.len(),
            old(self).object.code@[old(self).ip as int] == OP_RESETC,
        ensures
            step_post(*old(self), *final (self), r),
    {
        Err(Trap::UnimplementedOpcode(self.ip))
    }

    /// PUSHPEG (push pointer to external global): not realized by this engine. Executing it is the
    /// fatal unimplemented-opcode trap; the state is left unchanged.
    pub fn op_pushpeg(&mut self) -> (r: Result<(), Trap>)
        requires
            old(self).ip < old(self).object.code@.len(),
            old(self).object.code@[old(self).ip as int] == OP_PUSHPEG,
        ensures
            step_post(*old(self), *final (self), r),
    {
        Err(Trap::UnimplementedOpcode(self.ip))
    }

    /// JUMPTBL (jump table): not realized by this engine. Executing it is the
    /// fatal unimplemented-opcode trap; the state is left unchanged.
    pub fn op_jumptbl(&mut self) -> (r: Result<(), Trap>)
        requires
            old(self).ip < old(self).object.code@.len(),
            old(self).object.code@[old(self).ip as int] == OP_JUMPTBL,
        ensures
            step_post(*old(self), *final (self), r),
    {
        Err(Trap::UnimplementedOpcode(self.ip))
    }

    /// CALLX (call extension): not realized by this engine. Executing it is the
    /// fatal unimplemented-opcode trap; the state is left unchanged.
    pub fn op_callx(&mut self) -> (r: Result<(), Trap>)
        requires
            old(self).ip < old(self).object.code@.len(),
            old(self).object.code@[old(self).ip as int] == OP_CALLX,
        ensures
            step_post(*old(self), *final (self), r),
    {
        Err(Trap::UnimplementedOpcode(self.ip))
    }

    /// SWAP (swap two top stack elements): not realized by this engine. Executing it is the
    /// fatal unimplemented-opcode trap; the state is left unchanged.
    pub fn op_swap(&mut self) -> (r: Result<(), Trap>)
        requires
            old(self).ip < old(self).object.code@.len(),
            old(self).object.code@[old(self).ip as int] == OP_SWAP,
        ensures
            step_post(*old(self), *final (self), r),
    {
        Err(Trap::UnimplementedOpcode(self.ip))
    }

    /// DROPN (drop element n): not realized by this engine. Executing it is the
    /// fatal unimplemented-opcode trap; the state is left unchanged.
    pub fn op_dropn(&mut self) -> (r: Result<(), Trap>)
        requires
            old(self).ip < old(self).object.code@.len(),
            old(self).object.code@[old(self).ip as int] == OP_DROPN,
        ensures
            step_post(*old(self), *final (self), r),
    {
        Err(Trap::UnimplementedOpcode(self.ip))
    }

    /// PUSHM (push current module): not realized by this engine. Executing it is the
    /// fatal unimplemented-opcode trap; the state is left unchanged.
    pub fn op_pushm(&mut self) -> (r: Result<(), Trap>)
        requires
            old(self).ip < old(self).object.code@.len(),
            old(self).object.code@[old(self).ip as int] == OP_PUSHM,
        ensures
            step_post(*old(self), *final (self), r),
    {
        Err(Trap::UnimplementedOpcode(self.ip))
    }

    /// CALLV (call virtual): not realized by this engine. Executing it is the
    /// fatal unimplemented-opcode trap; the state is left unchanged.
    pub fn op_callv(&mut self) -> (r: Result<(), Trap>)
        requires
            old(self).ip < old(self).object.code@.len(),
            old(self).object.code@[old(self).ip as int] == OP_CALLV,
        ensures
            step_post(*old(self), *final (self), r),
    {
        Err(Trap::UnimplementedOpcode(self.ip))
    }

    /// PUSHCI (push class info): not realized by this engine. Executing it is the
    /// fatal unimplemented-opcode trap; the state is left unchanged.
    pub fn op_pushci(&mut self) -> (r: Result<(), Trap>)
        requires
            old(self).ip < old(self).object.code@.len(),
            old(self).object.code@[old(self).ip as int] == OP_PUSHCI,
        ensures
            step_post(*old(self), *final (self), r),
    {
        Err(Trap::UnimplementedOpcode(self.ip))
    }

    /// MAPA (map array): not realized by this engine. Executing it is the
    /// fatal unimplemented-opcode trap; the state is left unchanged.
    pub fn op_mapa(&mut self) -> (r: Result<(), Trap>)
        requires
            old(self).ip < old(self).object.code@.len(),
            old(self).object.code@[old(self).ip as int] == OP_MAPA,
        ensures
            step_post(*old(self), *final (self), r),
    {
        Err(Trap::UnimplementedOpcode(self.ip))
    }

    /// MAPD (map dictionary): not realized by this engine. Executing it is the
    /// fatal unimplemented-opcode trap; the state is left unchanged.
    pub fn op_mapd(&mut self) -> (r: Result<(), Trap>)
        requires
            old(self).ip < old(self).object.code@.len(),
            old(self).object.code@[old(self).ip as int] == OP_MAPD,
        ensures
            step_post(*old(self), *final (self), r),
    {
        Err(Trap::UnimplementedOpcode(self.ip))
    }


    /// Reads the opcode byte at the instruction pointer and hands it to its
    /// handler; a byte with no assigned meaning is the invalid-opcode trap.
    fn dispatch(&mut self) -> (r: Result<(), Trap>)
        requires
            old(self).ip < old(self).object.code@.len(),
        ensures
            step_post(*old(self), *final (self), r),
    {
        let op = self.object.code[self.ip];
        if op == OP_ENTER {
            self.op_enter()
        } else if op == OP_LEAVE {
            self.op_leave()
        } else if op == OP_PUSHB {
            self.op_pushb()
        } else if op == OP_PUSHN {
            self.op_pushn()
        } else if op == OP_PUSHS {
            self.op_pushs()
        } else if op == OP_PUSHT {
            self.op_pusht()
        } else if op == OP_PUSHPG {
            self.op_pushpg()
        } else if op == OP_PUSHPPG {
            self.op_pushppg()
        } else if op == OP_PUSHPMG {
            self.op_pushpmg()
        } else if op == OP_PUSHPL {
            self.op_pushpl()
        } else if op == OP_PUSHPOL {
            self.op_pushpol()
        } else if op == OP_PUSHI {
            self.op_pushi()
        } else if op == OP_LOADB {
            self.op_loadb()
        } else if op == OP_LOADN {
            self.op_loadn()
        } else if op == OP_LOADS {
            self.op_loads()
        } else if op == OP_LOADT {
            self.op_loadt()
        } else if op == OP_LOADA {
            self.op_loada()
        } else if op == OP_LOADD {
            self.op_loadd()
        } else if op == OP_LOADP {
            self.op_loadp()
        } else if op == OP_LOADJ {
            self.op_loadj()
        } else if op == OP_STOREB {
            self.op_storeb()
        } else if op == OP_STOREN {
            self.op_storen()
        } else if op == OP_STORES {
            self.op_stores()
        } else if op == OP_STORET {
            self.op_storet()
        } else if op == OP_STOREA {
            self.op_storea()
        } else if op == OP_STORED {
            self.op_stored()
        } else if op == OP_STOREP {
            self.op_storep()
        } else if op == OP_STOREJ {
            self.op_storej()
        } else if op == OP_NEGN {
            self.op_negn()
        } else if op == OP_ADDN {
            self.op_addn()
        } else if op == OP_SUBN {
            self.op_subn()
        } else if op == OP_MULN {
            self.op_muln()
        } else if op == OP_DIVN {
            self.op_divn()
        } else if op == OP_MODN {
            self.op_modn()
        } else if op == OP_EXPN {
            self.op_expn()
        } else if op == OP_EQB {
            self.op_eqb()
        } else if op == OP_NEB {
            self.op_neb()
        } else if op == OP_EQN {
            self.op_eqn()
        } else if op == OP_NEN {
            self.op_nen()
        } else if op == OP_LTN {
            self.op_ltn()
        } else if op == OP_GTN {
            self.op_gtn()
        } else if op == OP_LEN {
            self.op_len()
        } else if op == OP_GEN {
            self.op_gen()
        } else if op == OP_EQS {
            self.op_eqs()
        } else if op == OP_NES {
            self.op_nes()
        } else if op == OP_LTS {
            self.op_lts()
        } else if op == OP_GTS {
            self.op_gts()
        } else if op == OP_LES {
            self.op_les()
        } else if op == OP_GES {
            self.op_ges()
        } else if op == OP_EQT {
            self.op_eqt()
        } else if op == OP_NET {
            self.op_net()
        } else if op == OP_LTT {
            self.op_ltt()
        } else if op == OP_GTT {
            self.op_gtt()
        } else if op == OP_LET {
            self.op_let()
        } else if op == OP_GET {
            self.op_get()
        } else if op == OP_EQA {
            self.op_eqa()
        } else if op == OP_NEA {
            self.op_nea()
        } else if op == OP_EQD {
            self.op_eqd()
        } else if op == OP_NED {
            self.op_ned()
        } else if op == OP_EQP {
            self.op_eqp()
        } else if op == OP_NEP {
            self.op_nep()
        } else if op == OP_ANDB {
            self.op_andb()
        } else if op == OP_ORB {
            self.op_orb()
        } else if op == OP_NOTB {
            self.op_notb()
        } else if op == OP_INDEXAR {
            self.op_indexar()
        } else if op == OP_INDEXAW {
            self.op_indexaw()
        } else if op == OP_INDEXAV {
            self.op_indexav()
        } else if op == OP_INDEXAN {
            self.op_indexan()
        } else if op == OP_INDEXDR {
            self.op_indexdr()
        } else if op == OP_INDEXDW {
            self.op_indexdw()
        } else if op == OP_INDEXDV {
            self.op_indexdv()
        } else if op == OP_INA {
            self.op_ina()
        } else if op == OP_IND {
            self.op_ind()
        } else if op == OP_CALLP {
            self.op_callp()
        } else if op == OP_CALLF {
            self.op_callf()
        } else if op == OP_CALLMF {
            self.op_callmf()
        } else if op == OP_CALLI {
            self.op_calli()
        } else if op == OP_JUMP {
            self.op_jump()
        } else if op == OP_JF {
            self.op_jf()
        } else if op == OP_JT {
            self.op_jt()
        } else if op == OP_JFCHAIN {
            self.op_jfchain()
        } else if op == OP_DUP {
            self.op_dup()
        } else if op == OP_DUPX1 {
            self.op_dupx1()
        } else if op == OP_DROP {
            self.op_drop()
        } else if op == OP_RET {
            self.op_ret()
        } else if op == OP_CALLE {
            self.op_calle()
        } else if op == OP_CONSA {
            self.op_consa()
        } else if op == OP_CONSD {
            self.op_consd()
        } else if op == OP_EXCEPT {
            self.op_except()
        } else if op == OP_ALLOC {
            self.op_alloc()
        } else if op == OP_PUSHNIL {
            self.op_pushnil()
        } else if op == OP_JNASSERT {
            self.op_jnassert()
        } else if op == OP_RESETC {
            self.op_resetc()
        } else if op == OP_PUSHPEG {
            self.op_pushpeg()
        } else if op == OP_JUMPTBL {
            self.op_jumptbl()
        } else if op == OP_CALLX {
            self.op_callx()
        } else if op == OP_SWAP {
            self.op_swap()
        } else if op == OP_DROPN {
            self.op_dropn()
        } else if op == OP_PUSHM {
            self.op_pushm()
        } else if op == OP_CALLV {
            self.op_callv()
        } else if op == OP_PUSHCI {
            self.op_pushci()
        } else if op == OP_MAPA {
            self.op_mapa()
        } else if op == OP_MAPD {
            self.op_mapd()
        } else {
            Err(Trap::InvalidOpcode(self.ip))
        }
    }

    /// Runs the program: pushes the synthetic end-of-code return address -
    /// so that a return from the outermost frame halts the loop naturally -
    /// then fetches, decodes and executes instructions until the instruction
    /// pointer passes the end of the code or a trap stops the run. The final
    /// state is reachable from the starting state by [`spec_step`], and the
    /// result says exactly how the run ended: a normal halt, or the trap.
    #[verifier::loop_isolation(false)]
    pub fn run(&mut self) -> (r: Result<(), Trap>)
        ensures
            final (self).object == old(self).object,
            ({
                let code = old(self).object.code@;
                let strings = old(self).object@.strings;
                let s0 = StateV {
                    callstack: old(self).st().callstack.push(old(self).object.code@.len() as usize),
                    ..old(self).st()
                };
                &&& exists|n: nat| reaches(code, strings, s0, final (self).st(), n)
                &&& match r {
                    Ok(()) => spec_step(code, strings, final (self).st()) == StepR::Halted,
                    Err(t) => spec_step(code, strings, final (self).st()) == StepR::Fault(t),
                }
            }),
    {
        let codelen = self.object.code.len();
        self.callstack.push(codelen);
        let ghost code = self.object.code@;
        let ghost strings = self.object@.strings;
        let ghost s0 = self.st();
        proof {
            assert(s0 =~= (StateV {
                callstack: old(self).st().callstack.push(codelen),
                ..old(self).st()
            }));
        }
        let ghost mut n: nat = 0;
        loop
            invariant
                self.object == old(self).object,
                code == self.object.code@,
                strings == self.object@.strings,
                reaches(code, strings, s0, self.st(), n),
            decreases
                    self.callstack@.len(),
                    (if self.ip as int <= self.object.code@.len() {
                        self.object.code@.len() - self.ip as int
                    } else {
                        0
                    }),
        {
            if self.ip >= self.object.code.len() {
                return Ok(());
            }
            let ghost prev = self.st();
            let res = self.dispatch();
            match res {
                Ok(()) => {
                    proof {
                        lemma_step_measure(code, strings, prev);
                        lemma_reaches_snoc(code, strings, s0, prev, self.st(), n);
                        n = n + 1;
                    }
                },
                Err(t) => {
                    return Err(t);
                },
            }
        }
    }
}

} // verus!
