use rsnex::errors::Trap;
use rsnex::machine::{Cell, Executor, OP_ADDN, OP_CALLP, OP_ENTER, OP_EQA, OP_INDEXAN, OP_PUSHS, OP_RET};
use rsnex::object::Bytecode;

fn vint(v: usize, out: &mut Vec<u8>) {
    let mut groups = vec![(v % 128) as u8];
    let mut x = v / 128;
    while x > 0 {
        groups.push((x % 128) as u8);
        x /= 128;
    }
    for (pos, g) in groups.iter().rev().enumerate() {
        if pos + 1 < groups.len() {
            out.push(g | 0x80);
        } else {
            out.push(*g);
        }
    }
}

fn module(global_size: usize, strings: &[&str], code: &[u8]) -> Vec<u8> {
    let mut b = vec![0u8; 32];
    vint(global_size, &mut b);
    let mut pool: Vec<u8> = Vec::new();
    for s in strings {
        vint(s.len(), &mut pool);
        pool.extend_from_slice(s.as_bytes());
    }
    vint(pool.len(), &mut b);
    b.extend_from_slice(&pool);
    vint(0, &mut b); // empty type table
    for _ in 0..9 {
        vint(0, &mut b); // the nine sections, each empty
    }
    b.extend_from_slice(code);
    b
}

#[test]
fn run_hello_prints_one_line() {
    // PUSHS "hello"; CALLP "print"; RET at the outermost frame.
    let bytes = module(0, &["hello", "print"], &[OP_PUSHS, 0, OP_CALLP, 1, OP_RET]);
    let mut ex = Executor::new(&bytes).unwrap();
    assert_eq!(ex.run(), Ok(()));
    assert_eq!(ex.output, vec!["hello".to_string()]);
    assert_eq!(ex.ip, 5);
    assert!(ex.stack.is_empty());
}

#[test]
fn run_prints_in_program_order() {
    let code = [OP_PUSHS, 0, OP_CALLP, 2, OP_PUSHS, 1, OP_CALLP, 2, OP_RET];
    let bytes = module(0, &["first", "second", "print"], &code);
    let mut ex = Executor::new(&bytes).unwrap();
    assert_eq!(ex.run(), Ok(()));
    assert_eq!(ex.output, vec!["first".to_string(), "second".to_string()]);
}

#[test]
fn run_ret_at_outermost_frame_halts_without_trap() {
    let bytes = module(0, &[], &[OP_RET]);
    let mut ex = Executor::new(&bytes).unwrap();
    assert_eq!(ex.run(), Ok(()));
    // The synthetic bottom entry sends the instruction pointer to the end of
    // the code, which is the normal termination condition.
    assert_eq!(ex.ip, 1);
    assert!(ex.callstack.is_empty());
    assert!(ex.output.is_empty());
}

#[test]
fn run_empty_code_halts_at_once() {
    let bytes = module(0, &[], &[]);
    let mut ex = Executor::new(&bytes).unwrap();
    assert_eq!(ex.run(), Ok(()));
    assert_eq!(ex.ip, 0);
}

#[test]
fn run_invalid_opcode_traps_with_offset() {
    // 0xff has no assigned meaning; the trap reports the offending offset.
    let bytes = module(0, &[], &[0xff]);
    let mut ex = Executor::new(&bytes).unwrap();
    assert_eq!(ex.run(), Err(Trap::InvalidOpcode(0)));
    // The same trap at a nonzero offset, after one realized instruction.
    let bytes2 = module(0, &["x"], &[OP_PUSHS, 0, 0xff]);
    let mut ex2 = Executor::new(&bytes2).unwrap();
    assert_eq!(ex2.run(), Err(Trap::InvalidOpcode(2)));
    assert_eq!(ex2.stack.len(), 1);
}

#[test]
fn run_unimplemented_opcode_traps() {
    let bytes = module(0, &[], &[OP_ENTER]);
    let mut ex = Executor::new(&bytes).unwrap();
    assert_eq!(ex.run(), Err(Trap::UnimplementedOpcode(0)));
}

#[test]
fn run_arithmetic_opcode_is_unimplemented_in_this_engine() {
    let bytes = module(0, &[], &[OP_ADDN]);
    let mut ex = Executor::new(&bytes).unwrap();
    assert_eq!(ex.run(), Err(Trap::UnimplementedOpcode(0)));
}

#[test]
fn run_indexing_opcode_is_unimplemented_in_this_engine() {
    let bytes = module(0, &[], &[OP_INDEXAN]);
    let mut ex = Executor::new(&bytes).unwrap();
    assert_eq!(ex.run(), Err(Trap::UnimplementedOpcode(0)));
}

#[test]
fn run_array_equality_opcode_is_unimplemented_in_this_engine() {
    let bytes = module(0, &[], &[OP_EQA]);
    let mut ex = Executor::new(&bytes).unwrap();
    assert_eq!(ex.run(), Err(Trap::UnimplementedOpcode(0)));
}

#[test]
fn run_unresolved_builtin_name_traps() {
    let bytes = module(0, &["bogus"], &[OP_CALLP, 0]);
    let mut ex = Executor::new(&bytes).unwrap();
    assert_eq!(ex.run(), Err(Trap::UnresolvedFunction(0)));
}

#[test]
fn run_print_on_empty_stack_traps() {
    let bytes = module(0, &["print"], &[OP_CALLP, 0]);
    let mut ex = Executor::new(&bytes).unwrap();
    assert_eq!(ex.run(), Err(Trap::StackUnderflow(0)));
}

#[test]
fn run_print_of_a_non_string_traps() {
    let bytes = module(0, &["print"], &[OP_CALLP, 0]);
    let object = Bytecode::new(&bytes).unwrap();
    let mut ex = Executor {
        object,
        globals: Vec::new(),
        stack: vec![Cell::Nothing],
        callstack: Vec::new(),
        ip: 0,
        output: Vec::new(),
    };
    assert_eq!(ex.run(), Err(Trap::TypeMismatch(0)));
    // The failing operand is left on the stack.
    assert_eq!(ex.stack.len(), 1);
}

#[test]
fn run_pushs_with_out_of_range_index_traps() {
    let bytes = module(0, &[], &[OP_PUSHS, 3]);
    let mut ex = Executor::new(&bytes).unwrap();
    assert_eq!(ex.run(), Err(Trap::StringIndexOutOfRange(0)));
}

#[test]
fn run_pushs_with_unterminated_operand_traps() {
    let bytes = module(0, &["x"], &[OP_PUSHS, 0x80]);
    let mut ex = Executor::new(&bytes).unwrap();
    assert_eq!(ex.run(), Err(Trap::MalformedOperand(0)));
}

#[test]
fn new_initializes_globals_to_no_value() {
    let bytes = module(3, &[], &[]);
    let ex = Executor::new(&bytes).unwrap();
    assert_eq!(ex.globals.len(), 3);
    for g in ex.globals.iter() {
        assert!(matches!(g, Cell::Nothing));
    }
    assert!(ex.stack.is_empty());
    assert!(ex.callstack.is_empty());
    assert_eq!(ex.ip, 0);
    assert!(ex.output.is_empty());
}

#[test]
fn new_rejects_what_the_loader_rejects() {
    let bytes = vec![0u8; 10];
    assert!(Executor::new(&bytes).is_err());
}

#[test]
fn op_ret_on_empty_control_stack_traps() {
    let bytes = module(0, &[], &[OP_RET]);
    let object = Bytecode::new(&bytes).unwrap();
    let mut ex = Executor {
        object,
        globals: Vec::new(),
        stack: Vec::new(),
        callstack: Vec::new(),
        ip: 0,
        output: Vec::new(),
    };
    assert_eq!(ex.op_ret(), Err(Trap::ControlStackUnderflow(0)));
}

#[test]
fn op_pushs_pushes_the_pool_entry() {
    let bytes = module(0, &["abc"], &[OP_PUSHS, 0]);
    let mut ex = Executor::new(&bytes).unwrap();
    assert_eq!(ex.op_pushs(), Ok(()));
    assert_eq!(ex.ip, 2);
    assert_eq!(ex.stack.len(), 1);
    assert!(matches!(&ex.stack[0], Cell::Str(s) if s == "abc"));
}

#[test]
fn run_pops_the_synthetic_entry_first() {
    // The synthetic end-of-code address is pushed on top of whatever the
    // control stack already holds, so the first RET pops it - LIFO - and the
    // run halts with the preloaded address still below.
    let bytes = module(0, &["late", "print"], &[OP_RET, OP_PUSHS, 0, OP_CALLP, 1, OP_RET]);
    let object = Bytecode::new(&bytes).unwrap();
    let mut ex = Executor {
        object,
        globals: Vec::new(),
        stack: Vec::new(),
        callstack: vec![1],
        ip: 0,
        output: Vec::new(),
    };
    assert_eq!(ex.run(), Ok(()));
    assert_eq!(ex.ip, 6);
    assert_eq!(ex.callstack, vec![1]);
    assert!(ex.output.is_empty());
}
