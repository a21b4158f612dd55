use fdg::{Action, Addr, Delta, DirectionSource, Fault, Script, VM};

/// Runs a machine to its halt, answering its requests from `input`, and
/// gives back what it printed and the value that is left on top.
fn run(vm: &mut VM, source: &mut Script, input: &[&str], limit: usize) -> (String, i64) {
    let mut out = String::new();
    let mut lines = input.iter();
    let mut steps = 0;
    loop {
        steps += 1;
        assert!(steps <= limit, "the program did not halt within {} steps", limit);
        match vm.tick(source) {
            Action::Continue => {}
            Action::PrintNumber(x) => out.push_str(&format!("{}", x)),
            Action::PrintChar(c) => out.push(c),
            Action::ReadNumber => {
                let line = lines.next().expect("a line of input");
                match vm.enter_number(line.as_bytes()) {
                    Action::Continue => {}
                    other => panic!("bad number: {:?}", other),
                }
            }
            Action::ReadChar => {
                let line = lines.next().expect("a line of input");
                match vm.enter_char(line.as_bytes()) {
                    Action::Continue => {}
                    other => panic!("no character: {:?}", other),
                }
            }
            Action::Interrupt(op, at) => {
                out.push_str("*** Interrupt ***\n");
                out.push_str(&format!("Unrecognised Opcode Detected: {} @ {:?}\n", op, at));
                let mut halted = false;
                loop {
                    out.push_str("Proceed? (y/n) \n");
                    let line = lines.next().expect("a line of input");
                    match vm.answer(line.as_bytes()) {
                        Action::Continue => break,
                        Action::Halt => {
                            halted = true;
                            break;
                        }
                        Action::Ask => {}
                        other => panic!("no answer: {:?}", other),
                    }
                }
                if halted {
                    break;
                }
            }
            Action::Ask => unreachable!(),
            Action::NoSuchSymbol(name) => {
                let name: String = name.iter().collect();
                out.push_str(&format!("No such symbol >> {} <<\n", name));
                break;
            }
            Action::Halt => break,
            Action::Fault(f) => panic!("fault: {:?}", f),
        }
    }
    (out, vm.pop())
}

fn run_text(program: &str, input: &[&str]) -> (String, i64) {
    let mut vm = VM::from_bytes(program.as_bytes());
    let mut source = Script::new(vec![]);
    run(&mut vm, &mut source, input, 10_000)
}

#[test]
fn multiplies_eight_by_four() {
    let (out, result) = run_text("84*.@", &[]);
    assert_eq!(out, "32");
    assert_eq!(result, 0);
}

#[test]
fn squares_five_by_duplication() {
    let (out, result) = run_text("5:*.@", &[]);
    assert_eq!(out, "25");
    assert_eq!(result, 0);
}

#[test]
fn unknown_opcode_halts_on_no() {
    let mut vm = VM::from_bytes(b"Z@");
    let mut source = Script::new(vec![]);
    let (out, result) = run(&mut vm, &mut source, &["n"], 100);
    assert_eq!(
        out,
        "*** Interrupt ***\nUnrecognised Opcode Detected: Z @ Addr(0, 0)\nProceed? (y/n) \n"
    );
    assert_eq!(result, 0);
    // The `@` was never reached: the pointer still stands on the unknown opcode.
    assert_eq!(vm.pc(), Addr(0, 0));
}

#[test]
fn unknown_opcode_proceeds_on_yes() {
    let (out, result) = run_text("Z7.@", &["maybe", "Y"]);
    assert_eq!(
        out,
        "*** Interrupt ***\nUnrecognised Opcode Detected: Z @ Addr(0, 0)\n\
         Proceed? (y/n) \nProceed? (y/n) \n7"
    );
    assert_eq!(result, 0);
}

#[test]
fn result_is_the_top_of_the_final_stack() {
    let (out, result) = run_text("12@", &[]);
    assert_eq!(out, "");
    assert_eq!(result, 2);
}

#[test]
fn subtraction_takes_the_top_from_the_value_below() {
    assert_eq!(run_text("73-.@", &[]).0, "4");
    assert_eq!(run_text("37-.@", &[]).0, "-4");
}

#[test]
fn division_and_remainder_round_towards_zero() {
    assert_eq!(run_text("72/.@", &[]).0, "3");
    assert_eq!(run_text("72%.@", &[]).0, "1");
    assert_eq!(run_text("07-2/.@", &[]).0, "-3");
    assert_eq!(run_text("07-2%.@", &[]).0, "-1");
    assert_eq!(run_text("702-/.@", &[]).0, "-3");
    assert_eq!(run_text("702-%.@", &[]).0, "1");
}

#[test]
fn hexadecimal_digits_push_their_values() {
    assert_eq!(run_text("0.1.9.a.f.@", &[]).0, "0191015");
}

#[test]
fn greater_than_and_not() {
    assert_eq!(run_text("53`.35`.55`.@", &[]).0, "100");
    assert_eq!(run_text("0!.7!.@", &[]).0, "10");
}

#[test]
fn swap_exchanges_the_top_two() {
    assert_eq!(run_text("12\\..@", &[]).0, "12");
    assert_eq!(run_text("12..@", &[]).0, "21");
}

#[test]
fn discard_and_duplicate() {
    assert_eq!(run_text("12$.@", &[]).0, "1");
    assert_eq!(run_text("3:..@", &[]).0, "33");
}

#[test]
fn bridge_skips_the_next_cell() {
    assert_eq!(run_text("#@5.@", &[]).0, "5");
}

#[test]
fn arrows_steer_the_pointer() {
    // East along row 0, south down column 2, west along row 1.
    let program = "1 v\n@.<";
    assert_eq!(run_text(program, &[]).0, "1");
}

#[test]
fn horizontal_branch_goes_west_on_nonzero() {
    // A nonzero value sends the pointer back west, over `1` and `.` to `@`.
    assert_eq!(run_text("#@.1_", &[]).0, "01");
    // and zero sends it east.
    assert_eq!(run_text("0_7.@", &[]).0, "7");
}

#[test]
fn vertical_branch_goes_north_on_nonzero() {
    let program = " @\n1|\n @\n";
    let mut vm = VM::from_bytes(program.as_bytes());
    vm.jump(Addr(0, 1));
    let mut source = Script::new(vec![]);
    assert_eq!(vm.tick(&mut source), Action::Continue);
    assert_eq!(vm.tick(&mut source), Action::Continue);
    assert_eq!(vm.delta(), Delta::N);
    assert_eq!(vm.pc(), Addr(1, 0));

    let program = " @\n0|\n @\n";
    let mut vm = VM::from_bytes(program.as_bytes());
    vm.jump(Addr(0, 1));
    assert_eq!(vm.tick(&mut source), Action::Continue);
    assert_eq!(vm.tick(&mut source), Action::Continue);
    assert_eq!(vm.delta(), Delta::S);
    assert_eq!(vm.pc(), Addr(1, 2));
}

#[test]
fn string_literal_pushes_its_characters_in_order() {
    let mut vm = VM::from_bytes(b"\"ab\"@");
    let mut source = Script::new(vec![]);
    assert_eq!(vm.tick(&mut source), Action::Continue);
    assert_eq!(vm.depth(), 2);
    assert_eq!(vm.peek(1), 'a' as i64);
    assert_eq!(vm.peek(0), 'b' as i64);
    // Dispatch resumes on the cell after the closing quote.
    assert_eq!(vm.pc(), Addr(4, 0));
    assert_eq!(vm.instr(), '@');
    assert_eq!(vm.tick(&mut source), Action::Halt);
}

#[test]
fn string_literal_prints_back_to_front() {
    assert_eq!(run_text("\"ih\",,@", &[]).0, "hi");
}

#[test]
fn unclosed_string_ends_on_its_own_quote() {
    // No second quote on the row: travel comes round to the opening one.
    let mut vm = VM::from_bytes(b"\"ab");
    let mut source = Script::new(vec![]);
    assert_eq!(vm.tick(&mut source), Action::Continue);
    assert_eq!(vm.depth(), 79);
    assert_eq!(vm.peek(78), 'a' as i64);
    assert_eq!(vm.peek(77), 'b' as i64);
    assert_eq!(vm.peek(0), ' ' as i64);
    assert_eq!(vm.pc(), Addr(81, 0));
    assert_eq!(vm.instr(), 'a');
}

#[test]
fn empty_string_pushes_nothing() {
    let mut vm = VM::from_bytes(b"\"\"@");
    let mut source = Script::new(vec![]);
    assert_eq!(vm.tick(&mut source), Action::Continue);
    assert_eq!(vm.depth(), 0);
    assert_eq!(vm.pc(), Addr(2, 0));
}

#[test]
fn label_reference_pushes_return_and_target() {
    let program = "[foo]j@\n{foo} 7.@";
    let mut vm = VM::from_bytes(program.as_bytes());
    let name: Vec<char> = "foo".chars().collect();
    // The label stands for the cell east of its closing brace.
    assert_eq!(vm.resolve(&name), Some(Addr(5, 1)));
    let mut source = Script::new(vec![]);
    assert_eq!(vm.tick(&mut source), Action::Continue);
    assert_eq!(vm.depth(), 4);
    assert_eq!(vm.peek(3), 5);
    assert_eq!(vm.peek(2), 0);
    assert_eq!(vm.peek(1), 5);
    assert_eq!(vm.peek(0), 1);
    assert_eq!(vm.pc(), Addr(5, 0));
}

#[test]
fn label_jump_runs_the_code_after_the_label() {
    let program = "[foo]j@\n{foo} 7.@";
    let (out, result) = run_text(program, &[]);
    assert_eq!(out, "7");
    // The return address is still on the stack; its row is on top.
    assert_eq!(result, 0);
}

#[test]
fn label_survives_overwriting_its_text() {
    // The program blanks the `f` of `{foo}` before it refers to the label.
    let program = "48*11p[foo]j@\n{foo} 7.@";
    let (out, _) = run_text(program, &[]);
    assert_eq!(out, "7");
}

#[test]
fn unknown_label_is_reported_and_halts() {
    let mut vm = VM::from_bytes(b"5[nope]@");
    let mut source = Script::new(vec![]);
    let (out, result) = run(&mut vm, &mut source, &[], 100);
    assert_eq!(out, "No such symbol >> nope <<\n");
    assert_eq!(result, 5);
    // The pointer rests on the closing bracket.
    assert_eq!(vm.pc(), Addr(6, 0));
}

#[test]
fn unclosed_label_reference_is_a_fault() {
    let mut vm = VM::from_bytes(b"[abc");
    let mut source = Script::new(vec![]);
    assert_eq!(vm.tick(&mut source), Action::Fault(Fault::OpenLabel));
    assert_eq!(vm.pc(), Addr(0, 0));
    assert_eq!(vm.depth(), 0);
}

#[test]
fn pointer_address_is_pushed_column_first() {
    let mut vm = VM::from_bytes(b"  r@");
    let mut source = Script::new(vec![]);
    for _ in 0..3 {
        assert_eq!(vm.tick(&mut source), Action::Continue);
    }
    assert_eq!(vm.depth(), 2);
    assert_eq!(vm.peek(1), 2);
    assert_eq!(vm.peek(0), 0);
}

#[test]
fn jump_lands_and_steps_on() {
    // Column 6, row 0 on the stack: the pointer lands on column 6 and the
    // step after the jump takes it to column 7.
    assert_eq!(run_text("60j@@@@5.@", &[]).0, "5");
}

#[test]
fn put_and_get_use_the_playfield() {
    assert_eq!(run_text("65*01p01g.@", &[]).0, "30");
}

#[test]
fn put_rewrites_the_running_program() {
    // Writes `7` (code 55) over the `@` at column 8 before it is reached.
    assert_eq!(run_text("a5*5+80p@.@", &[]).0, "7");
}

#[test]
fn character_output_uses_the_low_byte() {
    assert_eq!(run_text("a5*1+,@", &[]).0, "3");
    let mut vm = VM::from_bytes(b",@");
    vm.push(256 + 65);
    let mut source = Script::new(vec![]);
    assert_eq!(vm.tick(&mut source), Action::PrintChar('A'));
    vm.jump(Addr(0, 0));
    vm.push(-1);
    assert_eq!(vm.tick(&mut source), Action::PrintChar('\u{ff}'));
}

#[test]
fn number_input_is_pushed() {
    assert_eq!(run_text("&.@", &["42"]).0, "42");
    assert_eq!(run_text("&.@", &["-17"]).0, "-17");
}

#[test]
fn malformed_number_is_a_fault() {
    let mut vm = VM::from_bytes(b"&.@");
    let mut source = Script::new(vec![]);
    assert_eq!(vm.tick(&mut source), Action::ReadNumber);
    assert_eq!(vm.enter_number(b"42\n"), Action::Fault(Fault::BadNumber));
    assert_eq!(vm.enter_number(b"x"), Action::Fault(Fault::BadNumber));
    assert_eq!(vm.enter_number(b""), Action::Fault(Fault::BadNumber));
    assert_eq!(vm.depth(), 0);
    assert_eq!(vm.pc(), Addr(0, 0));
    assert_eq!(vm.enter_number(b"42"), Action::Continue);
    assert_eq!(vm.peek(0), 42);
    assert_eq!(vm.pc(), Addr(1, 0));
}

#[test]
fn character_input_pushes_the_first_code() {
    assert_eq!(run_text("~.@", &["A\n"]).0, "65");
    let mut vm = VM::from_bytes(b"~");
    assert_eq!(vm.enter_char(b""), Action::Fault(Fault::NoInput));
    assert_eq!(vm.depth(), 0);
}

#[test]
fn answer_understands_yes_and_no() {
    let mut vm = VM::from_bytes(b"Z@");
    let mut source = Script::new(vec![]);
    assert_eq!(vm.tick(&mut source), Action::Interrupt('Z', Addr(0, 0)));
    assert_eq!(vm.answer(b"what?\n"), Action::Ask);
    assert_eq!(vm.answer(b""), Action::Fault(Fault::NoInput));
    assert_eq!(vm.answer(b"no\n"), Action::Halt);
    assert_eq!(vm.pc(), Addr(0, 0));
    assert_eq!(vm.answer(b"N"), Action::Halt);
    assert_eq!(vm.answer(b"yes\n"), Action::Continue);
    assert_eq!(vm.pc(), Addr(1, 0));
}

#[test]
fn halt_leaves_the_pointer_in_place() {
    let mut vm = VM::from_bytes(b"@");
    let mut source = Script::new(vec![]);
    assert_eq!(vm.tick(&mut source), Action::Halt);
    assert_eq!(vm.tick(&mut source), Action::Halt);
    assert_eq!(vm.pc(), Addr(0, 0));
}

#[test]
fn division_by_zero_is_a_fault() {
    for program in ["50/", "50%"] {
        let mut vm = VM::from_bytes(program.as_bytes());
        let mut source = Script::new(vec![]);
        assert_eq!(vm.tick(&mut source), Action::Continue);
        assert_eq!(vm.tick(&mut source), Action::Continue);
        assert_eq!(vm.tick(&mut source), Action::Fault(Fault::DivideByZero));
        // The machine is as it was before the step.
        assert_eq!(vm.depth(), 2);
        assert_eq!(vm.pc(), Addr(2, 0));
    }
}

#[test]
fn arithmetic_overflow_is_a_fault() {
    let mut source = Script::new(vec![]);
    let cases: [(&[u8], i64, i64); 4] = [
        (b"+", i64::MAX, 1),
        (b"-", i64::MIN, 1),
        (b"*", i64::MAX, 2),
        (b"/", i64::MIN, -1),
    ];
    for (program, x, y) in cases {
        let mut vm = VM::from_bytes(program);
        vm.push(x);
        vm.push(y);
        assert_eq!(vm.tick(&mut source), Action::Fault(Fault::Overflow));
        assert_eq!(vm.depth(), 2);
    }
    // The remainder by minus one is zero, also of the least integer.
    let mut vm = VM::from_bytes(b"%");
    vm.push(i64::MIN);
    vm.push(-1);
    assert_eq!(vm.tick(&mut source), Action::Continue);
    assert_eq!(vm.peek(0), 0);
    // The extremes themselves are results like any other.
    let mut vm = VM::from_bytes(b"+");
    vm.push(i64::MAX - 1);
    vm.push(1);
    assert_eq!(vm.tick(&mut source), Action::Continue);
    assert_eq!(vm.peek(0), i64::MAX);
}

#[test]
fn pointer_out_of_range_is_a_fault() {
    let mut vm = VM::from_bytes(b"1");
    let mut source = Script::new(vec![]);
    // Column i64::MAX denotes column 47 of the torus.
    vm.put(Addr(47, 0), '1' as i64);
    vm.jump(Addr(i64::MAX, 0));
    assert_eq!(vm.instr(), '1');
    assert_eq!(vm.tick(&mut source), Action::Fault(Fault::OutOfRange));
    assert_eq!(vm.depth(), 0);
    assert_eq!(vm.pc(), Addr(i64::MAX, 0));
}

#[test]
fn pointer_runs_on_beyond_the_playfield() {
    // The pointer is not reduced: after a lap it stands on column 80.
    let mut vm = VM::from_bytes(b"");
    let mut source = Script::new(vec![]);
    for _ in 0..80 {
        assert_eq!(vm.tick(&mut source), Action::Continue);
    }
    assert_eq!(vm.pc(), Addr(80, 0));
    vm.turn(Delta::W);
    for _ in 0..82 {
        assert_eq!(vm.tick(&mut source), Action::Continue);
    }
    assert_eq!(vm.pc(), Addr(-2, 0));
}

#[test]
fn westward_travel_wraps_to_the_last_column() {
    // Heading west from column 0 the next opcode is the one in column 79.
    let mut program = vec![b' '; 80];
    program[0] = b'<';
    program[79] = b'@';
    let mut vm = VM::from_bytes(&program);
    let mut source = Script::new(vec![]);
    assert_eq!(vm.tick(&mut source), Action::Continue);
    assert_eq!(vm.pc(), Addr(-1, 0));
    assert_eq!(vm.instr(), '@');
    assert_eq!(vm.tick(&mut source), Action::Halt);
}

#[test]
fn random_turn_takes_what_the_source_gives() {
    let all = [Delta::N, Delta::S, Delta::E, Delta::W];
    let mut source = Script::new(all.to_vec());
    for d in all {
        let mut vm = VM::from_bytes(b"?");
        assert_eq!(vm.tick(&mut source), Action::Continue);
        assert_eq!(vm.delta(), d);
        let expected = match d {
            Delta::N => Addr(0, -1),
            Delta::S => Addr(0, 1),
            Delta::E => Addr(1, 0),
            Delta::W => Addr(-1, 0),
        };
        assert_eq!(vm.pc(), expected);
    }
}

#[test]
fn source_is_asked_only_for_the_random_turn() {
    let mut source = Script::new(vec![Delta::S, Delta::N]);
    let mut vm = VM::from_bytes(b"1>?");
    assert_eq!(vm.tick(&mut source), Action::Continue);
    assert_eq!(vm.tick(&mut source), Action::Continue);
    assert_eq!(vm.delta(), Delta::E);
    assert_eq!(vm.tick(&mut source), Action::Continue);
    assert_eq!(vm.delta(), Delta::S);
    assert_eq!(source.next_direction(), Delta::N);
}

#[test]
fn tick_with_takes_the_given_direction() {
    let mut vm = VM::from_bytes(b"?");
    assert_eq!(vm.tick_with(Delta::N), Action::Continue);
    assert_eq!(vm.delta(), Delta::N);
    assert_eq!(vm.pc(), Addr(0, -1));
}
