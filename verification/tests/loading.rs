use fdg::{Addr, Delta, VM};

fn name(s: &str) -> Vec<char> {
    s.chars().collect()
}

#[test]
fn text_is_laid_out_row_by_row() {
    let vm = VM::from_bytes(b"ab\ncd\n\ne");
    assert_eq!(vm.fetch(Addr(0, 0)), 'a' as i64);
    assert_eq!(vm.fetch(Addr(1, 0)), 'b' as i64);
    assert_eq!(vm.fetch(Addr(2, 0)), 32);
    assert_eq!(vm.fetch(Addr(0, 1)), 'c' as i64);
    assert_eq!(vm.fetch(Addr(1, 1)), 'd' as i64);
    assert_eq!(vm.fetch(Addr(0, 2)), 32);
    assert_eq!(vm.fetch(Addr(0, 3)), 'e' as i64);
    assert_eq!(vm.pc(), Addr(0, 0));
    assert_eq!(vm.delta(), Delta::E);
    assert_eq!(vm.depth(), 0);
}

#[test]
fn long_line_continues_on_the_next_row() {
    let mut text = vec![b'x'; 80];
    text.push(b'y');
    text.push(b'z');
    let vm = VM::from_bytes(&text);
    assert_eq!(vm.fetch(Addr(79, 0)), 'x' as i64);
    assert_eq!(vm.fetch(Addr(0, 1)), 'y' as i64);
    assert_eq!(vm.fetch(Addr(1, 1)), 'z' as i64);
    assert_eq!(vm.fetch(Addr(2, 1)), 32);
}

#[test]
fn full_line_with_line_feed_takes_one_row() {
    let mut text = vec![b'x'; 80];
    text.push(b'\n');
    text.push(b'y');
    let vm = VM::from_bytes(&text);
    assert_eq!(vm.fetch(Addr(0, 1)), 'y' as i64);
    assert_eq!(vm.fetch(Addr(0, 2)), 32);
}

#[test]
fn rows_beyond_the_last_overwrite_the_first() {
    let mut text = Vec::new();
    for _ in 0..25 {
        text.extend_from_slice(b"a\n");
    }
    text.extend_from_slice(b"b");
    let vm = VM::from_bytes(&text);
    assert_eq!(vm.fetch(Addr(0, 0)), 'b' as i64);
    assert_eq!(vm.fetch(Addr(0, 1)), 'a' as i64);
    assert_eq!(vm.fetch(Addr(0, 24)), 'a' as i64);
}

#[test]
fn carriage_return_is_an_ordinary_byte() {
    let vm = VM::from_bytes(b"a\r\nb");
    assert_eq!(vm.fetch(Addr(1, 0)), 13);
    assert_eq!(vm.fetch(Addr(0, 1)), 'b' as i64);
}

#[test]
fn bytes_above_ascii_are_placed_as_they_are() {
    let vm = VM::from_bytes(&[0xe9, 0xff, 0x00]);
    assert_eq!(vm.fetch(Addr(0, 0)), 0xe9);
    assert_eq!(vm.fetch(Addr(1, 0)), 0xff);
    assert_eq!(vm.fetch(Addr(2, 0)), 0);
    assert_eq!(vm.instr(), '\u{e9}');
}

#[test]
fn label_stands_for_the_cell_east_of_its_brace() {
    let vm = VM::from_bytes(b"12{foo}34\n  {bar}");
    assert_eq!(vm.resolve(&name("foo")), Some(Addr(7, 0)));
    assert_eq!(vm.resolve(&name("bar")), Some(Addr(7, 1)));
    assert_eq!(vm.resolve(&name("baz")), None);
    // The braces and the name are on the playfield like any other text.
    assert_eq!(vm.fetch(Addr(2, 0)), '{' as i64);
    assert_eq!(vm.fetch(Addr(3, 0)), 'f' as i64);
    assert_eq!(vm.fetch(Addr(6, 0)), '}' as i64);
    assert_eq!(vm.fetch(Addr(7, 0)), '3' as i64);
}

#[test]
fn label_row_is_not_reduced() {
    let mut text = Vec::new();
    for _ in 0..30 {
        text.push(b'\n');
    }
    text.extend_from_slice(b"{x}");
    let vm = VM::from_bytes(&text);
    assert_eq!(vm.resolve(&name("x")), Some(Addr(3, 30)));
    assert_eq!(vm.fetch(Addr(0, 5)), '{' as i64);
}

#[test]
fn label_at_the_end_of_a_row_points_past_it() {
    let mut text = vec![b' '; 77];
    text.extend_from_slice(b"{a}");
    let vm = VM::from_bytes(&text);
    assert_eq!(vm.resolve(&name("a")), Some(Addr(80, 0)));
}

#[test]
fn label_does_not_span_rows() {
    let vm = VM::from_bytes(b"{fo\no}");
    assert_eq!(vm.resolve(&name("foo")), None);
    assert_eq!(vm.resolve(&name("fo")), None);
    assert_eq!(vm.resolve(&name("o")), None);

    let mut text = vec![b' '; 78];
    text.extend_from_slice(b"{ab}");
    let vm = VM::from_bytes(&text);
    assert_eq!(vm.resolve(&name("ab")), None);
    assert_eq!(vm.resolve(&name("a")), None);
    assert_eq!(vm.resolve(&name("b")), None);
}

#[test]
fn brace_inside_a_label_joins_its_name() {
    let vm = VM::from_bytes(b"{a{b}c}");
    assert_eq!(vm.resolve(&name("a{b")), Some(Addr(5, 0)));
    assert_eq!(vm.resolve(&name("b")), None);
    assert_eq!(vm.resolve(&name("a")), None);
}

#[test]
fn closing_brace_alone_defines_nothing() {
    let vm = VM::from_bytes(b"a}b");
    assert_eq!(vm.resolve(&name("a")), None);
    assert_eq!(vm.resolve(&name("")), None);
}

#[test]
fn empty_braces_define_the_empty_name() {
    let vm = VM::from_bytes(b"{}");
    assert_eq!(vm.resolve(&name("")), Some(Addr(2, 0)));
}

#[test]
fn later_definition_replaces_the_earlier() {
    let vm = VM::from_bytes(b"{a}\n   {a}");
    assert_eq!(vm.resolve(&name("a")), Some(Addr(6, 1)));
}

#[test]
fn unfinished_text_is_loaded_as_far_as_it_goes() {
    let vm = VM::from_bytes(b"12{fo");
    assert_eq!(vm.fetch(Addr(4, 0)), 'o' as i64);
    assert_eq!(vm.resolve(&name("fo")), None);
    let vm = VM::from_bytes(b"");
    assert_eq!(vm.fetch(Addr(0, 0)), 32);
}
