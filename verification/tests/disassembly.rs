use neander::machine::Interpreter;

fn image(cells: &[u8]) -> Vec<u8> {
    let mut bytes = vec![3, 78, 68, 82];
    for &c in cells {
        bytes.push(c);
        bytes.push(0);
    }
    bytes
}

#[test]
fn disassemble_example_image() {
    let i = Interpreter::new(vec![3, 78, 68, 82, 0, 0, 48, 0, 3, 0, 33, 0, 240, 0]).unwrap();
    let tokens = i.convert_data();
    assert_eq!(tokens, vec!["NOP", "ADD", "3", "33", "HLT"]);
}

#[test]
fn disassemble_all_mnemonics() {
    let i = Interpreter::new(image(&[0, 16, 1, 32, 1, 48, 1, 64, 1, 80, 1, 96, 1, 128, 1, 144, 1, 160, 1, 240])).unwrap();
    let tokens = i.convert_data();
    assert_eq!(
        tokens,
        vec![
            "NOP", "STA", "1", "LDA", "1", "ADD", "1", "OR", "1", "AND", "1", "NOT", "1", "JMP",
            "1", "JN", "1", "JZ", "1", "HLT",
        ]
    );
}

#[test]
fn disassemble_decimal_values() {
    // ADD's operand prints as a plain decimal; so does every byte that is
    // no opcode, whatever its size.
    let i = Interpreter::new(image(&[48, 0, 9, 10, 99, 100, 255])).unwrap();
    let tokens = i.convert_data();
    assert_eq!(tokens, vec!["ADD", "0", "9", "10", "99", "100", "255"]);
}

#[test]
fn disassemble_header_only_image_is_empty() {
    let i = Interpreter::new(vec![3, 78, 68, 82]).unwrap();
    assert_eq!(i.convert_data(), Vec::<String>::new());
}

#[test]
fn disassemble_prints_trailing_half_cell() {
    // A lone trailing byte still forms a (half) cell and is printed.
    let i = Interpreter::new(vec![3, 78, 68, 82, 240, 0, 7]).unwrap();
    let tokens = i.convert_data();
    assert_eq!(tokens, vec!["HLT", "7"]);
}

#[test]
fn disassembly_is_unchanged_by_running() {
    let bytes = vec![3, 78, 68, 82, 0, 0, 48, 0, 3, 0, 33, 0, 240, 0];
    let mut i = Interpreter::new(bytes).unwrap();
    let before = i.convert_data();
    i.process(10_000);
    assert_eq!(i.convert_data(), before);
}

#[test]
fn disassembly_reflects_sta_writes() {
    // STA stores 77 into cell 6, and the disassembly reads the memory as it
    // now is.
    let mut i = Interpreter::new(image(&[32, 5, 16, 6, 240, 77, 0])).unwrap();
    assert_eq!(i.convert_data(), vec!["LDA", "5", "STA", "6", "HLT", "77", "NOP"]);
    i.process(10_000);
    assert_eq!(i.convert_data(), vec!["LDA", "5", "STA", "6", "HLT", "77", "77"]);
}
