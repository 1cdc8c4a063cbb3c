use neander::machine::Interpreter;

#[test]
fn state_report_of_fresh_machine() {
    let i = Interpreter::new(vec![3, 78, 68, 82]).unwrap();
    assert_eq!(
        i.state_string(),
        "Interpreter state:\nAC: 0\nPC: 0\nMemory:\n 03  4E  44  52 "
    );
}

#[test]
fn state_report_after_run() {
    let mut i = Interpreter::new(vec![3, 78, 68, 82, 0, 0, 48, 0, 3, 0, 33, 0, 240, 0]).unwrap();
    i.process(10_000);
    assert_eq!(
        i.state_string(),
        "Interpreter state:\nAC: 33\nPC: 5\nMemory:\n 03  4E  44  52  00  00  30  00  03  00  21  00  F0  00 "
    );
}

#[test]
fn state_report_breaks_line_every_sixteen_bytes() {
    let bytes = vec![
        3, 78, 68, 82, 0, 0, 0, 0, 0, 0, 0, 0, 240, 0, 0, 0, 255, 0,
    ];
    let i = Interpreter::new(bytes).unwrap();
    assert_eq!(
        i.state_string(),
        "Interpreter state:\nAC: 0\nPC: 0\nMemory:\n 03  4E  44  52  00  00  00  00  00  00  00  00  F0  00  00  00 \n FF  00 "
    );
}
