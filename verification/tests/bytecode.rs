use actors_core::bytecode::Bytecode;

const STOP: u8 = 0x00;
const JUMPDEST: u8 = 0x5b;
const PUSH1: u8 = 0x60;
const PUSH2: u8 = 0x61;
const PUSH32: u8 = 0x7f;

fn table_of(code: &[u8]) -> Vec<bool> {
    let offsets = Bytecode::compute_jmpdest(code);
    let bytecode = Bytecode::new(code, &offsets);
    (0..code.len()).map(|o| bytecode.valid_jmpdest(o)).collect()
}

#[test]
fn empty_code_has_empty_table() {
    let code: [u8; 0] = [];
    assert_eq!(Bytecode::compute_jmpdest(&code), Vec::<u16>::new());
    let bytecode = Bytecode::new(&code, &vec![]);
    assert!(!bytecode.valid_jmpdest(0));
}

#[test]
fn jumpdest_inside_push_immediate_is_not_valid() {
    // A JUMPDEST-valued byte that is PUSH1's immediate operand, not code.
    assert_eq!(table_of(&[PUSH1, JUMPDEST]), vec![false, false]);
}

#[test]
fn jumpdest_at_instruction_boundary_is_valid() {
    assert_eq!(table_of(&[JUMPDEST, STOP]), vec![true, false]);
}

#[test]
fn push_skips_its_immediate_but_not_the_next_boundary() {
    // Offset 2 is PUSH1's immediate operand; offset 3 is a real boundary.
    assert_eq!(
        table_of(&[JUMPDEST, PUSH1, JUMPDEST, JUMPDEST]),
        vec![true, false, false, true]
    );
}

#[test]
fn push2_skips_two_immediate_bytes() {
    assert_eq!(
        table_of(&[PUSH2, JUMPDEST, JUMPDEST, JUMPDEST]),
        vec![false, false, false, true]
    );
}

#[test]
fn push32_skips_thirty_two_immediate_bytes() {
    let mut code = vec![PUSH32];
    code.extend([JUMPDEST; 32]);
    code.push(JUMPDEST);
    let mut expected = vec![false; 33];
    expected.push(true);
    assert_eq!(table_of(&code), expected);
    assert_eq!(Bytecode::compute_jmpdest(&code), vec![33]);
}

#[test]
fn push_running_past_the_end_is_not_an_error() {
    // PUSH1 with no immediate byte left: the scan just stops.
    assert_eq!(table_of(&[PUSH1]), vec![false]);
    assert_eq!(table_of(&[JUMPDEST, PUSH32, JUMPDEST]), vec![true, false, false]);
}

#[test]
fn offsets_at_or_past_the_end_are_invalid() {
    let code = [JUMPDEST, STOP];
    let offsets = Bytecode::compute_jmpdest(&code);
    let bytecode = Bytecode::new(&code, &offsets);
    assert!(bytecode.valid_jmpdest(0));
    assert!(!bytecode.valid_jmpdest(2));
    assert!(!bytecode.valid_jmpdest(3));
    assert!(!bytecode.valid_jmpdest(usize::MAX));
}

#[test]
fn analysis_is_deterministic() {
    let code = [JUMPDEST, PUSH2, JUMPDEST, JUMPDEST, JUMPDEST, PUSH1, JUMPDEST, STOP];
    let first = Bytecode::compute_jmpdest(&code);
    let second = Bytecode::compute_jmpdest(&code);
    assert_eq!(first, second);
    assert_eq!(table_of(&code), table_of(&code));
}

#[test]
fn offsets_are_strictly_increasing() {
    let code = [JUMPDEST, STOP, JUMPDEST, PUSH1, 0xff, JUMPDEST];
    assert_eq!(Bytecode::compute_jmpdest(&code), vec![0, 2, 5]);
}

#[test]
fn table_length_equals_code_length() {
    for code in [&[][..], &[STOP][..], &[JUMPDEST, PUSH2, JUMPDEST][..]] {
        assert_eq!(table_of(code).len(), code.len());
    }
}

#[test]
fn externally_supplied_offsets_mark_exactly_those_offsets() {
    let code = [STOP, JUMPDEST, STOP];
    let bytecode = Bytecode::new(&code, &vec![1]);
    assert!(!bytecode.valid_jmpdest(0));
    assert!(bytecode.valid_jmpdest(1));
    assert!(!bytecode.valid_jmpdest(2));
}

#[test]
fn as_bytes_returns_the_code() {
    let code = [JUMPDEST, PUSH1, 0x02];
    let offsets = Bytecode::compute_jmpdest(&code);
    let bytecode = Bytecode::new(&code, &offsets);
    assert_eq!(bytecode.as_bytes(), &code);
}
