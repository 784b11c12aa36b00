use web_chess::code_gen::{encode_code, get_code};

const ALPHABET: &str = "ABCDEFGHJKMNPQRSTUVWXYZ23456789";

fn assert_valid(code: &str) {
    assert_eq!(code.chars().count(), 6, "a session code has six characters");
    for c in code.chars() {
        assert!(ALPHABET.contains(c), "unexpected code character {c}");
    }
}

#[test]
fn drawn_codes_are_well_formed() {
    for _ in 0..64 {
        let code = get_code();
        assert_valid(&code);
    }
}

#[test]
fn encoding_writes_base_31_most_significant_first() {
    assert_eq!(encode_code(0), "AAAAAA");
    assert_eq!(encode_code(1), "AAAAAB");
    assert_eq!(encode_code(30), "AAAAA9");
    assert_eq!(encode_code(31), "AAAABA");
    assert_eq!(encode_code(31 * 31), "AAABAA");
    assert_eq!(encode_code(887503680), "999999");
}

#[test]
fn encoded_codes_are_well_formed() {
    for i in [0usize, 7, 30, 31, 961, 887503680] {
        assert_valid(&encode_code(i));
    }
}

#[test]
fn encoding_is_injective_on_samples() {
    let mut seen = Vec::new();
    for i in 0..1000usize {
        let code = encode_code(i);
        assert!(!seen.contains(&code));
        seen.push(code);
    }
}
