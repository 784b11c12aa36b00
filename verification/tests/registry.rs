use web_chess::registry::Registry;

#[test]
fn get_on_an_unknown_code_is_not_found() {
    let reg: Registry<u32> = Registry::new();
    assert!(reg.get(&"ZZZZZZ".to_string()).is_none());
    assert!(!reg.contains(&"AAAAAA".to_string()));
}

#[test]
fn created_sessions_are_found_under_their_code() {
    let mut reg: Registry<u32> = Registry::new();
    assert_eq!(reg.len(), 0);
    let code = reg.create(7);
    assert_eq!(code.chars().count(), 6);
    assert_eq!(reg.len(), 1);
    assert!(reg.contains(&code));
    assert_eq!(reg.get(&code), Some(&7));
}

#[test]
fn two_creations_never_share_a_code() {
    let mut reg: Registry<u32> = Registry::new();
    let a = reg.create(1);
    let b = reg.create(2);
    assert_ne!(a, b);
    assert_eq!(reg.get(&a), Some(&1));
    assert_eq!(reg.get(&b), Some(&2));
}

#[test]
fn many_creations_stay_pairwise_distinct() {
    let mut reg: Registry<usize> = Registry::new();
    let mut codes = Vec::new();
    for i in 0..50usize {
        codes.push(reg.create(i));
    }
    for i in 0..codes.len() {
        for j in (i + 1)..codes.len() {
            assert_ne!(codes[i], codes[j]);
        }
        assert_eq!(reg.get(&codes[i]), Some(&i));
    }
}
