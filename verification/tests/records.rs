use quest_board::state::{Address, Config, Counter, Quest};

#[test]
fn stored_lengths_add_up() {
    assert_eq!(Config::len(), 8 + 1 + 32 + 32 + 32 + 12 * 8 + 128);
    assert_eq!(Config::len(), 329);
    assert_eq!(Counter::len(), 8 + 1 + 6 * 8 + 128);
    assert_eq!(Counter::len(), 185);
    assert_eq!(Quest::len(), 225);
}

#[test]
fn a_taken_quest_fills_the_bytes_set_aside_for_it() {
    // tag, nonce, status, owner, four words, digest, key, then the four
    // counterparty fields set and the three vote fields unset
    let stored = 8 + 1 + 1 + 32 + 4 * 8 + 32 + 32 + (1 + 8) + (1 + 32) + (1 + 8) + (1 + 32) + 3;
    assert_eq!(Quest::len(), stored);
}

#[test]
fn addresses_are_equal_when_every_byte_is() {
    let a = Address::new([7u8; 32]);
    let b = Address::new([7u8; 32]);
    assert!(a == b);
    assert_eq!(a.to_bytes(), [7u8; 32]);
}

#[test]
fn addresses_differ_when_one_byte_does() {
    let a = Address::new([7u8; 32]);
    for i in 0..32 {
        let mut bytes = [7u8; 32];
        bytes[i] = 8;
        let b = Address::new(bytes);
        assert!(a != b);
        assert!(!(a == b));
    }
}
