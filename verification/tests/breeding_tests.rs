use kitties::{crossover, next_id, random_value, Error};

#[test]
fn crossover_takes_each_bit_from_the_selected_parent() {
    let all_ones = [0xffu8; 16];
    let all_zeros = [0x00u8; 16];
    let a = [0xaau8; 16];
    let b = [0x55u8; 16];
    // selector all 1: the child is the first parent
    assert_eq!(crossover(&all_ones, &a, &b), a);
    // selector all 0: the child is the second parent
    assert_eq!(crossover(&all_zeros, &a, &b), b);
    // mixed selector: high nibble from the first parent, low from the second
    let sel = [0xf0u8; 16];
    assert_eq!(crossover(&sel, &a, &b), [0xa5u8; 16]);
}

#[test]
fn crossover_works_per_position() {
    let mut sel = [0x00u8; 16];
    sel[3] = 0xff;
    let a = [0x12u8; 16];
    let b = [0x34u8; 16];
    let child = crossover(&sel, &a, &b);
    for (i, byte) in child.iter().enumerate() {
        if i == 3 {
            assert_eq!(*byte, 0x12);
        } else {
            assert_eq!(*byte, 0x34);
        }
    }
}

#[test]
fn derivation_is_deterministic() {
    let entropy = vec![80u8, 81, 82];
    let first = random_value(&entropy, 10, 7);
    let second = random_value(&entropy, 10, 7);
    assert_eq!(first, second);
    // and the crossover on top of it as well
    let a = [0x12u8; 16];
    let b = [0x34u8; 16];
    assert_eq!(crossover(&first, &a, &b), crossover(&second, &a, &b));
}

#[test]
fn derivation_depends_on_every_input() {
    let entropy = vec![80u8];
    let base = random_value(&entropy, 10, 1);
    assert_ne!(base, random_value(&[81u8], 10, 1));
    assert_ne!(base, random_value(&entropy, 11, 1));
    assert_ne!(base, random_value(&entropy, 10, 2));
}

#[test]
fn derivation_matches_known_digest() {
    // blake2b-128 of the SCALE encoding of (&[80u8][..], 10u64, 1u64)
    let dna = random_value(&[80u8], 10, 1);
    let expected: [u8; 16] = [
        23, 192, 208, 135, 205, 88, 122, 24, 37, 79, 143, 34, 103, 33, 18, 97,
    ];
    assert_eq!(dna, expected);
}

#[test]
fn next_id_counts_up_and_stops_at_the_top() {
    assert_eq!(next_id(0), Ok(1));
    assert_eq!(next_id(5), Ok(6));
    assert_eq!(next_id(u64::MAX - 1), Ok(u64::MAX));
    assert_eq!(next_id(u64::MAX), Err(Error::CounterOverflow));
}
