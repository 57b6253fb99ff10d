use rotmg::rc4::Rc4;

struct Vector {
    key: &'static str,
    input: &'static str,
    output: Vec<u8>,
}

fn vectors() -> Vec<Vector> {
    vec![
        Vector {
            key: "Key",
            input: "Plaintext",
            output: vec![0xBB, 0xF3, 0x16, 0xE8, 0xD9, 0x40, 0xAF, 0x0A, 0xD3],
        },
        Vector {
            key: "Wiki",
            input: "pedia",
            output: vec![0x10, 0x21, 0xBF, 0x04, 0x20],
        },
        Vector {
            key: "Secret",
            input: "Attack at dawn",
            output: vec![
                0x45, 0xA0, 0x1F, 0x64, 0x5F, 0xC3, 0x5B, 0x38, 0x35, 0x52, 0x54, 0x4B, 0x9B,
                0xF5,
            ],
        },
    ]
}

#[test]
fn wikipedia_tests() {
    let tests = vectors();
    for t in tests.iter() {
        let mut rc4 = Rc4::new(t.key.as_bytes());
        let mut bytes = t.input.as_bytes().to_vec();
        rc4.process(&mut bytes[..]);
        assert!(bytes == t.output);
    }
}

#[test]
fn decrypting_is_encrypting_again() {
    let key: Vec<u8> = (1..=200u8).collect();
    let plain: Vec<u8> = (0..1000u32).map(|i| (i * 7 % 256) as u8).collect();
    let mut bytes = plain.clone();
    Rc4::new(&key).process(&mut bytes);
    assert_ne!(bytes, plain);
    Rc4::new(&key).process(&mut bytes);
    assert_eq!(bytes, plain);
}

#[test]
fn keys_of_one_and_of_256_bytes_are_accepted() {
    let mut one = vec![1u8, 2, 3];
    Rc4::new(&[0x42]).process(&mut one);
    Rc4::new(&[0x42]).process(&mut one);
    assert_eq!(one, vec![1, 2, 3]);
    let long: Vec<u8> = (0..=255u8).collect();
    let mut data = vec![9u8; 16];
    Rc4::new(&long).process(&mut data);
    Rc4::new(&long).process(&mut data);
    assert_eq!(data, vec![9u8; 16]);
}

#[test]
fn the_keystream_goes_on_across_calls() {
    let mut whole = b"Attack at dawn".to_vec();
    Rc4::new(b"Secret").process(&mut whole);
    let mut first = b"Attack".to_vec();
    let mut second = b" at dawn".to_vec();
    let mut cipher = Rc4::new(b"Secret");
    cipher.process(&mut first);
    cipher.process(&mut second);
    first.extend_from_slice(&second);
    assert_eq!(first, whole);
}

#[test]
fn process_from_leaves_the_front_alone() {
    let mut framed = vec![0u8, 0, 0, 14, 7];
    framed.extend_from_slice(b"Plaintext");
    Rc4::new(b"Key").process_from(&mut framed, 5);
    assert_eq!(&framed[..5], &[0, 0, 0, 14, 7]);
    assert_eq!(&framed[5..], &[0xBB, 0xF3, 0x16, 0xE8, 0xD9, 0x40, 0xAF, 0x0A, 0xD3]);
    let mut empty_tail = vec![1u8, 2, 3];
    Rc4::new(b"Key").process_from(&mut empty_tail, 3);
    assert_eq!(empty_tail, vec![1, 2, 3]);
}

#[test]
fn an_empty_input_stays_empty() {
    let mut nothing: Vec<u8> = vec![];
    Rc4::new(b"Key").process(&mut nothing);
    assert!(nothing.is_empty());
}
