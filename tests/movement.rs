use telnet_animations::movement::{decode_movements, Movement};

#[test]
fn each_code_maps_to_its_delta() {
    let cases = [
        ('7', (-1, -1)),
        ('8', (-1, 0)),
        ('9', (-1, 1)),
        ('4', (0, -1)),
        ('6', (0, 1)),
        ('1', (1, -1)),
        ('2', (1, 0)),
        ('3', (1, 1)),
    ];
    let mut seen = Vec::new();
    for (code, delta) in cases {
        let decoded = decode_movements(&code.to_string()).expect("a keypad digit decodes");
        assert_eq!(decoded.len(), 1);
        assert_eq!(decoded[0].to_coordinates(), delta);
        assert!(!seen.contains(&delta));
        seen.push(delta);
    }
}

#[test]
fn keypad_digits_decode_to_directions() {
    assert_eq!(
        decode_movements("78946123"),
        Some(vec![
            Movement::UpLeft,
            Movement::Up,
            Movement::UpRight,
            Movement::Left,
            Movement::Right,
            Movement::DownLeft,
            Movement::Down,
            Movement::DownRight,
        ])
    );
}

#[test]
fn full_keypad_script_decodes() {
    let decoded = decode_movements("123468798").expect("a valid script decodes");
    assert_eq!(decoded.len(), 9);
    assert_eq!(decoded[0], Movement::DownLeft);
    assert_eq!(decoded[7], Movement::UpRight);
    assert_eq!(decoded[8], Movement::Up);
}

#[test]
fn letters_fail_to_decode() {
    assert_eq!(decode_movements("abc"), None);
}

#[test]
fn one_bad_character_rejects_whole_script() {
    assert_eq!(decode_movements("66665"), None);
    assert_eq!(decode_movements("666 6"), None);
    assert_eq!(decode_movements("0"), None);
    assert_eq!(decode_movements("x6666"), None);
}

#[test]
fn empty_script_decodes_to_nothing() {
    assert_eq!(decode_movements(""), Some(vec![]));
}
