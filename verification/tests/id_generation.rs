use cmdrec::id::generate_id;
use cmdrec::id::id_char;
use cmdrec::id::RECORD_ID_LENGTH;

#[test]
fn it_generates_ids() {
    let ids = [generate_id(), generate_id()];
    assert_ne!(ids[0], ids[1], "IDs are unique");
}

#[test]
fn it_maps_each_draw_to_its_own_alphabet_character() {
    let alphabet = ['1', '2', '3', '4', '5', '6', '7', '8', '9', '0', 'a', 'b', 'c', 'd', 'e', 'f'];
    for (d, expected) in alphabet.iter().enumerate() {
        assert_eq!(id_char(d as u8), *expected);
    }
    for d1 in 0..16u8 {
        for d2 in 0..16u8 {
            if d1 != d2 {
                assert_ne!(id_char(d1), id_char(d2));
            }
        }
    }
}

#[test]
fn it_generates_ids_of_fixed_length_over_the_id_alphabet() {
    for _ in 0..32 {
        let id = generate_id();
        assert_eq!(id.chars().count(), RECORD_ID_LENGTH);
        assert!(id.chars().all(|c| c.is_ascii_digit() || ('a'..='f').contains(&c)));
    }
}
