use anchor_lang::prelude::Pubkey;
use danielstaking::{id, Address, ID_BYTES};

const ID_TEXT: &str = "2xoAoRGcm47pSQZShj5muH8b763iyREz388bw2YGQS6L";

#[test]
fn the_declared_identity_reads_as_its_base58_text() {
    assert_eq!(id().to_text(), ID_TEXT);
}

#[test]
fn the_declared_identity_has_the_bytes_of_its_text() {
    assert_eq!(id().to_bytes(), Pubkey::from_str_const(ID_TEXT).to_bytes());
    assert_eq!(id().to_bytes(), ID_BYTES);
    assert_eq!(ID_BYTES[0], 0x1d);
    assert_eq!(ID_BYTES[31], 0xe1);
    assert_eq!(ID_BYTES.len(), 32);
}

#[test]
fn an_address_keeps_its_bytes() {
    let mut bytes = [0u8; 32];
    for (i, b) in bytes.iter_mut().enumerate() {
        *b = (i * 8) as u8;
    }
    assert_eq!(Address::new_from_array(bytes).to_bytes(), bytes);
    assert_eq!(Address::new_from_array([255u8; 32]).to_bytes(), [255u8; 32]);
}

#[test]
fn addresses_are_equal_when_their_bytes_are() {
    let a = Address::new_from_array([3u8; 32]);
    let b = Address::new_from_array([3u8; 32]);
    assert_eq!(a, b);
    let mut bytes = [3u8; 32];
    bytes[31] = 4;
    assert_ne!(a, Address::new_from_array(bytes));
    let mut bytes = [3u8; 32];
    bytes[0] = 4;
    assert_ne!(a, Address::new_from_array(bytes));
    let copy = a;
    assert_eq!(copy, a);
}

#[test]
fn to_text_is_the_text_of_the_outside_type() {
    let all = [[0u8; 32], [1u8; 32], [255u8; 32], ID_BYTES];
    for bytes in all {
        let expected = format!("{}", Pubkey::new_from_array(bytes));
        assert_eq!(Address::new_from_array(bytes).to_text(), expected);
    }
}

#[test]
fn to_text_of_known_addresses() {
    assert_eq!(
        Address::new_from_array([0u8; 32]).to_text(),
        "11111111111111111111111111111111"
    );
    assert_eq!(
        Address::new_from_array([255u8; 32]).to_text(),
        "JEKNVnkbo3jma5nREBBJCDoXFVeKkD56V3xKrvRmWxFG"
    );
    let mut one = [0u8; 32];
    one[31] = 1;
    assert_eq!(
        Address::new_from_array(one).to_text(),
        "11111111111111111111111111111112"
    );
}

#[test]
fn text_parsed_by_the_outside_type_comes_back() {
    let texts = [
        ID_TEXT,
        "11111111111111111111111111111111",
        "Fg6PaFpoGXkYsidMpWTK6W2BeZ7FEfcYkg476zPFsLnS",
    ];
    for text in texts {
        let bytes = Pubkey::from_str_const(text).to_bytes();
        assert_eq!(Address::new_from_array(bytes).to_text(), text);
    }
}
