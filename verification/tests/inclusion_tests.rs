use bitcoin_da::client::BitcoinDAClient;
use bitcoin_da::config::{BitcoinConfig, BitcoinSecrets};

fn client() -> BitcoinDAClient {
    BitcoinDAClient::new(
        BitcoinConfig {
            api_node_url: String::from("http://localhost:8370"),
            poda_url: String::from("http://localhost:8000/blob/"),
        },
        BitcoinSecrets {
            rpc_user: String::from("user"),
            rpc_password: String::from("password"),
        },
    )
}

const ID: &str = "00ff10a2b3c4d5e67890aabbccddeeff00112233445566778899aabbccddeeff";

#[test]
fn prefixed_and_bare_ids_are_equivalent() {
    let c = client();
    let bare = c.get_inclusion_data(ID).unwrap().unwrap();
    let prefixed = c.get_inclusion_data(&format!("0x{}", ID)).unwrap().unwrap();
    assert_eq!(bare.data, prefixed.data);
}

#[test]
fn id_decodes_to_its_32_bytes() {
    let c = client();
    let inclusion = c.get_inclusion_data(ID).unwrap().unwrap();
    assert_eq!(inclusion.data.len(), 32);
    assert_eq!(inclusion.data, hex::decode(ID).unwrap());
    assert_eq!(inclusion.data[0], 0x00);
    assert_eq!(inclusion.data[1], 0xff);
    assert_eq!(inclusion.data[2], 0x10);
    assert_eq!(inclusion.data[31], 0xff);
}

#[test]
fn uppercase_hex_is_accepted() {
    let c = client();
    let upper = "00FF10A2B3C4D5E67890AABBCCDDEEFF00112233445566778899AABBCCDDEEFF";
    let inclusion = c.get_inclusion_data(upper).unwrap().unwrap();
    assert_eq!(inclusion.data, hex::decode(upper).unwrap());
}

#[test]
fn short_id_fails_non_retriably() {
    let c = client();
    let err = c.get_inclusion_data("abc").unwrap_err();
    assert!(!err.is_retriable);
    assert_eq!(err.cause, "Invalid blob ID format: expected 32-byte hex string");
}

#[test]
fn sixty_three_and_sixty_five_chars_fail() {
    let c = client();
    assert!(!c.get_inclusion_data(&ID[..63]).unwrap_err().is_retriable);
    let mut long = String::from(ID);
    long.push('0');
    assert!(!c.get_inclusion_data(&long).unwrap_err().is_retriable);
}

#[test]
fn non_hex_character_fails() {
    let c = client();
    let mut bad = String::from(&ID[..63]);
    bad.push('g');
    let err = c.get_inclusion_data(&bad).unwrap_err();
    assert!(!err.is_retriable);
}

#[test]
fn uppercase_prefix_is_not_stripped() {
    let c = client();
    // "0X" is not the recognized prefix, so the id is 66 characters and bad.
    let err = c.get_inclusion_data(&format!("0X{}", ID)).unwrap_err();
    assert!(!err.is_retriable);
}

#[test]
fn prefixed_short_id_fails() {
    let c = client();
    let err = c.get_inclusion_data(&format!("0x{}", &ID[..62])).unwrap_err();
    assert!(!err.is_retriable);
}

#[test]
fn empty_id_fails() {
    let c = client();
    assert!(!c.get_inclusion_data("").unwrap_err().is_retriable);
}
