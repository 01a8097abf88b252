use phs_backend::sessions::id::{Id, IdParseError};
use phs_backend::sessions::store::store_key;

#[test]
fn text_of_zero_is_22_letters() {
    let text = Id::new(0).to_string();
    assert_eq!(text, "AAAAAAAAAAAAAAAAAAAAAA");
    assert_eq!(text.len(), 22);
}

#[test]
fn text_is_little_endian_base64() {
    assert_eq!(Id::new(1).to_string(), "AQAAAAAAAAAAAAAAAAAAAA");
    assert_eq!(Id::new(-1).to_string(), "_____________________w");
    assert_eq!(Id::new(12345678901234567890).to_string(), "0gof64ypVKsAAAAAAAAAAA");
}

#[test]
fn parse_reads_what_to_string_wrote() {
    for value in [0i128, 1, -1, 42, i128::MAX, i128::MIN, 12345678901234567890, -987654321] {
        let id = Id::new(value);
        assert!(Id::parse(&id.to_string()) == Ok(id));
    }
}

#[test]
fn parse_known_text() {
    assert!(Id::parse("AQAAAAAAAAAAAAAAAAAAAA") == Ok(Id::new(1)));
    assert!(Id::parse("_____________________w") == Ok(Id::new(-1)));
}

#[test]
fn from_str_is_parse() {
    let parsed: Result<Id, IdParseError> = "AQAAAAAAAAAAAAAAAAAAAA".parse();
    assert!(parsed == Ok(Id::new(1)));
    let refused: Result<Id, IdParseError> = "nope".parse();
    assert!(refused.is_err());
}

#[test]
fn parse_refuses_short_text() {
    assert!(Id::parse("") == Err(IdParseError::InvalidLength(0)));
    assert!(Id::parse("AA") == Err(IdParseError::InvalidLength(1)));
    assert!(Id::parse("AAAAAAAAAAAAAAAAAAAA") == Err(IdParseError::InvalidLength(15)));
}

#[test]
fn parse_refuses_long_text() {
    assert!(Id::parse("AAAAAAAAAAAAAAAAAAAAAAAA") == Err(IdParseError::Malformed));
    assert!(Id::parse("AAAAAAAAAAAAAAAAAAAAAAA") == Err(IdParseError::Malformed));
}

#[test]
fn parse_refuses_what_is_not_base64() {
    assert!(Id::parse("!!!!!!!!!!!!!!!!!!!!!!") == Err(IdParseError::Malformed));
    assert!(Id::parse("AAAAAAAAAAAAAAAAAAAA+/") == Err(IdParseError::Malformed));
    assert!(Id::parse("AAAAAAAAAAAAAAAAAAAAAA==") == Err(IdParseError::Malformed));
    assert!(Id::parse("AAAAAAAAAAAAAAAAAAAAAB") == Err(IdParseError::Malformed));
    assert!(Id::parse("héllo") == Err(IdParseError::Malformed));
}

#[test]
fn hashed_id_is_sha256_in_hex() {
    assert_eq!(
        Id::new(0).hashed_id(),
        "8a5bdb4cc15164126c6ef2668de9dd240d299ce6397a42c95a9411b93d080ed8"
    );
    assert_eq!(
        Id::new(1).hashed_id(),
        "c20b382edd27f8925fb2f53d12130212163e38651dd7fc2583d1a9db30f41176"
    );
    assert_eq!(
        Id::new(-1).hashed_id(),
        "f055fbb78d51e39defb88d8b20b4a09c062521bd773160dfc23e9bf3fbaba0eb"
    );
}

#[test]
fn store_key_is_prefixed_hash() {
    assert_eq!(
        store_key(&Id::new(0)),
        "sessions:8a5bdb4cc15164126c6ef2668de9dd240d299ce6397a42c95a9411b93d080ed8"
    );
}

#[test]
fn store_key_is_never_the_text() {
    for value in [0i128, 1, -1, 77, i128::MAX] {
        let id = Id::new(value);
        let key = store_key(&id);
        assert_ne!(key, id.to_string());
        assert_ne!(id.hashed_id(), id.to_string());
        assert!(!key.contains(&id.to_string()));
    }
}

#[test]
fn from_str_gives_the_errors_of_parse() {
    assert!("AA".parse::<Id>() == Err(IdParseError::InvalidLength(1)));
    assert!("".parse::<Id>() == Err(IdParseError::InvalidLength(0)));
    assert!("AAAAAAAAAAAAAAAAAAAAAAAA".parse::<Id>() == Err(IdParseError::Malformed));
    assert!("_____________________w".parse::<Id>() == Ok(Id::new(-1)));
}

#[test]
fn identifier_of_its_bytes() {
    let mut one = [0u8; 16];
    one[0] = 1;
    assert!(Id::from_le_bytes(&one) == Id::new(1));
    let mut high = [0u8; 16];
    high[15] = 0x80;
    assert!(Id::from_le_bytes(&high) == Id::new(i128::MIN));
    assert!(Id::from_le_bytes(&[0xff; 16]) == Id::new(-1));
    assert!(Id::from_le_bytes(&[0; 16]) == Id::new(0));
    let bytes = [1, 2, 3, 4, 5, 6, 7, 8, 9, 10, 11, 12, 13, 14, 15, 16];
    assert!(Id::from_le_bytes(&bytes) == Id::new(i128::from_le_bytes(bytes)));
}
