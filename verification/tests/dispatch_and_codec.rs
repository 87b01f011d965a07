use solclient::codec::decode_counter;
use solclient::codec::decode_mint;
use solclient::codec::encode_counter;
use solclient::codec::encode_mint;
use solclient::codec::Counter;
use solclient::codec::SolMint;
use solclient::dispatch::discriminator;
use solclient::errors::DecodeError;
use solclient::errors::ValidationError;
use solclient::ident::Identifier;
use sha2::Digest;
use spl_token::solana_program::program_option::COption;
use spl_token::solana_program::program_pack::Pack;
use spl_token::solana_program::pubkey::Pubkey;

fn ident(byte: u8) -> Identifier {
    Identifier::from_bytes(vec![byte; 32]).unwrap()
}

#[test]
fn discriminator_matches_golden_values() {
    // SHA-256 of "global:increment" truncated to 8 bytes.
    let inc = discriminator("increment").unwrap();
    assert_eq!(inc, vec![11u8, 18, 104, 9, 104, 174, 59, 33]);
    let dec = discriminator("decrement").unwrap();
    assert_eq!(dec, vec![106u8, 227, 168, 59, 248, 27, 150, 101]);
    let init = discriminator("initialize").unwrap();
    assert_eq!(init, vec![175u8, 175, 109, 31, 13, 152, 155, 237]);
}

#[test]
fn discriminator_is_deterministic_and_eight_bytes() {
    let a = discriminator("increment").unwrap();
    let b = discriminator("increment").unwrap();
    assert_eq!(a, b);
    assert_eq!(a.len(), 8);
    assert_ne!(discriminator("increment").unwrap(), discriminator("decrement").unwrap());
}

#[test]
fn discriminator_agrees_with_direct_hash() {
    let mut hasher = sha2::Sha256::new();
    hasher.update(b"global:mint_tokens");
    let digest = hasher.finalize();
    let got = discriminator("mint_tokens").unwrap();
    assert_eq!(got.as_slice(), &digest[..8]);
}

#[test]
fn discriminator_rejects_empty_name() {
    assert_eq!(discriminator(""), Err(ValidationError::EmptyMethodName));
}

#[test]
fn counter_round_trips_through_bytes() {
    let frame: Vec<u8> = vec![9, 8, 7, 6, 5, 4, 3, 2];
    let c = Counter { count: 123456789012345 };
    let bytes = encode_counter(&frame, &c);
    assert_eq!(bytes.len(), 16);
    let back = decode_counter(&bytes).unwrap();
    assert_eq!(back, c);
}

#[test]
fn counter_truncated_below_schema_size() {
    let frame: Vec<u8> = vec![0; 8];
    let c = Counter { count: 7 };
    let mut bytes = encode_counter(&frame, &c);
    bytes.pop();
    assert_eq!(decode_counter(&bytes), Err(DecodeError::Truncated));
}

#[test]
fn counter_trailing_bytes_are_malformed() {
    let frame: Vec<u8> = vec![0; 8];
    let c = Counter { count: 7 };
    let mut bytes = encode_counter(&frame, &c);
    bytes.push(0);
    assert_eq!(decode_counter(&bytes), Err(DecodeError::Malformed));
}

#[test]
fn counter_exact_little_endian_layout() {
    let frame: Vec<u8> = vec![1, 2, 3, 4, 5, 6, 7, 8];
    let bytes = encode_counter(&frame, &Counter { count: 0x0102030405060708 });
    assert_eq!(
        bytes,
        vec![1, 2, 3, 4, 5, 6, 7, 8, 0x08, 0x07, 0x06, 0x05, 0x04, 0x03, 0x02, 0x01]
    );
}

#[test]
fn mint_round_trips_through_bytes() {
    let m = SolMint {
        mint_authority: Some(ident(0xAA)),
        supply: 1_000_000_000,
        decimals: 9,
        is_initialized: true,
        freeze_authority: None,
    };
    let bytes = encode_mint(&m);
    assert_eq!(bytes.len(), 82);
    let back = decode_mint(&bytes).unwrap();
    assert_eq!(back.mint_authority.as_ref().map(|a| a.bytes.clone()), Some(vec![0xAA; 32]));
    assert_eq!(back.supply, 1_000_000_000);
    assert_eq!(back.decimals, 9);
    assert!(back.is_initialized);
    assert!(back.freeze_authority.is_none());
}

#[test]
fn mint_decoding_matches_outside_packing() {
    let authority = Pubkey::new_from_array([0x11; 32]);
    let freeze = Pubkey::new_from_array([0x22; 32]);
    let mint = spl_token::state::Mint {
        mint_authority: COption::Some(authority),
        supply: 42_424_242,
        decimals: 6,
        is_initialized: true,
        freeze_authority: COption::Some(freeze),
    };
    let mut packed = vec![0u8; spl_token::state::Mint::LEN];
    mint.pack_into_slice(&mut packed);
    let decoded = decode_mint(&packed).unwrap();
    assert_eq!(decoded.mint_authority.unwrap().bytes, vec![0x11; 32]);
    assert_eq!(decoded.supply, 42_424_242);
    assert_eq!(decoded.decimals, 6);
    assert!(decoded.is_initialized);
    assert_eq!(decoded.freeze_authority.unwrap().bytes, vec![0x22; 32]);
}

#[test]
fn mint_truncated_and_malformed() {
    let m = SolMint {
        mint_authority: None,
        supply: 5,
        decimals: 0,
        is_initialized: false,
        freeze_authority: None,
    };
    let mut bytes = encode_mint(&m);
    let mut short = bytes.clone();
    short.pop();
    assert_eq!(decode_mint(&short).unwrap_err(), DecodeError::Truncated);
    let mut long = bytes.clone();
    long.push(0);
    assert_eq!(decode_mint(&long).unwrap_err(), DecodeError::Malformed);
    bytes[0] = 2; // an authority tag must be 0 or 1
    assert_eq!(decode_mint(&bytes).unwrap_err(), DecodeError::Malformed);
}

#[test]
fn mint_bad_initialized_byte_is_malformed() {
    let m = SolMint {
        mint_authority: None,
        supply: 5,
        decimals: 0,
        is_initialized: false,
        freeze_authority: None,
    };
    let mut bytes = encode_mint(&m);
    bytes[45] = 7;
    assert_eq!(decode_mint(&bytes).unwrap_err(), DecodeError::Malformed);
}

#[test]
fn identifier_rejects_wrong_length() {
    assert_eq!(
        Identifier::from_bytes(vec![0; 31]).unwrap_err(),
        ValidationError::BadIdentifierLength
    );
    assert!(Identifier::from_bytes(vec![0; 32]).is_ok());
}
