use pump_sniper::instruction::{
    parse_instruction_data, BuyInstruction, CreateEventInstruction, DecodeError,
    DecodedInstruction, Field, BUY_EVENT_DISCRIMINATOR, CREATE_EVENT_DISCRIMINATOR,
};

fn string_bytes(text: &str) -> Vec<u8> {
    let mut out = (text.len() as u32).to_le_bytes().to_vec();
    out.extend_from_slice(text.as_bytes());
    out
}

fn create_payload(head: &[u8; 8], name: &str, symbol: &str, uri: &str, after: &[u8]) -> Vec<u8> {
    let mut out = head.to_vec();
    out.extend(string_bytes(name));
    out.extend(string_bytes(symbol));
    out.extend(string_bytes(uri));
    out.extend_from_slice(after);
    out
}

fn created(name: &str, symbol: &str, uri: &str, user: [u8; 32]) -> DecodedInstruction {
    DecodedInstruction::Created(CreateEventInstruction {
        name: name.to_string(),
        symbol: symbol.to_string(),
        uri: uri.to_string(),
        user,
    })
}

#[test]
fn payloads_shorter_than_a_discriminator_are_too_short() {
    for len in 0..8usize {
        let data = vec![0x18u8; len];
        assert_eq!(parse_instruction_data(&data), Err(DecodeError::TooShort));
    }
}

#[test]
fn exact_create_layout_without_room_for_a_key_has_the_zero_key() {
    let data = create_payload(&CREATE_EVENT_DISCRIMINATOR, "abc", "XY", "http", &[]);
    assert_eq!(data.len(), 8 + 12 + 9);
    assert_eq!(parse_instruction_data(&data), Ok(created("abc", "XY", "http", [0u8; 32])));
}

#[test]
fn exact_create_layout_takes_the_key_from_the_last_thirty_two_bytes() {
    let uri = "https://example.org/a-long-enough-uri/metadata.json";
    let data = create_payload(&CREATE_EVENT_DISCRIMINATOR, "Token", "TKN", uri, &[]);
    let mut user = [0u8; 32];
    user.copy_from_slice(&data[data.len() - 32..]);
    assert_eq!(parse_instruction_data(&data), Ok(created("Token", "TKN", uri, user)));
}

#[test]
fn create_with_a_key_after_the_uri_takes_that_key() {
    let mut after = Vec::new();
    for i in 0..32u8 {
        after.push(i + 1);
    }
    let data = create_payload(&CREATE_EVENT_DISCRIMINATOR, "Token", "TKN", "u", &after);
    let mut user = [0u8; 32];
    user.copy_from_slice(&after);
    assert_eq!(parse_instruction_data(&data), Ok(created("Token", "TKN", "u", user)));
}

#[test]
fn create_with_more_than_a_key_after_the_uri_takes_the_first_thirty_two_bytes() {
    let mut after = Vec::new();
    for i in 0..40u8 {
        after.push(i + 1);
    }
    let data = create_payload(&CREATE_EVENT_DISCRIMINATOR, "Token", "TKN", "u", &after);
    let mut user = [0u8; 32];
    user.copy_from_slice(&after[..32]);
    assert_eq!(parse_instruction_data(&data), Ok(created("Token", "TKN", "u", user)));
}

#[test]
fn create_with_a_partial_key_after_the_uri_is_insufficient() {
    let data = create_payload(&CREATE_EVENT_DISCRIMINATOR, "Token", "TKN", "u", &[7u8; 31]);
    assert_eq!(
        parse_instruction_data(&data),
        Err(DecodeError::InsufficientData(Field::User))
    );
}

#[test]
fn create_with_multibyte_text_round_trips() {
    let data = create_payload(&CREATE_EVENT_DISCRIMINATOR, "caf\u{e9}", "\u{20ac}", "\u{1f680}", &[]);
    assert_eq!(
        parse_instruction_data(&data),
        Ok(created("caf\u{e9}", "\u{20ac}", "\u{1f680}", [0u8; 32]))
    );
}

#[test]
fn create_names_the_field_that_ran_out() {
    let head = CREATE_EVENT_DISCRIMINATOR.to_vec();
    let cases: Vec<(Vec<u8>, Field)> = vec![
        (vec![], Field::NameLength),
        (vec![3, 0, 0], Field::NameLength),
        (vec![3, 0, 0, 0, b'a'], Field::Name),
        (vec![1, 0, 0, 0, b'a'], Field::SymbolLength),
        (vec![1, 0, 0, 0, b'a', 2, 0, 0, 0, b'b'], Field::Symbol),
        (vec![1, 0, 0, 0, b'a', 1, 0, 0, 0, b'b', 9], Field::UriLength),
        (vec![1, 0, 0, 0, b'a', 1, 0, 0, 0, b'b', 5, 0, 0, 0, b'c'], Field::Uri),
        (vec![1, 0, 0, 0, b'a', 1, 0, 0, 0, b'b', 0xff, 0xff, 0xff, 0xff, b'c'], Field::Uri),
    ];
    for (rest, field) in cases {
        let mut data = head.clone();
        data.extend(rest);
        assert_eq!(parse_instruction_data(&data), Err(DecodeError::InsufficientData(field)));
    }
}

#[test]
fn create_with_invalid_utf8_is_a_typed_error() {
    let mut data = CREATE_EVENT_DISCRIMINATOR.to_vec();
    data.extend_from_slice(&[2, 0, 0, 0, 0xff, 0xfe]);
    data.extend(string_bytes("S"));
    data.extend(string_bytes("u"));
    assert_eq!(parse_instruction_data(&data), Err(DecodeError::InvalidUtf8));
    let mut later = CREATE_EVENT_DISCRIMINATOR.to_vec();
    later.extend(string_bytes("N"));
    later.extend(string_bytes("S"));
    later.extend_from_slice(&[1, 0, 0, 0, 0x80]);
    later.extend_from_slice(&[0u8; 32]);
    assert_eq!(parse_instruction_data(&later), Err(DecodeError::InvalidUtf8));
}

#[test]
fn legacy_create_ignores_what_follows_and_has_the_zero_key() {
    let head = [24u8, 1, 2, 3, 4, 5, 6, 7];
    for after in [0usize, 1, 31, 32, 50] {
        let data = create_payload(&head, "Old", "OLD", "uri", &vec![9u8; after]);
        assert_eq!(parse_instruction_data(&data), Ok(created("Old", "OLD", "uri", [0u8; 32])));
    }
}

#[test]
fn exact_create_match_comes_before_the_legacy_match() {
    assert_eq!(CREATE_EVENT_DISCRIMINATOR[0], 24);
    let exact = create_payload(&CREATE_EVENT_DISCRIMINATOR, "a", "b", "c", &[1u8; 5]);
    assert_eq!(
        parse_instruction_data(&exact),
        Err(DecodeError::InsufficientData(Field::User))
    );
    let mut head = CREATE_EVENT_DISCRIMINATOR;
    head[7] ^= 1;
    let loose = create_payload(&head, "a", "b", "c", &[1u8; 5]);
    assert_eq!(parse_instruction_data(&loose), Ok(created("a", "b", "c", [0u8; 32])));
}

#[test]
fn buy_reads_two_little_endian_numbers() {
    let mut data = BUY_EVENT_DISCRIMINATOR.to_vec();
    data.extend_from_slice(&1_000_000u64.to_le_bytes());
    data.extend_from_slice(&750_000_000u64.to_le_bytes());
    let expected =
        DecodedInstruction::Traded(BuyInstruction { amount: 1_000_000, max_sol_cost: 750_000_000 });
    assert_eq!(parse_instruction_data(&data), Ok(expected.clone()));
    data.extend_from_slice(&[1, 2, 3]);
    assert_eq!(parse_instruction_data(&data), Ok(expected));
}

#[test]
fn buy_reads_the_largest_numbers() {
    let mut data = BUY_EVENT_DISCRIMINATOR.to_vec();
    data.extend_from_slice(&u64::MAX.to_le_bytes());
    data.extend_from_slice(&0x0102_0304_0506_0708u64.to_le_bytes());
    data.push(0);
    assert_eq!(
        parse_instruction_data(&data),
        Ok(DecodedInstruction::Traded(BuyInstruction {
            amount: u64::MAX,
            max_sol_cost: 0x0102_0304_0506_0708,
        }))
    );
}

#[test]
fn buy_shorter_than_two_numbers_is_insufficient() {
    for extra in 0..16usize {
        let mut data = BUY_EVENT_DISCRIMINATOR.to_vec();
        data.extend(vec![1u8; extra]);
        assert_eq!(
            parse_instruction_data(&data),
            Err(DecodeError::InsufficientData(Field::BuyArguments))
        );
    }
}

#[test]
fn legacy_buy_has_the_same_layout() {
    let mut data = vec![102u8, 0, 0, 0, 0, 0, 0, 0];
    data.extend_from_slice(&5u64.to_le_bytes());
    data.extend_from_slice(&6u64.to_le_bytes());
    assert_eq!(
        parse_instruction_data(&data),
        Ok(DecodedInstruction::Traded(BuyInstruction { amount: 5, max_sol_cost: 6 }))
    );
    assert_eq!(
        parse_instruction_data(&data[..23]),
        Err(DecodeError::InsufficientData(Field::BuyArguments))
    );
}

#[test]
fn other_discriminators_are_unknown() {
    assert_eq!(
        parse_instruction_data(&[1u8, 2, 3, 4, 5, 6, 7, 8, 9, 10]),
        Err(DecodeError::UnknownInstruction)
    );
    assert_eq!(parse_instruction_data(&[0u8; 8]), Err(DecodeError::UnknownInstruction));
}
