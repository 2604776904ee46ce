use frontend_server::ids::{CollectionUuid, DatabaseUuid, ValidationError};

const NUMBER: u128 = 0x550e8400_e29b_41d4_a716_446655440000;

#[test]
fn hyphenated_id_is_read() {
    let id = CollectionUuid::from_str("550e8400-e29b-41d4-a716-446655440000");
    assert_eq!(id, Ok(CollectionUuid(NUMBER)));
}

#[test]
fn spellings_of_an_id_agree() {
    for text in [
        "550e8400e29b41d4a716446655440000",
        "550E8400E29B41D4A716446655440000",
        "550e8400-E29B-41d4-A716-446655440000",
        "{550e8400-e29b-41d4-a716-446655440000}",
        "urn:uuid:550e8400-e29b-41d4-a716-446655440000",
        "URN:Uuid:550e8400-e29b-41d4-a716-446655440000",
    ] {
        assert_eq!(CollectionUuid::from_str(text), Ok(CollectionUuid(NUMBER)), "{text}");
    }
}

#[test]
fn first_digit_counts_most() {
    assert_eq!(
        CollectionUuid::from_str("00000000000000000000000000000001"),
        Ok(CollectionUuid(1))
    );
    assert_eq!(
        CollectionUuid::from_str("10000000-0000-0000-0000-000000000000"),
        Ok(CollectionUuid(1 << 124))
    );
    assert_eq!(
        CollectionUuid::from_str("ffffffff-ffff-ffff-ffff-ffffffffffff"),
        Ok(CollectionUuid(u128::MAX))
    );
}

#[test]
fn other_texts_are_refused() {
    for text in [
        "",
        "my-collection",
        "550e8400e29b41d4a71644665544000",
        "550e8400e29b41d4a7164466554400000",
        "550e8400e29b41d4a71644665544000g",
        "550e8400-e29b-41d4-a716-44665544000 ",
        "550e8400e-29b-41d4-a716-446655440000",
        "550e8400_e29b_41d4_a716_446655440000",
        "{550e8400e29b41d4a716446655440000}",
        "(550e8400-e29b-41d4-a716-446655440000)",
        "{550e8400-e29b-41d4-a716-446655440000",
        "urn:guid:550e8400-e29b-41d4-a716-446655440000",
        "550e8400-e29b-41d4-a716-4466554400\u{e9}",
        "550e8400e29b41d4a7164466554400\u{e9}",
        "\u{661}50e8400e29b41d4a716446655440000",
        "{550e8400-e29b-41d4-a716-4466554400\u{e9}}",
        "urn:uuid:550e8400-e29b-41d4-a716-4466554400\u{e9}",
    ] {
        assert_eq!(
            CollectionUuid::from_str(text),
            Err(ValidationError::CollectionId),
            "{text}"
        );
    }
}

#[test]
fn fresh_database_ids_are_random_uuids() {
    let first = DatabaseUuid::new_v4();
    let second = DatabaseUuid::new_v4();
    assert_ne!(first, second);
    for id in [first, second] {
        assert_eq!((id.0 >> 76) & 0xf, 4);
        assert_eq!((id.0 >> 62) & 0x3, 2);
    }
}
