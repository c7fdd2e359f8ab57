use bank_core::ident::Uuid;

#[test]
fn identifier_text_is_hyphenated_lower_case() {
    let id = Uuid::from_u128(0x550E8400E29B41D4A716446655440000);
    assert_eq!(id.to_text(), "550e8400-e29b-41d4-a716-446655440000");
    assert_eq!(Uuid::from_u128(0).to_text(), "00000000-0000-0000-0000-000000000000");
    assert_eq!(Uuid::from_u128(u128::MAX).to_text(), "ffffffff-ffff-ffff-ffff-ffffffffffff");
    assert_eq!(
        Uuid::from_u128(0x0123456789abcdef0123456789abcdef).to_text(),
        "01234567-89ab-cdef-0123-456789abcdef"
    );
}

#[test]
fn identifier_reads_back_from_its_text() {
    for value in [0u128, 1, 42, 0x550e8400e29b41d4a716446655440000, u128::MAX] {
        let id = Uuid::from_u128(value);
        assert_eq!(Uuid::try_parse(&id.to_text()), Some(id));
        assert_eq!(id.as_u128(), value);
    }
}

#[test]
fn identifier_is_read_from_other_forms_too() {
    let id = Uuid::from_u128(0x550e8400e29b41d4a716446655440000);
    assert_eq!(Uuid::try_parse("550E8400-E29B-41D4-A716-446655440000"), Some(id));
    assert_eq!(Uuid::try_parse("550e8400e29b41d4a716446655440000"), Some(id));
    assert_eq!(Uuid::try_parse("{550e8400-e29b-41d4-a716-446655440000}"), Some(id));
    assert_eq!(Uuid::try_parse("urn:uuid:550e8400-e29b-41d4-a716-446655440000"), Some(id));
}

#[test]
fn text_that_is_no_identifier_is_refused() {
    assert_eq!(Uuid::try_parse(""), None);
    assert_eq!(Uuid::try_parse("alice"), None);
    assert_eq!(Uuid::try_parse("550e8400-e29b-41d4-a716-44665544000"), None);
    assert_eq!(Uuid::try_parse("550e8400-e29b-41d4-a716-44665544000g"), None);
    assert_eq!(Uuid::try_parse(" 550e8400-e29b-41d4-a716-446655440000"), None);
}

#[test]
fn fresh_identifiers_differ() {
    let a = Uuid::new_v4();
    let b = Uuid::new_v4();
    assert_ne!(a, b);
    let c = Uuid::now_v7().unwrap();
    let d = Uuid::now_v7().unwrap();
    assert_ne!(c, d);
    assert_eq!((a.as_u128() >> 76) & 0xf, 4);
    assert_eq!((c.as_u128() >> 76) & 0xf, 7);
}

#[test]
fn time_ordered_identifier_starts_with_the_time_of_its_making() {
    let before = bank_core::clock::fetch_unix_time().unwrap() * 1000;
    let id = Uuid::now_v7().unwrap();
    let after = (bank_core::clock::fetch_unix_time().unwrap() + 1) * 1000;
    let millis = id.as_u128() >> 80;
    assert!(before <= millis);
    assert!(millis <= after);
}

#[test]
fn random_identifier_declares_version_four_in_the_standard_layout() {
    for _ in 0..64 {
        let id = Uuid::new_v4().as_u128();
        assert_eq!((id >> 76) & 0xf, 4);
        assert!((8..=11).contains(&((id >> 60) & 0xf)));
        let text = Uuid::from_u128(id).to_text();
        assert_eq!(text.as_bytes()[14], b'4');
        assert!(b"89ab".contains(&text.as_bytes()[19]));
    }
}

#[test]
fn identifier_for_a_time_leads_with_its_milliseconds() {
    let id = Uuid::new_v7(1_497_624_119, 1234);
    assert!(id.to_text().starts_with("015cb15a-86d8-7"));
    assert_eq!(id.as_u128() >> 80, 1_497_624_119_000);
    assert_eq!((id.as_u128() >> 76) & 0xf, 7);
    assert!((8..=11).contains(&((id.as_u128() >> 60) & 0xf)));
    let id = Uuid::new_v7(1_497_624_119, 999_999_999);
    assert_eq!(id.as_u128() >> 80, 1_497_624_119_999);
    let id = Uuid::new_v7(0, 0);
    assert_eq!(id.as_u128() >> 80, 0);
    assert_eq!((id.as_u128() >> 76) & 0xf, 7);
    let id = Uuid::new_v7(1, u32::MAX);
    assert_eq!(id.as_u128() >> 80, 1000 + 4294);
}

#[test]
fn identifier_for_a_time_beyond_counting_leads_with_the_low_bits_of_the_greatest_count() {
    let id = Uuid::new_v7(u64::MAX, 999_999_999);
    assert_eq!(id.as_u128() >> 80, 0xffff_ffff_ffff);
    assert_eq!((id.as_u128() >> 76) & 0xf, 7);
    let id = Uuid::new_v7(u64::MAX / 1000, 999_999_999);
    assert_eq!(id.as_u128() >> 80, 0xffff_ffff_ffff);
    let id = Uuid::new_v7(u64::MAX / 1000, 615_999_999);
    assert_eq!(id.as_u128() >> 80, 0xffff_ffff_ffff);
    let id = Uuid::new_v7(u64::MAX / 1000, 614_999_999);
    assert_eq!(id.as_u128() >> 80, 0xffff_ffff_fffe);
    let id = Uuid::new_v7(u64::MAX / 1000, 0);
    assert_eq!(id.as_u128() >> 80, ((u64::MAX / 1000 * 1000) as u128) & 0xffff_ffff_ffff);
    let id = Uuid::new_v7(u64::MAX / 1000 + 1, 0);
    assert_eq!(id.as_u128() >> 80, 0xffff_ffff_ffff);
    let id = Uuid::new_v7(1 << 48, 0);
    assert_eq!(id.as_u128() >> 80, (((1u128 << 48) * 1000) & 0xffff_ffff_ffff));
}

#[test]
fn identifier_of_a_later_millisecond_is_the_greater() {
    for _ in 0..32 {
        let earlier = Uuid::new_v7(100, 0);
        let later = Uuid::new_v7(100, 1_000_000);
        let much_later = Uuid::new_v7(101, 0);
        assert!(earlier.as_u128() < later.as_u128());
        assert!(later.as_u128() < much_later.as_u128());
    }
}

#[test]
fn identifier_by_the_clock_is_of_version_seven() {
    let id = Uuid::now_v7().unwrap().as_u128();
    assert_eq!((id >> 76) & 0xf, 7);
    assert!((8..=11).contains(&((id >> 60) & 0xf)));
}

#[test]
fn identifiers_by_the_clock_sort_in_the_order_of_their_making() {
    let mut last = Uuid::now_v7().unwrap().as_u128();
    for _ in 0..2000 {
        let next = Uuid::now_v7().unwrap().as_u128();
        assert!(last < next);
        last = next;
    }
}
