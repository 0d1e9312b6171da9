use ruuid::uuid_generate;
use ruuid::uuid_generate_random;
use ruuid::uuid_generate_time;
use ruuid::uuid_generate_time_safe;
use ruuid::uuid_parse;
use ruuid::uuid_t;
use ruuid::uuid_unparse;
use ruuid::uuid_unparse_lower;
use ruuid::uuid_unparse_upper;
use ruuid::r_uuid_t;
use ruuid::Uuid;

const EXAMPLE_BYTES: [u8; 16] = [
    0x55, 0x0e, 0x84, 0x00, 0xe2, 0x9b, 0x41, 0xd4, 0xa7, 0x16, 0x44, 0x66, 0x55, 0x44, 0x00,
    0x00,
];
const EXAMPLE_TEXT: &str = "550e8400-e29b-41d4-a716-446655440000";

#[test]
fn uniqueness_repeated_sampling() {
    for _ in 0..64 {
        assert!(uuid_generate() != uuid_generate());
        assert!(uuid_generate_random() != uuid_generate_random());
        assert!(uuid_generate_time() != uuid_generate_time());
    }
}

#[test]
fn clone_equivalence() {
    let u = uuid_generate_random();
    let snapshot = Uuid::from_bytes(u.into_bytes());
    let mut c = u.clone();
    assert!(u == c);
    // Mutating the clone's backing storage never changes the original.
    c.0[0] ^= 0xff;
    assert!(u != c);
    assert!(u == snapshot);
    // Overwriting in place copies the source byte for byte.
    c.clone_from(&u);
    assert!(u == c);
}

#[test]
fn round_trip_all_generators() {
    let mut values = vec![
        uuid_generate(),
        uuid_generate_random(),
        uuid_generate_time(),
        uuid_generate_time_safe().0,
        Uuid::from_bytes(EXAMPLE_BYTES),
        Uuid::default(),
    ];
    for u in values.drain(..) {
        assert_eq!(uuid_parse(uuid_unparse(u).as_str()), Some(u));
        assert_eq!(uuid_parse(uuid_unparse_lower(u).as_str()), Some(u));
        assert_eq!(uuid_parse(uuid_unparse_upper(u).as_str()), Some(u));
    }
}

#[test]
fn case_invariance() {
    let u = uuid_generate_random();
    let lower = uuid_unparse_lower(u);
    let upper = uuid_unparse_upper(u);
    assert_eq!(upper.to_lowercase(), lower);
    assert_eq!(lower.to_lowercase(), lower);
    // Hyphens sit at the fixed positions in both renderings.
    for s in [&lower, &upper] {
        assert_eq!(s.len(), 36);
        for (i, c) in s.chars().enumerate() {
            if i == 8 || i == 13 || i == 18 || i == 23 {
                assert_eq!(c, '-');
            } else {
                assert!(c.is_ascii_hexdigit());
            }
        }
    }
}

#[test]
fn malformed_input_rejection() {
    assert_eq!(uuid_parse(""), None);
    assert_eq!(uuid_parse("not-a-uuid"), None);
    assert_eq!(uuid_parse("123"), None);
    // Invalid hex character at the last position.
    assert_eq!(uuid_parse("550e8400-e29b-41d4-a716-44665544000g"), None);
    // Hyphens out of place.
    assert_eq!(uuid_parse("550e8400e-29b-41d4-a716-446655440000"), None);
    // Right length, an embedded null byte in a digit position.
    assert_eq!(uuid_parse("550e8400-e29b-41d4-a716-4466554400\u{0}0"), None);
    // One character short / long.
    assert_eq!(uuid_parse("550e8400-e29b-41d4-a716-44665544000"), None);
    assert_eq!(uuid_parse("550e8400-e29b-41d4-a716-4466554400000"), None);
    // Non-ASCII content of the right character count.
    assert_eq!(uuid_parse("550e8400-e29b-41d4-a716-44665544000ä"), None);
}

#[test]
fn default_sentinel() {
    let nil = Uuid::default();
    assert_eq!(nil, Uuid::default());
    assert_eq!(nil.into_bytes(), [0u8; 16]);
    assert!(nil != uuid_generate_random());
    // Malformed input is surfaced as an absent value, never as the nil UUID.
    assert_eq!(uuid_parse("not-a-uuid"), None);
}

#[test]
fn concrete_example() {
    let parsed = uuid_parse(EXAMPLE_TEXT).unwrap();
    assert_eq!(parsed, Uuid::from_bytes(EXAMPLE_BYTES));
    let rendered = uuid_unparse(parsed);
    assert_eq!(rendered.to_lowercase(), EXAMPLE_TEXT.to_lowercase());
}

#[test]
fn exact_renderings() {
    let u = Uuid::from_bytes(EXAMPLE_BYTES);
    assert_eq!(uuid_unparse(u), "550e8400-e29b-41d4-a716-446655440000");
    assert_eq!(uuid_unparse_lower(u), "550e8400-e29b-41d4-a716-446655440000");
    assert_eq!(uuid_unparse_upper(u), "550E8400-E29B-41D4-A716-446655440000");
    assert_eq!(u.debug_format(), "Uuid(550e8400e29b41d4a716446655440000)");
}

#[test]
fn generated_layout_bits() {
    // The random algorithm marks version 4 and the RFC 4122 variant.
    let r = uuid_generate_random().into_bytes();
    assert_eq!(r[6] & 0xf0, 0x40);
    assert_eq!(r[8] & 0xc0, 0x80);
    // The time-based algorithm marks version 1, the variant, and a
    // multicast-bit node identifier.
    let t = uuid_generate_time().into_bytes();
    assert_eq!(t[6] & 0xf0, 0x10);
    assert_eq!(t[8] & 0xc0, 0x80);
    assert_eq!(t[10] & 0x01, 0x01);
    // The safety-checked variant never claims the uniqueness guarantee
    // under this binding, and still returns a structurally valid value.
    let (s, safe) = uuid_generate_time_safe();
    assert!(!safe);
    assert_eq!(s.into_bytes()[6] & 0xf0, 0x10);
}

#[test]
fn zeroed_buffers() {
    assert_eq!(uuid_t(), [0u8; 16]);
    assert_eq!(r_uuid_t(), [0u8; 37]);
}
