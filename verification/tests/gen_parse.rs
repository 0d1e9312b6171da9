use ruuid::uuid_generate;
use ruuid::uuid_generate_random;
use ruuid::uuid_generate_time;
use ruuid::uuid_generate_time_safe;
use ruuid::uuid_parse;
use ruuid::uuid_unparse;
use ruuid::uuid_unparse_lower;
use ruuid::uuid_unparse_upper;

#[test]
fn test_gen() {
    let uuid1 = uuid_generate();
    let uuid2 = uuid_generate();
    assert!(uuid1 != uuid2);

    let uuid3 = uuid1.clone();
    assert_eq!(uuid1, uuid3);

    let uuid4 = uuid_generate_random();
    assert!(uuid4 != uuid1);

    let uuid5 = uuid_generate_time();
    assert!(uuid5 != uuid4);

    let (uuid6, _) = uuid_generate_time_safe();
    assert!(uuid6 != uuid4);
}

#[test]
fn test_parse() {
    let uuid = uuid_generate();
    let u1 = uuid_unparse(uuid);
    assert_eq!(uuid_parse(u1.as_str()).unwrap(), uuid);

    let u2 = uuid_unparse_lower(uuid);
    assert_eq!(uuid_parse(u2.as_str()).unwrap(), uuid);
    let u1_copy = u1.clone();
    assert_eq!(u1_copy.to_lowercase(), u2.to_lowercase());

    let u3 = uuid_unparse_upper(uuid);
    assert_eq!(uuid_parse(u3.as_str()).unwrap(), uuid);
    assert_eq!(u1.to_lowercase(), u3.to_lowercase());
}
