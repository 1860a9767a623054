use forest_sdk::cid::{decode_cid, generate_cid, hex_encode, validate_cid};

fn sample_json() -> Vec<u8> {
    let mut map = serde_json::Map::new();
    map.insert("name".to_string(), serde_json::Value::from("test"));
    map.insert("value".to_string(), serde_json::Value::from(42));
    serde_json::to_vec(&serde_json::Value::Object(map)).unwrap()
}

#[test]
fn test_generate_cid() {
    let cid = generate_cid(&sample_json()).unwrap();
    assert!(!cid.is_empty());
    assert!(cid.starts_with("bafy"));
}

#[test]
fn test_validate_cid() {
    let cid_str = generate_cid(&sample_json()).unwrap();
    let cid = validate_cid(&cid_str).unwrap();
    assert_eq!(u64::from(cid.version()), 1);
    assert_eq!(cid.codec(), 0x71);
}

#[test]
fn test_decode_cid() {
    let cid_str = generate_cid(&sample_json()).unwrap();
    let components = decode_cid(&cid_str).unwrap();

    assert_eq!(components.version, 1);
    assert_eq!(components.codec, 0x71);
    assert!(!components.hash.is_empty());
    assert!(!components.multibase.is_empty());
}

#[test]
fn cid_hash_is_sha256_multihash_in_hex() {
    let components = decode_cid(&generate_cid(&sample_json()).unwrap()).unwrap();
    assert!(components.hash.starts_with("1220"));
    assert_eq!(components.hash.len(), 68);
    assert!(components.multibase.starts_with('z'));
}

#[test]
fn invalid_cid_is_rejected() {
    assert!(validate_cid("not a cid").is_err());
    assert!(decode_cid("").is_err());
}

#[test]
fn hex_is_lowercase_two_digits_per_byte() {
    assert_eq!(hex_encode(&[0x00, 0x0f, 0xab, 0xff]), "000fabff");
    assert_eq!(hex_encode(&[]), "");
}

#[test]
fn generated_cid_is_the_dag_cbor_sha256_identifier() {
    assert_eq!(
        generate_cid(&sample_json()).unwrap(),
        "bafyreie2gbf6qkitjw7gw3gmktt6pdtobndxysfhlohdaqrytw6wcylvne"
    );
    assert_ne!(generate_cid(b"{}").unwrap(), generate_cid(&sample_json()).unwrap());
}
