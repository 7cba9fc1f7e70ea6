use std::hash::{Hash, Hasher};
use wirefilter_engine::{Bytes, WireForm};

fn decode_text(s: &str) -> Bytes<'_> {
    Bytes::from_wire(WireForm::Text(s))
}

#[test]
fn test_bytes_deserialize() {
    let bytes = decode_text("a JSON string with unicode \u{2764}");
    assert_eq!(
        bytes,
        Bytes::from(&b"a JSON string with unicode \xE2\x9D\xA4"[..])
    );

    let bytes = decode_text("a JSON string with escaped-unicode \u{2764}");
    assert_eq!(
        bytes,
        Bytes::from(&b"a JSON string with escaped-unicode \xE2\x9D\xA4"[..])
    );

    let values: Vec<u8> = vec![
        97, 32, 74, 83, 79, 78, 32, 115, 116, 114, 105, 110, 103, 32, 102, 114, 111, 109, 32, 105,
        110, 116, 101, 103, 101, 114, 32, 97, 114, 114, 97, 121,
    ];
    let bytes = Bytes::from_vec(values);
    assert_eq!(bytes, Bytes::from(&b"a JSON string from integer array"[..]));
}

#[test]
fn equality_ignores_representation() {
    let data: &[u8] = b"abc";
    let borrowed = Bytes::from(data);
    let owned = Bytes::from_vec(vec![b'a', b'b', b'c']);
    assert_eq!(borrowed, owned);
    assert_ne!(borrowed, Bytes::from_vec(vec![b'a', b'b']));
    assert_ne!(borrowed, Bytes::from_vec(vec![b'a', b'b', b'd']));
    assert_eq!(Bytes::from_vec(Vec::new()), Bytes::from(&b""[..]));
}

#[test]
fn to_owned_copies_content() {
    let data: &[u8] = b"xyz";
    let borrowed = Bytes::from(data);
    let owned = borrowed.to_owned();
    assert!(owned.is_owned());
    assert!(!borrowed.is_owned());
    assert_eq!(owned.as_slice(), b"xyz");
}

#[test]
fn into_owned_gives_content() {
    let data: &[u8] = b"hello";
    let boxed = Bytes::from(data).into_owned();
    assert_eq!(&*boxed, b"hello");
    let boxed = Bytes::from_vec(vec![1, 2, 3]).into_owned();
    assert_eq!(&*boxed, &[1u8, 2, 3][..]);
}

#[test]
fn to_mut_promotes_and_writes_through() {
    let data: &[u8] = b"abc";
    let mut b = Bytes::from(data);
    {
        let m = b.to_mut();
        m[0] = b'z';
    }
    assert!(b.is_owned());
    assert_eq!(b.as_slice(), b"zbc");
    assert_eq!(data, b"abc");
    {
        let m = b.to_mut();
        assert_eq!(&m[..], b"zbc");
        m[2] = b'q';
    }
    assert!(b.is_owned());
    assert_eq!(b.as_slice(), b"zbq");
}

#[test]
fn truncate_keeps_prefix() {
    let data: &[u8] = b"GET /index.html";
    let mut borrowed = Bytes::from(data);
    borrowed.truncate(3);
    assert!(!borrowed.is_owned());
    assert_eq!(borrowed.as_slice(), b"GET");

    let mut owned = Bytes::from_vec(data.to_vec());
    owned.truncate(3);
    assert!(owned.is_owned());
    assert_eq!(owned.as_slice(), b"GET");

    owned.truncate(0);
    assert!(owned.is_empty());
    let mut whole = Bytes::from(data);
    whole.truncate(data.len());
    assert_eq!(whole.len(), data.len());
}

#[test]
fn wire_form_prefers_text() {
    let data: &[u8] = "caf\u{e9}".as_bytes();
    let b = Bytes::from(data);
    match b.wire_form() {
        WireForm::Text(s) => assert_eq!(s, "caf\u{e9}"),
        WireForm::Raw(_) => panic!("valid UTF-8 must go as text"),
    }
    let invalid: &[u8] = &[0x66, 0xff, 0xfe];
    let b = Bytes::from(invalid);
    match b.wire_form() {
        WireForm::Text(_) => panic!("invalid UTF-8 must go as raw bytes"),
        WireForm::Raw(r) => assert_eq!(r, invalid),
    }
}

#[test]
fn wire_round_trip_any_bytes() {
    let samples: Vec<Vec<u8>> = vec![vec![], b"plain".to_vec(), vec![0xc3, 0x28], vec![0, 255, 128]];
    for s in samples {
        let original = Bytes::from_vec(s.clone());
        let back = Bytes::from_wire(original.wire_form());
        assert_eq!(back, original);
        assert_eq!(back.as_slice(), &s[..]);
    }
}

#[test]
fn text_constructors() {
    let s = String::from("hi\u{2764}");
    let owned = Bytes::from_string(&s);
    assert!(owned.is_owned());
    assert_eq!(owned.as_slice(), "hi\u{2764}".as_bytes());
    let borrowed = Bytes::from_text("hi\u{2764}");
    assert!(!borrowed.is_owned());
    assert_eq!(borrowed, owned);
    let boxed: Box<[u8]> = vec![7u8, 8].into_boxed_slice();
    assert_eq!(Bytes::from(boxed), Bytes::from_vec(vec![7, 8]));
}

fn hash_of(b: &Bytes<'_>) -> u64 {
    let mut h = std::collections::hash_map::DefaultHasher::new();
    b.hash(&mut h);
    h.finish()
}

#[test]
fn equal_values_hash_alike() {
    let borrowed = Bytes::from(&b"key"[..]);
    let owned = Bytes::from_vec(b"key".to_vec());
    assert_eq!(hash_of(&borrowed), hash_of(&owned));
    let mut set = std::collections::HashSet::new();
    set.insert(borrowed);
    assert!(set.contains(&owned));
}

#[test]
fn slice_views_and_comparison() {
    let b = Bytes::from_vec(vec![1, 2, 3]);
    assert_eq!(&*b, &[1u8, 2, 3][..]);
    let r: &[u8] = b.as_ref();
    assert_eq!(r.len(), 3);
    assert!(b == *&[1u8, 2, 3][..]);
    assert!(!(b == *&[1u8, 2][..]));
    let c = b.clone();
    assert!(c.is_owned());
    assert_eq!(c, b);
    let d = Bytes::from(&b"q"[..]).clone();
    assert!(!d.is_owned());
}
