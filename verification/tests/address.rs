use yocto_actor::address::{
    local_token_for, remote_token_for, truncate_byte_array_string, LOCAL_TOKEN_LENGTH,
};
use yocto_actor::{Address, AddressError, AddressType, ADDRESS_LENGTH};

fn padded(text: &str) -> [u8; ADDRESS_LENGTH] {
    let mut bytes = [0u8; ADDRESS_LENGTH];
    bytes[..text.len()].copy_from_slice(text.as_bytes());
    bytes
}

#[test]
fn new_local_address_names_the_local_scheme() {
    let address = Address::new(AddressType::Local);
    assert_eq!(address.get_type(), Ok(AddressType::Local));
    let text = address.as_connectable_string().unwrap();
    assert_eq!(text.len(), ADDRESS_LENGTH);
    assert!(text.starts_with("inproc://"));
    let token = &text["inproc://".len()..];
    assert_eq!(token.len(), LOCAL_TOKEN_LENGTH);
    assert!(token.bytes().all(|byte| byte.is_ascii_lowercase()));
}

#[test]
fn new_remote_address_names_the_remote_scheme() {
    let address = Address::new(AddressType::Remote);
    assert_eq!(address.get_type(), Ok(AddressType::Remote));
    let text = address.as_connectable_string().unwrap();
    assert!(text.starts_with("tcp://127.0.0.1:"));
    assert_eq!(text.len(), 20);
    let port: u64 = text["tcp://127.0.0.1:".len()..].parse().unwrap();
    assert!((5000..10000).contains(&port));
    assert_eq!(&address.as_bytes()[..20], text.as_bytes());
    assert!(address.as_bytes()[20..].iter().all(|&byte| byte == 0));
}

#[test]
fn new_addresses_connect_by_strings_without_filler() {
    for _ in 0..50 {
        for kind in [AddressType::Local, AddressType::Remote] {
            let address = Address::new(kind);
            assert_eq!(address.get_type(), Ok(kind));
            let text = address.as_connectable_string().unwrap();
            assert!(!text.as_bytes().contains(&0));
        }
    }
}

#[test]
fn new_local_addresses_differ() {
    let first = Address::new(AddressType::Local);
    let second = Address::new(AddressType::Local);
    assert_ne!(first, second);
}

#[test]
fn with_token_writes_scheme_token_and_padding() {
    let address = Address::with_token(AddressType::Local, "worker").unwrap();
    assert_eq!(address.as_bytes(), &padded("inproc://worker"));
    assert_eq!(address.get_type(), Ok(AddressType::Local));
    assert_eq!(address.as_connectable_string(), Ok("inproc://worker"));

    let address = Address::with_token(AddressType::Remote, "127.0.0.1:5000").unwrap();
    assert_eq!(address.as_bytes(), &padded("tcp://127.0.0.1:5000"));
    assert_eq!(address.get_type(), Ok(AddressType::Remote));
    assert_eq!(address.as_connectable_string(), Ok("tcp://127.0.0.1:5000"));
}

#[test]
fn with_token_accepts_an_empty_token() {
    let address = Address::with_token(AddressType::Remote, "").unwrap();
    assert_eq!(address.as_bytes(), &padded("tcp://"));
    assert_eq!(address.as_connectable_string(), Ok("tcp://"));
}

#[test]
fn with_token_fills_the_whole_width() {
    let token = "abcdefghijklmnopqrstuvw";
    assert_eq!(token.len(), 23);
    let address = Address::with_token(AddressType::Local, token).unwrap();
    assert_eq!(address.as_bytes(), b"inproc://abcdefghijklmnopqrstuvw");
    assert_eq!(address.as_connectable_string(), Ok("inproc://abcdefghijklmnopqrstuvw"));
    assert_eq!(address.as_str(), Ok("inproc://abcdefghijklmnopqrstuvw"));

    let token = "abcdefghijklmnopqrstuvwxyz";
    assert_eq!(token.len(), 26);
    let address = Address::with_token(AddressType::Remote, token).unwrap();
    assert_eq!(address.as_bytes(), b"tcp://abcdefghijklmnopqrstuvwxyz");
}

#[test]
fn with_token_refuses_a_token_that_does_not_fit() {
    assert_eq!(
        Address::with_token(AddressType::Local, "abcdefghijklmnopqrstuvwx"),
        Err(AddressError::TokenTooLong)
    );
    assert_eq!(
        Address::with_token(AddressType::Remote, "abcdefghijklmnopqrstuvwxyz0"),
        Err(AddressError::TokenTooLong)
    );
}

#[test]
fn with_token_counts_bytes_not_characters() {
    // Twelve characters of two bytes each: 24 bytes.
    let token = "éééééééééééé";
    assert_eq!(token.chars().count(), 12);
    assert_eq!(
        Address::with_token(AddressType::Local, token),
        Err(AddressError::TokenTooLong)
    );
    let token = "ééééééééééé";
    let address = Address::with_token(AddressType::Local, token).unwrap();
    assert_eq!(address.as_connectable_string(), Ok("inproc://ééééééééééé"));
}

#[test]
fn with_token_refuses_the_filler_byte() {
    assert_eq!(
        Address::with_token(AddressType::Local, "wor\0ker"),
        Err(AddressError::FillerInToken)
    );
    assert_eq!(
        Address::with_token(AddressType::Remote, "\0"),
        Err(AddressError::FillerInToken)
    );
}

#[test]
fn with_token_reports_width_before_filler() {
    assert_eq!(
        Address::with_token(AddressType::Local, "abcdefghijklmnopqrstuvw\0"),
        Err(AddressError::TokenTooLong)
    );
}

#[test]
fn get_type_reads_the_first_three_bytes() {
    assert_eq!(Address::from_bytes(padded("inp")).get_type(), Ok(AddressType::Local));
    assert_eq!(Address::from_bytes(padded("tcp")).get_type(), Ok(AddressType::Remote));
    assert_eq!(Address::from_bytes(padded("inpxyz")).get_type(), Ok(AddressType::Local));
    assert_eq!(Address::from_bytes([0x74, 0x63, 0x70, 0xff, 0xff, 0xff, 0xff, 0xff, 0xff, 0xff,
        0xff, 0xff, 0xff, 0xff, 0xff, 0xff, 0xff, 0xff, 0xff, 0xff, 0xff, 0xff, 0xff, 0xff, 0xff,
        0xff, 0xff, 0xff, 0xff, 0xff, 0xff, 0xff]).get_type(), Ok(AddressType::Remote));
}

#[test]
fn get_type_refuses_an_unknown_scheme() {
    assert_eq!(Address::from_bytes([0u8; ADDRESS_LENGTH]).get_type(), Err(AddressError::UnknownScheme));
    assert_eq!(Address::from_bytes(padded("ipc://x")).get_type(), Err(AddressError::UnknownScheme));
    assert_eq!(Address::from_bytes(padded("in")).get_type(), Err(AddressError::UnknownScheme));
    assert_eq!(Address::from_bytes(padded("tcq://x")).get_type(), Err(AddressError::UnknownScheme));
    assert_eq!(Address::from_bytes(padded("INPROC://x")).get_type(), Err(AddressError::UnknownScheme));
}

#[test]
fn as_str_keeps_the_padding() {
    let address = Address::with_token(AddressType::Local, "a").unwrap();
    let text = address.as_str().unwrap();
    assert_eq!(text.len(), ADDRESS_LENGTH);
    assert_eq!(text, "inproc://a\0\0\0\0\0\0\0\0\0\0\0\0\0\0\0\0\0\0\0\0\0\0");
}

#[test]
fn as_str_refuses_bytes_that_are_not_text() {
    let mut bytes = padded("inproc://a");
    bytes[31] = 0xff;
    let address = Address::from_bytes(bytes);
    assert_eq!(address.as_str(), Err(AddressError::InvalidText));
    // The content ends before the offending byte.
    assert_eq!(address.as_connectable_string(), Ok("inproc://a"));
}

#[test]
fn as_connectable_string_refuses_content_that_is_not_text() {
    let mut bytes = padded("inproc://a");
    bytes[9] = 0xff;
    let address = Address::from_bytes(bytes);
    assert_eq!(address.as_connectable_string(), Err(AddressError::InvalidText));
    assert_eq!(address.get_type(), Ok(AddressType::Local));
}

#[test]
fn truncate_cuts_at_the_first_filler_byte() {
    assert_eq!(truncate_byte_array_string(b"abc\0def\0ghi"), Ok("abc"));
    assert_eq!(truncate_byte_array_string(b"abc"), Ok("abc"));
    assert_eq!(truncate_byte_array_string(b"abc\0"), Ok("abc"));
    assert_eq!(truncate_byte_array_string(b"\0abc"), Ok(""));
    assert_eq!(truncate_byte_array_string(b""), Ok(""));
    assert_eq!(truncate_byte_array_string(b"\0"), Ok(""));
}

#[test]
fn truncate_reads_only_the_content_as_text() {
    assert_eq!(truncate_byte_array_string(b"ab\0\xff\xfe"), Ok("ab"));
    assert_eq!(truncate_byte_array_string(b"ab\xff\0"), Err(AddressError::InvalidText));
    assert_eq!(truncate_byte_array_string(b"\xc3"), Err(AddressError::InvalidText));
    assert_eq!(truncate_byte_array_string("é\0".as_bytes()), Ok("é"));
}

#[test]
fn local_token_has_one_letter_a_draw() {
    assert_eq!(local_token_for(&[0, 1, 25, 26, 27, 51, 52]), b"abzabza".to_vec());
    assert_eq!(local_token_for(&[]), Vec::<u8>::new());
    // 18446744073709551615 = 26 * 709490156681136600 + 15
    assert_eq!(local_token_for(&[u64::MAX]), b"p".to_vec());
}

#[test]
fn remote_token_has_host_and_port() {
    assert_eq!(remote_token_for(0), b"127.0.0.1:5000".to_vec());
    assert_eq!(remote_token_for(1), b"127.0.0.1:5001".to_vec());
    assert_eq!(remote_token_for(4999), b"127.0.0.1:9999".to_vec());
    assert_eq!(remote_token_for(5000), b"127.0.0.1:5000".to_vec());
    assert_eq!(remote_token_for(1234), b"127.0.0.1:6234".to_vec());
    // 18446744073709551615 mod 5000 = 1615
    assert_eq!(remote_token_for(u64::MAX), b"127.0.0.1:6615".to_vec());
}

#[test]
fn from_bytes_and_as_bytes_round_trip() {
    let mut bytes = [0u8; ADDRESS_LENGTH];
    for (index, byte) in bytes.iter_mut().enumerate() {
        *byte = 200 + index as u8;
    }
    let address = Address::from_bytes(bytes);
    assert_eq!(address.as_bytes(), &bytes);
    let copy = address;
    assert_eq!(copy, address);
    assert_eq!(address.clone().as_bytes(), &bytes);
}
