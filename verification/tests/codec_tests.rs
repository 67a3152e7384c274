use account_server::codec::{i64_to_text, parse_i32, to_hex_lower, u64_to_text};
use account_server::utils::{
    bytes_to_utf8, decode_base64, decode_base64_to_utf8, decode_url, encode_base64, encode_url,
    hash_blake3, hash_md5, hash_md5_pieces, Md5Stream, UtilError,
};

#[test]
fn base64_encodes_rfc4648_vectors() {
    assert_eq!(encode_base64(b""), "");
    assert_eq!(encode_base64(b"f"), "Zg==");
    assert_eq!(encode_base64(b"fo"), "Zm8=");
    assert_eq!(encode_base64(b"foo"), "Zm9v");
    assert_eq!(encode_base64(b"foob"), "Zm9vYg==");
    assert_eq!(encode_base64(b"fooba"), "Zm9vYmE=");
    assert_eq!(encode_base64(b"foobar"), "Zm9vYmFy");
    assert_eq!(encode_base64(&[0xfb, 0xff]), "+/8=");
}

#[test]
fn base64_decodes_what_it_encodes() {
    let data: Vec<u8> = (0u8..=255).collect();
    let text = encode_base64(&data);
    assert_eq!(decode_base64(&text), Ok(data));
    assert_eq!(decode_base64("aGVsbG8="), Ok(b"hello".to_vec()));
}

#[test]
fn base64_refuses_non_canonical_text() {
    assert!(matches!(decode_base64("Zg"), Err(UtilError::InvalidBase64(_))));
    assert_eq!(decode_base64("Zh=="), Err(UtilError::InvalidBase64("Invalid last symbol 104, offset 1.".to_string())));
    assert!(matches!(decode_base64("Zg=a"), Err(UtilError::InvalidBase64(_))));
    assert_eq!(decode_base64("Z m9v"), Err(UtilError::InvalidBase64("Invalid symbol 32, offset 1.".to_string())));
    assert!(matches!(decode_base64("é"), Err(UtilError::InvalidBase64(_))));
}

#[test]
fn base64_to_utf8_reports_each_failure() {
    assert_eq!(decode_base64_to_utf8("aGVsbG8=").unwrap(), "hello");
    assert_eq!(decode_base64_to_utf8("5L2g5aW9").unwrap(), "你好");
    assert_eq!(
        decode_base64_to_utf8("/w==").unwrap_err(),
        UtilError::InvalidUtf8("invalid utf-8 sequence of 1 bytes from index 0".to_string())
    );
    assert!(matches!(decode_base64_to_utf8("***").unwrap_err(), UtilError::InvalidBase64(_)));
}

#[test]
fn utf8_check_of_bytes() {
    assert_eq!(bytes_to_utf8(vec![0x68, 0x69]).unwrap(), "hi");
    assert_eq!(
        bytes_to_utf8(vec![0xc3, 0x28]).unwrap_err(),
        UtilError::InvalidUtf8("invalid utf-8 sequence of 1 bytes from index 0".to_string())
    );
    assert!(matches!(bytes_to_utf8(vec![0xed, 0xa0, 0x80]).unwrap_err(), UtilError::InvalidUtf8(_)));
}

#[test]
fn url_encoding_keeps_unreserved_bytes() {
    assert_eq!(encode_url("abc-._~XYZ019"), "abc-._~XYZ019");
    assert_eq!(encode_url("a b&c/é"), "a%20b%26c%2F%C3%A9");
    assert_eq!(encode_url("100%"), "100%25");
}

#[test]
fn url_decoding_is_lenient() {
    assert_eq!(decode_url("%41%42c").unwrap(), "ABc");
    assert_eq!(decode_url("%zz%4").unwrap(), "%zz%4");
    assert_eq!(decode_url("%4g%").unwrap(), "%4g%");
    assert_eq!(decode_url("a+b").unwrap(), "a+b");
    assert_eq!(decode_url("%C3%A9t%C3%A9").unwrap(), "été");
    assert_eq!(
        decode_url("%FF").unwrap_err(),
        UtilError::InvalidUtf8("invalid utf-8 sequence of 1 bytes from index 0".to_string())
    );
}

#[test]
fn url_round_trip() {
    for text in ["", "plain", "with space", "ünïcödé / 表", "%%%", "a%2Fb"] {
        assert_eq!(decode_url(&encode_url(text)).unwrap(), text);
    }
}

#[test]
fn md5_digests() {
    assert_eq!(hash_md5(b""), "d41d8cd98f00b204e9800998ecf8427e");
    assert_eq!(hash_md5(b"abc"), "900150983cd24fb0d6963f7d28e17f72");
    assert_eq!(
        hash_md5(b"The quick brown fox jumps over the lazy dog"),
        "9e107d9d372bb6826bd81d3542a419d6"
    );
}

#[test]
fn md5_of_pieces_equals_md5_of_whole() {
    let whole: Vec<u8> = (0..20000u32).map(|i| (i % 251) as u8).collect();
    let pieces: Vec<Vec<u8>> = whole.chunks(8192).map(|c| c.to_vec()).collect();
    assert_eq!(hash_md5_pieces(&pieces), hash_md5(&whole));
    let mut stream = Md5Stream::new();
    stream.update(b"The quick brown ");
    stream.update(b"");
    stream.update(b"fox jumps over the lazy dog");
    assert_eq!(stream.finish_hex(), "9e107d9d372bb6826bd81d3542a419d6");
    assert_eq!(hash_md5_pieces(&vec![]), hash_md5(b""));
}

#[test]
fn blake3_digests() {
    assert_eq!(
        hash_blake3(b""),
        "af1349b9f5f9a1a6a0404dea36dcc9499bcb25c9adc112b7cc9a93cae41f3262"
    );
    assert_eq!(hash_blake3(b"abc").len(), 64);
    assert_ne!(hash_blake3(b"abc"), hash_blake3(b"abd"));
}

#[test]
fn hex_formatting() {
    assert_eq!(to_hex_lower(&[]), "");
    assert_eq!(to_hex_lower(&[0x00, 0x0f, 0xa0, 0xff]), "000fa0ff");
}

#[test]
fn decimal_formatting() {
    assert_eq!(u64_to_text(0), "0");
    assert_eq!(u64_to_text(4000), "4000");
    assert_eq!(u64_to_text(u64::MAX), u64::MAX.to_string());
    assert_eq!(i64_to_text(-42), "-42");
    assert_eq!(i64_to_text(i64::MIN), i64::MIN.to_string());
}

#[test]
fn i32_parsing_matches_std() {
    for text in [
        "0", "7", "+7", "-7", "0012", "2147483647", "2147483648", "-2147483648", "-2147483649",
        "", "-", "+", "1a", " 1", "1 ", "--1", "99999999999999",
    ] {
        assert_eq!(parse_i32(text), text.parse::<i32>().ok(), "{text:?}");
    }
}
