use git_const::decoder::{decode, decode_or_placeholder, decoded};

#[test]
fn decode_reads_and_trims_text() {
    assert_eq!(decode(b"abc1234\n".to_vec()), Ok(String::from("abc1234")));
    assert_eq!(decode(b"  abc1234  ".to_vec()), Ok(String::from("abc1234")));
    assert_eq!(decode(b"abc1234".to_vec()), Ok(String::from("abc1234")));
    assert_eq!(decode(b"abc1234\r\n".to_vec()), Ok(String::from("abc1234")));
}

#[test]
fn decode_of_nothing_is_empty_text() {
    assert_eq!(decode(Vec::new()), Ok(String::new()));
    assert_eq!(decode(b"\n".to_vec()), Ok(String::new()));
}

#[test]
fn decode_keeps_what_is_between_the_ends() {
    assert_eq!(decode(b"one\ntwo\n".to_vec()), Ok(String::from("one\ntwo")));
}

#[test]
fn decode_reads_characters_of_several_bytes() {
    assert_eq!(decode(vec![0xC3, 0xA9, 0x0A]), Ok(String::from("\u{e9}")));
    assert_eq!(decode(vec![0xE3, 0x80, 0x80, 0x61, 0xE3, 0x80, 0x80]), Ok(String::from("a")));
    assert_eq!(decode(vec![0xF0, 0x9F, 0x98, 0x80]), Ok(String::from("\u{1F600}")));
}

#[test]
fn decode_refuses_a_byte_that_begins_no_character() {
    let diagnostic = decode(vec![0x61, 0xFF, 0x62]).unwrap_err();
    assert!(diagnostic.message.starts_with("git output is not valid utf-8: "));
    assert!(diagnostic.message.len() > "git output is not valid utf-8: ".len());
    assert!(diagnostic.directive.starts_with("compile_error!(\"git output is not valid utf-8: "));
    assert!(diagnostic.directive.ends_with("\")"));
}

#[test]
fn decode_names_the_fault_as_std_does() {
    let bytes = vec![0x61, 0xFF, 0x62];
    let expected = String::from_utf8(bytes.clone()).unwrap_err().to_string();
    let diagnostic = decode(bytes).unwrap_err();
    assert_eq!(diagnostic.message, format!("git output is not valid utf-8: {}", expected));
}

#[test]
fn decode_refuses_a_character_cut_short() {
    assert!(decode(vec![0x61, 0xC3]).is_err());
    assert!(decode(vec![0xE3, 0x80]).is_err());
    assert!(decode(vec![0xF0, 0x9F, 0x98]).is_err());
}

#[test]
fn decode_refuses_what_is_no_scalar_value() {
    assert!(decode(vec![0xC0, 0x80]).is_err());
    assert!(decode(vec![0xE0, 0x80, 0x80]).is_err());
    assert!(decode(vec![0xED, 0xA0, 0x80]).is_err());
    assert!(decode(vec![0xF4, 0x90, 0x80, 0x80]).is_err());
    assert!(decode(vec![0x80]).is_err());
}

#[test]
fn decode_refuses_bad_bytes_even_among_white_space() {
    assert!(decode(vec![0x20, 0xFF, 0x20]).is_err());
    assert!(decode(vec![0x0A, 0xFE]).is_err());
}

#[test]
fn decoded_trims_text() {
    assert_eq!(decoded(Ok(String::from(" abc \n"))), Ok(String::from("abc")));
    assert_eq!(decoded(Ok(String::new())), Ok(String::new()));
}

#[test]
fn decoded_names_the_error() {
    let diagnostic = decoded(Err(String::from("bad byte"))).unwrap_err();
    assert_eq!(diagnostic.message, "git output is not valid utf-8: bad byte");
    assert_eq!(diagnostic.directive, "compile_error!(\"git output is not valid utf-8: bad byte\")");
}

#[test]
fn decoded_does_not_trim_the_error() {
    let diagnostic = decoded(Err(String::from(" bad \n"))).unwrap_err();
    assert_eq!(diagnostic.message, "git output is not valid utf-8:  bad \n");
}

#[test]
fn decode_or_placeholder_reads_text_as_it_is() {
    assert_eq!(decode_or_placeholder(b"fatal: bad revision\n".to_vec()), "fatal: bad revision\n");
    assert_eq!(decode_or_placeholder(Vec::new()), "");
    assert_eq!(decode_or_placeholder(vec![0xC3, 0xA9]), "\u{e9}");
}

#[test]
fn decode_or_placeholder_stands_in_for_what_is_no_text() {
    assert_eq!(decode_or_placeholder(vec![0xFF]), "<invalid utf-8>");
    assert_eq!(decode_or_placeholder(vec![0x61, 0x80, 0x62]), "<invalid utf-8>");
}
