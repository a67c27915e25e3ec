use leptos_styles::decimal::decimal_string;
use leptos_styles::hash::{advance, hash_bytes, MULTIPLIER, SEED};
use leptos_styles::ident::{derive_identifier, identifier, suffix, SUFFIX_RANGE};
use leptos_styles::stem::{base_name, path_base, stem};

#[test]
fn hash_of_nothing_is_the_seed() {
    assert_eq!(SEED, 5381);
    assert_eq!(MULTIPLIER, 33);
    assert_eq!(hash_bytes(b""), 5381);
}

#[test]
fn hash_of_one_byte() {
    assert_eq!(hash_bytes(b"a"), 5381 * 33 + 97);
    assert_eq!(advance(5381, 97), 177670);
}

#[test]
fn hash_wraps_at_32_bits() {
    assert_eq!(advance(u32::MAX, 0), 4294967263);
    assert_eq!(advance(u32::MAX, 255), 222);
    assert_eq!(hash_bytes(b"button"), 4110376321);
    assert_eq!(hash_bytes(b"my_component"), 160325949);
}

#[test]
fn hash_goes_by_bytes_not_characters() {
    assert_eq!(hash_bytes("é".as_bytes()), 5866513);
    assert_eq!(hash_bytes(&[0xc3, 0xa9]), 5866513);
    assert_ne!(hash_bytes("é".as_bytes()), hash_bytes("e\u{301}".as_bytes()));
}

#[test]
fn decimal_has_no_padding() {
    assert_eq!(decimal_string(0), "0");
    assert_eq!(decimal_string(7), "7");
    assert_eq!(decimal_string(21), "21");
    assert_eq!(decimal_string(863), "863");
    assert_eq!(decimal_string(9999), "9999");
    assert_eq!(decimal_string(10000), "10000");
    assert_eq!(decimal_string(u32::MAX), "4294967295");
}

#[test]
fn every_digit_has_its_text() {
    let digits = ["0", "1", "2", "3", "4", "5", "6", "7", "8", "9"];
    for (value, text) in digits.iter().enumerate() {
        assert_eq!(decimal_string(value as u32), *text);
        assert_eq!(decimal_string(10 + value as u32), format!("1{}", text));
    }
}

#[test]
fn suffix_is_the_hash_below_ten_thousand() {
    assert_eq!(SUFFIX_RANGE, 10000);
    assert_eq!(suffix("my_component"), 5949);
    assert_eq!(suffix("card"), 863);
    assert_eq!(suffix(""), 5381);
    assert_eq!(suffix(&"x".repeat(50)), 21);
}

#[test]
fn identifier_of_my_component() {
    assert_eq!(identifier("my_component"), "my_component5949");
    assert_eq!(derive_identifier("src/my_component.css"), "my_component5949");
}

#[test]
fn identifier_keeps_the_name_as_it_is() {
    assert_eq!(identifier("card"), "card863");
    assert_eq!(identifier("é"), "é6513");
    assert_eq!(identifier("my card!"), format!("my card!{}", hash_bytes(b"my card!") % 10000));
}

#[test]
fn deriving_twice_gives_the_same_identifier() {
    let first = derive_identifier("styles/button.css");
    let second = derive_identifier("styles/button.css");
    assert_eq!(first, second);
    assert_eq!(first, "button6321");
    assert_eq!(identifier("button"), identifier("button"));
}

#[test]
fn path_without_a_stem_falls_back() {
    assert_eq!(path_base(""), "component");
    assert_eq!(path_base("/"), "component");
    assert_eq!(path_base(".."), "component");
    assert_eq!(derive_identifier(""), "component9768");
    assert_eq!(derive_identifier("/"), "component9768");
}

#[test]
fn stem_ends_at_the_last_dot() {
    assert_eq!(stem("card.css"), "card");
    assert_eq!(stem("archive.tar.gz"), "archive.tar");
    assert_eq!(stem("style"), "style");
    assert_eq!(stem("a."), "a");
    assert_eq!(stem(".hidden.css"), ".hidden");
    assert_eq!(stem("..."), "..");
    assert_eq!(stem("caf\u{e9}.css"), "caf\u{e9}");
}

#[test]
fn stem_of_a_name_that_is_all_extension_is_empty() {
    assert_eq!(stem(".css"), "");
    assert_eq!(stem("."), "");
    assert_eq!(stem(""), "");
}

#[test]
fn base_name_of_a_missing_or_empty_stem() {
    assert_eq!(base_name(None), "component");
    assert_eq!(base_name(Some(String::new())), "component");
    assert_eq!(base_name(Some(String::from(".css"))), "component");
    assert_eq!(base_name(Some(String::from("card.css"))), "card");
    assert_eq!(base_name(Some(String::from("card"))), "card");
}

#[test]
fn stem_is_the_file_name_without_its_extension() {
    assert_eq!(path_base("src/my_component.css"), "my_component");
    assert_eq!(path_base("card.css"), "card");
    assert_eq!(path_base("a/b/c/style"), "style");
    assert_eq!(path_base("a/archive.tar.gz"), "archive.tar");
    assert_eq!(path_base("styles/"), "styles");
    assert_eq!(path_base("a/./card.css"), "card");
}

#[test]
fn name_that_is_all_extension_falls_back() {
    assert_eq!(path_base(".css"), "component");
    assert_eq!(path_base("a/.css"), "component");
    assert_eq!(derive_identifier("a/.css"), "component9768");
    assert_eq!(path_base("a/.hidden.css"), ".hidden");
}

#[test]
fn same_stem_in_two_directories_collides() {
    assert_eq!(derive_identifier("a/card.css"), "card863");
    assert_eq!(derive_identifier("b/card.css"), "card863");
    assert_eq!(derive_identifier("a/card.css"), derive_identifier("b/card.scss"));
    assert_ne!(derive_identifier("a/card.css"), derive_identifier("a/cart.css"));
}
