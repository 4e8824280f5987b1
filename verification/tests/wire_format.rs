use std::str::FromStr;

use bdk::bitcoin::{Address as BitcoinAddress, Network, PublicKey, Txid};
use joinswap::bytes::to_hex;
use joinswap::error::Abort;
use joinswap::keys::{gen_key_pair, PubKey};
use joinswap::wire::{
    char_is_whitespace, chars_of, frame_message, hash_line, keys_line, parse_address, parse_hash,
    parse_hex32, parse_private_key, parse_txid, read_contract_keys, reversed, split_tokens, trim,
    txid_line,
};

fn fresh_public() -> PubKey {
    gen_key_pair().unwrap().public
}

fn counting() -> [u8; 32] {
    let mut bytes = [0u8; 32];
    for (i, b) in bytes.iter_mut().enumerate() {
        *b = i as u8;
    }
    bytes
}

#[test]
fn white_space_is_what_unicode_says() {
    for c in [' ', '\t', '\n', '\r', '\u{0b}', '\u{0c}', '\u{85}', '\u{a0}', '\u{1680}', '\u{2000}', '\u{200a}', '\u{2028}', '\u{2029}', '\u{202f}', '\u{205f}', '\u{3000}'] {
        assert!(char_is_whitespace(c));
    }
    for c in ['a', ',', '0', '\u{200b}', '\u{feff}', '\u{1f}', '\u{0e}'] {
        assert!(!char_is_whitespace(c));
    }
    for code in 0u32..0x3100 {
        if let Some(c) = char::from_u32(code) {
            assert_eq!(char_is_whitespace(c), c.is_whitespace());
        }
    }
}

#[test]
fn trim_removes_white_space_at_both_ends_only() {
    assert_eq!(trim("  a b \r\n"), "a b");
    assert_eq!(trim("a,b\n"), "a,b");
    assert_eq!(trim("\u{a0}x\u{3000}"), "x");
    assert_eq!(trim("   "), "");
    assert_eq!(trim(""), "");
    assert_eq!(trim("é \n"), "é");
    for text in ["", " ", "ab", " ab", "ab ", "\ta\tb\t", "\n\n", "x\u{2028}"] {
        assert_eq!(trim(text), text.trim());
    }
}

#[test]
fn characters_of_a_text() {
    assert_eq!(chars_of("aé,"), vec!['a', 'é', ',']);
    assert_eq!(chars_of(""), Vec::<char>::new());
}

#[test]
fn tokens_are_the_pieces_between_commas() {
    assert_eq!(split_tokens("a,b,c"), vec!["a", "b", "c"]);
    assert_eq!(split_tokens("abc"), vec!["abc"]);
    assert_eq!(split_tokens(""), vec![""]);
    assert_eq!(split_tokens(","), vec!["", ""]);
    assert_eq!(split_tokens("a,,b,"), vec!["a", "", "b", ""]);
    assert_eq!(split_tokens(" a, b"), vec![" a", " b"]);
    for text in ["", ",", "a", "a,b", ",a", "a,", "é,ü", ",,,"] {
        let expected: Vec<&str> = text.split(',').collect();
        assert_eq!(split_tokens(text), expected);
    }
}

#[test]
fn message_is_framed_by_a_line_feed() {
    assert_eq!(frame_message("hello".to_string()), "hello\n");
    assert_eq!(frame_message(String::new()), "\n");
}

#[test]
fn key_list_is_read_back_from_its_line() {
    let keys = vec![fresh_public(), fresh_public(), fresh_public()];
    let line = keys_line(&keys);
    let expected = format!(
        "{},{},{}",
        to_hex(&keys[0].bytes),
        to_hex(&keys[1].bytes),
        to_hex(&keys[2].bytes)
    );
    assert_eq!(line, expected);
    assert_eq!(read_contract_keys(&frame_message(line), 3), Ok(keys));
    assert_eq!(keys_line(&[]), "");
}

#[test]
fn key_is_read_as_its_bytes() {
    let text = "0279be667ef9dcbbac55a06295ce870b07029bfcdb2dce28d959f2815b16f81798";
    let bytes = PublicKey::from_str(text).unwrap().to_bytes();
    assert_eq!(bytes.len(), 33);
    assert_eq!(read_contract_keys(text, 1), Ok(vec![PubKey { bytes: bytes.clone() }]));
    let upper = text.to_uppercase();
    assert_eq!(read_contract_keys(&upper, 1), Ok(vec![PubKey { bytes }]));
}

#[test]
fn uncompressed_key_is_read_as_65_bytes() {
    let text = "0479be667ef9dcbbac55a06295ce870b07029bfcdb2dce28d959f2815b16f81798483ada7726a3c4655da4fbfc0e1108a8fd17b448a68554199c47d08ffb10d4b8";
    let keys = read_contract_keys(text, 1).unwrap();
    assert_eq!(keys[0].bytes.len(), 65);
    assert_eq!(to_hex(&keys[0].bytes), text);
}

#[test]
fn wrong_number_of_keys_is_refused() {
    let keys = vec![fresh_public(), fresh_public()];
    let line = keys_line(&keys);
    assert_eq!(read_contract_keys(&line, 3), Err(Abort::KeyCount));
    assert_eq!(read_contract_keys(&line, 1), Err(Abort::KeyCount));
    assert_eq!(read_contract_keys(&line, 2), Ok(keys));
    assert_eq!(read_contract_keys("", 0), Err(Abort::KeyCount));
    assert_eq!(read_contract_keys("\n", 1), Err(Abort::MalformedKey));
}

#[test]
fn malformed_key_is_refused() {
    let good = to_hex(&fresh_public().bytes);
    assert_eq!(read_contract_keys(&format!("{},zz", good), 2), Err(Abort::MalformedKey));
    assert_eq!(read_contract_keys(&format!("{}, {}", good, good), 2), Err(Abort::MalformedKey));
    assert_eq!(read_contract_keys(&good[..64], 1), Err(Abort::MalformedKey));
    let not_on_curve = format!("02{}", "ff".repeat(32));
    assert_eq!(read_contract_keys(&not_on_curve, 1), Err(Abort::MalformedKey));
}

#[test]
fn hash_is_read_back_from_its_line() {
    let hash = counting();
    let line = hash_line(&hash);
    assert_eq!(line, "000102030405060708090a0b0c0d0e0f101112131415161718191a1b1c1d1e1f");
    assert_eq!(parse_hash(&frame_message(line.clone())), Ok(hash));
    assert_eq!(parse_hash(&line.to_uppercase()), Ok(hash));
    assert_eq!(parse_hex32(&line), Some(hash));
}

#[test]
fn malformed_hash_is_refused() {
    assert_eq!(parse_hash(""), Err(Abort::MalformedHash));
    assert_eq!(parse_hash(&"0".repeat(63)), Err(Abort::MalformedHash));
    assert_eq!(parse_hash(&"0".repeat(65)), Err(Abort::MalformedHash));
    assert_eq!(parse_hash(&format!("{}g", "0".repeat(63))), Err(Abort::MalformedHash));
    assert_eq!(parse_hash(&format!("{}é", "0".repeat(63))), Err(Abort::MalformedHash));
    assert_eq!(parse_hex32(&"0".repeat(62)), None);
}

#[test]
fn txid_text_shows_the_bytes_in_reverse() {
    let bytes = counting();
    let line = txid_line(&bytes);
    assert_eq!(line, "1f1e1d1c1b1a191817161514131211100f0e0d0c0b0a09080706050403020100");
    assert_eq!(parse_txid(&format!(" {}\n", line)), Ok(bytes));
    assert_eq!(reversed(&reversed(&bytes)), bytes);
    assert_eq!(reversed(&bytes)[0], 31);
    let outside = Txid::from_str(&line).unwrap();
    assert_eq!(bdk::bitcoin::hashes::Hash::into_inner(outside), bytes);
    assert_eq!(outside.to_string(), line);
    assert_eq!(parse_txid("xyz"), Err(Abort::MalformedTxid));
}

#[test]
fn private_key_line_is_trimmed() {
    assert_eq!(parse_private_key(" abc\n").wif, "abc");
    assert_eq!(parse_private_key("").wif, "");
}

#[test]
fn address_is_read_with_its_script() {
    let key = PublicKey::from_slice(&fresh_public().bytes).unwrap();
    let outside = BitcoinAddress::p2wpkh(&key, Network::Regtest).unwrap();
    let address = parse_address(&format!("{}\n", outside)).unwrap();
    assert_eq!(address.text, outside.to_string());
    assert_eq!(address.script, outside.script_pubkey().to_bytes());
    assert_eq!(address.script.len(), 22);
    let legacy = BitcoinAddress::p2pkh(&key, Network::Bitcoin);
    assert_eq!(parse_address(&legacy.to_string()).unwrap().script, legacy.script_pubkey().to_bytes());
}

#[test]
fn malformed_address_is_refused() {
    assert_eq!(parse_address("not an address"), Err(Abort::MalformedAddress));
    assert_eq!(parse_address(""), Err(Abort::MalformedAddress));
}
