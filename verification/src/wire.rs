//! The text that goes over the wire: one message per line, a line holding either one
//! token or several separated by commas. What kind of message a line holds follows from
//! its place in the protocol alone.

use crate::address::{address_script, address_script_of};
use crate::bytes::{hex_text, push_hex};
use crate::error::Abort;
use crate::keys::{parse_public_key, parsed_public_key, PrivKey, PubKey};
use vstd::prelude::*;

verus! {

/// White space as Unicode defines it.
pub open spec fn is_whitespace(c: char) -> bool {
    let n = c as u32;
    ||| 0x09 <= n <= 0x0d
    ||| n == 0x20
    ||| n == 0x85
    ||| n == 0xa0
    ||| n == 0x1680
    ||| 0x2000 <= n <= 0x200a
    ||| n == 0x2028
    ||| n == 0x2029
    ||| n == 0x202f
    ||| n == 0x205f
    ||| n == 0x3000
}

/// A text without the white space it starts with.
pub open spec fn trim_start(s: Seq<char>) -> Seq<char>
    decreases s.len(),
{
    if s.len() > 0 && is_whitespace(s[0]) {
        trim_start(s.drop_first())
    } else {
        s
    }
}

/// A text without the white space it ends with.
pub open spec fn trim_end(s: Seq<char>) -> Seq<char>
    decreases s.len(),
{
    if s.len() > 0 && is_whitespace(s.last()) {
        trim_end(s.drop_last())
    } else {
        s
    }
}

/// A text without the white space at either end.
pub open spec fn trimmed(s: Seq<char>) -> Seq<char> {
    trim_end(trim_start(s))
}

/// The tokens of a line: the pieces between its commas. A line without a comma is one
/// token, which may be empty.
pub open spec fn tokens_of(s: Seq<char>) -> Seq<Seq<char>>
    decreases s.len(),
{
    if s.len() == 0 {
        seq![s]
    } else if s.last() == ',' {
        tokens_of(s.drop_last()).push(Seq::empty())
    } else {
        let before = tokens_of(s.drop_last());
        before.drop_last().push(before.last().push(s.last()))
    }
}

/// The line that holds the given tokens, separated by commas.
pub open spec fn joined(tokens: Seq<Seq<char>>) -> Seq<char>
    decreases tokens.len(),
{
    if tokens.len() == 0 {
        Seq::empty()
    } else if tokens.len() == 1 {
        tokens[0]
    } else {
        joined(tokens.drop_last()) + seq![','] + tokens.last()
    }
}

/// A message as it is written to a peer: the text and a line feed.
pub open spec fn framed(message: Seq<char>) -> Seq<char> {
    message + seq!['\n']
}

/// Whether `c` is white space.
pub fn char_is_whitespace(c: char) -> (w: bool)
    ensures
        w == is_whitespace(c),
{
    let n = c as u32;
    (0x09 <= n && n <= 0x0d) || n == 0x20 || n == 0x85 || n == 0xa0 || n == 0x1680 || (0x2000 <= n
        && n <= 0x200a) || n == 0x2028 || n == 0x2029 || n == 0x202f || n == 0x205f || n == 0x3000
}

/// The characters of a text.
pub fn chars_of(s: &str) -> (chars: Vec<char>)
    ensures
        chars@ == s@,
{
    let mut chars: Vec<char> = Vec::new();
    for c in it: s.chars()
        invariant
            chars@ == it.seq().take(it.index()),
    {
        chars.push(c);
    }
    chars
}

proof fn lemma_trim_start(s: Seq<char>, k: int)
    requires
        0 <= k <= s.len(),
        forall|i: int| 0 <= i < k ==> is_whitespace(s[i]),
        k == s.len() || !is_whitespace(s[k]),
    ensures
        trim_start(s) == s.skip(k),
    decreases k,
{
    if k == 0 {
        assert(s.skip(0) =~= s);
    } else {
        let rest = s.drop_first();
        assert forall|i: int| 0 <= i < k - 1 implies is_whitespace(rest[i]) by {
            assert(rest[i] == s[i + 1]);
        }
        lemma_trim_start(rest, k - 1);
        assert(rest.skip(k - 1) =~= s.skip(k));
    }
}

proof fn lemma_trim_end(s: Seq<char>, k: int)
    requires
        0 <= k <= s.len(),
        forall|i: int| k <= i < s.len() ==> is_whitespace(s[i]),
        k == 0 || !is_whitespace(s[k - 1]),
    ensures
        trim_end(s) == s.take(k),
    decreases s.len() - k,
{
    if k == s.len() {
        assert(s.take(k) =~= s);
    } else {
        let rest = s.drop_last();
        lemma_trim_end(rest, k);
        assert(rest.take(k) =~= s.take(k));
    }
}

/// The text without the white space at either end.
pub fn trim(s: &str) -> (t: &str)
    ensures
        t@ == trimmed(s@),
{
    let chars = chars_of(s);
    let mut start: usize = 0;
    while start < chars.len() && char_is_whitespace(chars[start])
        invariant
            start <= chars.len(),
            forall|i: int| 0 <= i < start ==> is_whitespace(chars@[i]),
        decreases chars.len() - start,
    {
        start += 1;
    }
    let mut end: usize = chars.len();
    while end > start && char_is_whitespace(chars[end - 1])
        invariant
            start <= end <= chars.len(),
            forall|i: int| end <= i < chars.len() ==> is_whitespace(chars@[i]),
        decreases end - start,
    {
        end -= 1;
    }
    proof {
        lemma_trim_start(s@, start as int);
        let rest = s@.skip(start as int);
        assert forall|i: int| end - start <= i < rest.len() implies is_whitespace(rest[i]) by {
            assert(rest[i] == s@[i + start]);
        }
        if end > start {
            assert(rest[end - start - 1] == s@[end - 1]);
        }
        lemma_trim_end(rest, end - start);
        assert(rest.take(end - start) =~= s@.subrange(start as int, end as int));
    }
    s.substring_char(start, end)
}

/// Splits a line at its commas.
pub fn split_tokens(line: &str) -> (tokens: Vec<String>)
    ensures
        tokens.deep_view() == tokens_of(line@),
{
    let chars = chars_of(line);
    let mut tokens: Vec<String> = Vec::new();
    let mut start: usize = 0;
    let mut i: usize = 0;
    assert(line@.take(0) =~= Seq::<char>::empty());
    assert(tokens.deep_view().push(line@.subrange(0, 0)) =~= seq![Seq::<char>::empty()]);
    while i < chars.len()
        invariant
            start <= i <= chars.len(),
            chars@ == line@,
            tokens_of(line@.take(i as int)) == tokens.deep_view().push(
                line@.subrange(start as int, i as int),
            ),
        decreases chars.len() - i,
    {
        let ghost before = line@.take(i as int);
        let ghost current = line@.take(i + 1);
        assert(current.drop_last() =~= before);
        assert(current.last() == line@[i as int]);
        let ghost done = tokens.deep_view();
        if chars[i] == ',' {
            let token = line.substring_char(start, i);
            tokens.push(token.to_owned());
            assert(tokens.deep_view() =~= done.push(line@.subrange(start as int, i as int)));
            start = i + 1;
            assert(line@.subrange(start as int, i + 1) =~= Seq::<char>::empty());
        } else {
            let ghost open = done.push(line@.subrange(start as int, i as int));
            assert(open.drop_last() =~= done);
            assert(open.last().push(line@[i as int]) =~= line@.subrange(start as int, i + 1));
        }
        i += 1;
    }
    assert(line@.take(chars.len() as int) =~= line@);
    let last = line.substring_char(start, chars.len());
    tokens.push(last.to_owned());
    tokens
}

/// Every token is the text of a public key.
pub open spec fn all_keys(tokens: Seq<Seq<char>>) -> bool {
    forall|i: int| 0 <= i < tokens.len() ==> (#[trigger] parsed_public_key(tokens[i])) is Some
}

/// What a line that should hold `n` public keys is read as: the keys, or why not.
pub open spec fn key_list_in(line: Seq<char>, n: int) -> Result<Seq<Seq<u8>>, Abort> {
    let tokens = tokens_of(trimmed(line));
    if tokens.len() != n {
        Err(Abort::KeyCount)
    } else if !all_keys(tokens) {
        Err(Abort::MalformedKey)
    } else {
        Ok(Seq::new(tokens.len(), |i: int| parsed_public_key(tokens[i]).unwrap()))
    }
}

/// Reads a line that must hold exactly `n` public keys, separated only by commas.
pub fn read_contract_keys(line: &str, n: u8) -> (keys: Result<Vec<PubKey>, Abort>)
    ensures
        match keys {
            Ok(list) => key_list_in(line@, n as int) == Ok::<Seq<Seq<u8>>, Abort>(list.deep_view()),
            Err(e) => key_list_in(line@, n as int) == Err::<Seq<Seq<u8>>, Abort>(e),
        },
        keys matches Ok(list) ==> list.len() == n,
{
    let tokens = split_tokens(trim(line));
    if tokens.len() != n as usize {
        return Err(Abort::KeyCount);
    }
    let ghost texts = tokens_of(trimmed(line@));
    let mut keys: Vec<PubKey> = Vec::new();
    let mut i: usize = 0;
    while i < tokens.len()
        invariant
            i <= tokens.len(),
            keys.len() == i,
            tokens.len() == n,
            tokens.deep_view() == texts,
            texts == tokens_of(trimmed(line@)),
            forall|j: int| 0 <= j < i ==> (#[trigger] parsed_public_key(texts[j])) == Some(keys[j]@),
        decreases tokens.len() - i,
    {
        assert(tokens.deep_view()[i as int] == tokens[i as int]@);
        match parse_public_key(tokens[i].as_str()) {
            Some(key) => {
                keys.push(key);
            },
            None => {
                assert(parsed_public_key(texts[i as int]) is None);
                return Err(Abort::MalformedKey);
            },
        }
        i += 1;
    }
    assert(all_keys(texts));
    assert(keys.deep_view() =~= Seq::new(texts.len(), |i: int| parsed_public_key(texts[i]).unwrap()));
    Ok(keys)
}

/// Prepares a message for a peer: the line that is written is the text and a line feed.
pub fn frame_message(m: String) -> (line: String)
    ensures
        line@ == framed(m@),
{
    proof {
        reveal_strlit("\n");
    }
    let line = m.concat("\n");
    assert(line@ =~= framed(m@));
    line
}

/// The line that announces a list of keys: their hexadecimal texts, separated by commas.
pub fn keys_line(keys: &[PubKey]) -> (line: String)
    ensures
        line@ == joined(keys.deep_view().map_values(|k: Seq<u8>| hex_text(k))),
{
    let ghost texts = keys.deep_view().map_values(|k: Seq<u8>| hex_text(k));
    let mut line = String::new();
    let mut i: usize = 0;
    assert(texts.take(0) =~= Seq::<Seq<char>>::empty());
    while i < keys.len()
        invariant
            i <= keys.len(),
            texts == keys.deep_view().map_values(|k: Seq<u8>| hex_text(k)),
            line@ == joined(texts.take(i as int)),
        decreases keys.len() - i,
    {
        proof {
            reveal_strlit(",");
            let next = texts.take(i + 1);
            assert(next.drop_last() =~= texts.take(i as int));
            assert(next.last() == hex_text(keys[i as int]@));
        }
        if i > 0 {
            line.append(",");
            assert(line@ =~= joined(texts.take(i as int)) + seq![',']);
        } else {
            assert(line@ =~= Seq::<char>::empty());
        }
        push_hex(&mut line, keys[i].bytes.as_slice());
        proof {
            if i == 0 {
                assert(Seq::<char>::empty() + hex_text(keys[0]@) =~= hex_text(keys[0]@));
            }
        }
        i += 1;
    }
    assert(texts.take(keys.len() as int) =~= texts);
    line
}

/// The value of a hexadecimal digit, in either case.
pub open spec fn hex_value(c: char) -> Option<u8> {
    let n = c as u32;
    if 0x30 <= n <= 0x39 {
        Some((n - 0x30) as u8)
    } else if 0x61 <= n <= 0x66 {
        Some((n - 0x61 + 10) as u8)
    } else if 0x41 <= n <= 0x46 {
        Some((n - 0x41 + 10) as u8)
    } else {
        None
    }
}

/// The text is 64 hexadecimal digits.
pub open spec fn is_hex32(text: Seq<char>) -> bool {
    text.len() == 64 && forall|i: int| 0 <= i < 64 ==> (#[trigger] hex_value(text[i])) is Some
}

/// The 32 bytes that 64 hexadecimal digits denote, two digits per byte, high digit first.
pub open spec fn hex32_bytes(text: Seq<char>) -> Seq<u8> {
    Seq::new(
        32,
        |i: int| (16 * hex_value(text[2 * i]).unwrap() + hex_value(text[2 * i + 1]).unwrap()) as u8,
    )
}

/// What a line that should hold a commitment hash is read as.
pub open spec fn hash_in(line: Seq<char>) -> Result<Seq<u8>, Abort> {
    if is_hex32(trimmed(line)) {
        Ok(hex32_bytes(trimmed(line)))
    } else {
        Err(Abort::MalformedHash)
    }
}

/// What a line that should hold a transaction identifier is read as. The text of an
/// identifier shows its bytes in reverse order.
pub open spec fn txid_in(line: Seq<char>) -> Result<Seq<u8>, Abort> {
    if is_hex32(trimmed(line)) {
        Ok(hex32_bytes(trimmed(line)).reverse())
    } else {
        Err(Abort::MalformedTxid)
    }
}

fn hex_digit_value(c: char) -> (v: Option<u8>)
    ensures
        v == hex_value(c),
        v matches Some(d) ==> d < 16,
{
    let n = c as u32;
    if 0x30 <= n && n <= 0x39 {
        Some((n - 0x30) as u8)
    } else if 0x61 <= n && n <= 0x66 {
        Some((n - 0x61 + 10) as u8)
    } else if 0x41 <= n && n <= 0x46 {
        Some((n - 0x41 + 10) as u8)
    } else {
        None
    }
}

/// Reads 64 hexadecimal digits as 32 bytes.
pub fn parse_hex32(text: &str) -> (bytes: Option<[u8; 32]>)
    ensures
        match bytes {
            Some(b) => is_hex32(text@) && b@ == hex32_bytes(text@),
            None => !is_hex32(text@),
        },
{
    let chars = chars_of(text);
    if chars.len() != 64 {
        return None;
    }
    let mut bytes = [0u8; 32];
    let mut i: usize = 0;
    while i < 32
        invariant
            i <= 32,
            chars.len() == 64,
            chars@ == text@,
            forall|j: int| 0 <= j < 2 * i ==> (#[trigger] hex_value(text@[j])) is Some,
            forall|j: int| 0 <= j < i ==> bytes@[j] == hex32_bytes(text@)[j],
        decreases 32 - i,
    {
        let high = match hex_digit_value(chars[2 * i]) {
            Some(v) => v,
            None => {
                return None;
            },
        };
        let low = match hex_digit_value(chars[2 * i + 1]) {
            Some(v) => v,
            None => {
                return None;
            },
        };
        bytes[i] = 16 * high + low;
        i += 1;
    }
    assert(bytes@ =~= hex32_bytes(text@));
    Some(bytes)
}

/// Reads a line that holds a commitment hash.
pub fn parse_hash(line: &str) -> (hash: Result<[u8; 32], Abort>)
    ensures
        match hash {
            Ok(h) => hash_in(line@) == Ok::<Seq<u8>, Abort>(h@),
            Err(e) => hash_in(line@) == Err::<Seq<u8>, Abort>(e),
        },
{
    match parse_hex32(trim(line)) {
        Some(bytes) => Ok(bytes),
        None => Err(Abort::MalformedHash),
    }
}

/// The bytes in reverse order.
pub fn reversed(bytes: &[u8; 32]) -> (back: [u8; 32])
    ensures
        back@ == bytes@.reverse(),
{
    let mut back = [0u8; 32];
    let mut i: usize = 0;
    while i < 32
        invariant
            i <= 32,
            forall|j: int| 0 <= j < i ==> back@[j] == bytes@[31 - j],
        decreases 32 - i,
    {
        back[i] = bytes[31 - i];
        i += 1;
    }
    assert(back@ =~= bytes@.reverse());
    back
}

/// Reads a line that holds a transaction identifier.
pub fn parse_txid(line: &str) -> (txid: Result<[u8; 32], Abort>)
    ensures
        match txid {
            Ok(id) => txid_in(line@) == Ok::<Seq<u8>, Abort>(id@),
            Err(e) => txid_in(line@) == Err::<Seq<u8>, Abort>(e),
        },
{
    match parse_hex32(trim(line)) {
        Some(bytes) => Ok(reversed(&bytes)),
        None => Err(Abort::MalformedTxid),
    }
}

/// The text of a commitment hash.
pub fn hash_line(hash: &[u8; 32]) -> (line: String)
    ensures
        line@ == hex_text(hash@),
{
    crate::bytes::to_hex(hash.as_slice())
}

/// The text of a transaction identifier: its bytes in reverse order.
pub fn txid_line(txid: &[u8; 32]) -> (line: String)
    ensures
        line@ == hex_text(txid@.reverse()),
{
    let back = reversed(txid);
    crate::bytes::to_hex(back.as_slice())
}

/// Reads a line that holds a private key. Whether the text is a key shows when its
/// public key is derived.
pub fn parse_private_key(line: &str) -> (key: PrivKey)
    ensures
        key@ == trimmed(line@),
{
    PrivKey { wif: trim(line).to_owned() }
}

/// An address: its text, and the script that it pays to.
#[derive(Debug, PartialEq, Eq)]
pub struct Address {
    pub text: String,
    pub script: Vec<u8>,
}

impl Clone for Address {
    fn clone(&self) -> (copy: Self)
        ensures
            copy.text@ == self.text@,
            copy.script@ == self.script@,
    {
        let script = self.script.clone();
        assert(script@ =~= self.script@);
        Address { text: self.text.clone(), script }
    }
}

impl Address {
    /// The script is the one that the text pays to.
    pub open spec fn wf(&self) -> bool {
        address_script_of(self.text@) == Some(self.script@)
    }
}

/// Reads a line that holds an address.
pub fn parse_address(line: &str) -> (address: Result<Address, Abort>)
    ensures
        match address {
            Ok(a) => a.text@ == trimmed(line@) && a.wf(),
            Err(e) => e == Abort::MalformedAddress && address_script_of(trimmed(line@)) is None,
        },
{
    let text = trim(line);
    match address_script(text) {
        Some(script) => {
            assert(script.deep_view() =~= script@);
            Ok(Address { text: text.to_owned(), script })
        },
        None => Err(Abort::MalformedAddress),
    }
}

/// A hexadecimal digit is read back as the value it was written for.
pub proof fn lemma_hex_digit_reads_back(n: int)
    requires
        0 <= n < 16,
    ensures
        hex_value(crate::bytes::hex_digit(n)) == Some(n as u8),
        !is_whitespace(crate::bytes::hex_digit(n)),
        crate::bytes::hex_digit(n) != ',',
{
}

/// The hexadecimal text of 32 bytes is read back as those bytes.
pub proof fn lemma_hex_text_reads_back(bytes: Seq<u8>)
    requires
        bytes.len() == 32,
    ensures
        is_hex32(hex_text(bytes)),
        hex32_bytes(hex_text(bytes)) == bytes,
{
    let text = hex_text(bytes);
    assert forall|i: int| 0 <= i < 64 implies (#[trigger] hex_value(text[i])) is Some by {
        lemma_hex_digit_reads_back(bytes[i / 2] as int / 16);
        lemma_hex_digit_reads_back(bytes[i / 2] as int % 16);
    }
    assert forall|i: int| 0 <= i < 32 implies hex32_bytes(text)[i] == bytes[i] by {
        lemma_hex_digit_reads_back(bytes[i] as int / 16);
        lemma_hex_digit_reads_back(bytes[i] as int % 16);
        assert(text[2 * i] == crate::bytes::hex_digit(bytes[(2 * i) / 2] as int / 16));
        assert(text[2 * i + 1] == crate::bytes::hex_digit(bytes[(2 * i + 1) / 2] as int % 16));
    }
    assert(hex32_bytes(text) =~= bytes);
}

/// Framing adds nothing that trimming does not take away: a text that neither starts
/// nor ends with white space is read back from its line as it was.
pub proof fn lemma_framed_text_is_trimmed_back(text: Seq<char>)
    requires
        text.len() > 0 ==> !is_whitespace(text[0]) && !is_whitespace(text.last()),
    ensures
        trimmed(framed(text)) == text,
{
    let line = framed(text);
    assert(line.last() == '\n');
    assert(is_whitespace('\n'));
    if text.len() == 0 {
        assert(line[0] == '\n');
        lemma_trim_start(line, 1);
        assert(line.skip(1) =~= Seq::<char>::empty());
    } else {
        assert(line[0] == text[0]);
        assert(trim_start(line) == line);
        lemma_trim_end(line, text.len() as int);
        assert(line.take(text.len() as int) =~= text);
    }
}

/// A commitment hash is read back from the line that was written for it.
pub proof fn lemma_hash_line_reads_back(hash: Seq<u8>)
    requires
        hash.len() == 32,
    ensures
        hash_in(framed(hex_text(hash))) == Ok::<Seq<u8>, Abort>(hash),
{
    lemma_hex_text_reads_back(hash);
    lemma_hex_digit_reads_back(hash[0] as int / 16);
    lemma_hex_digit_reads_back(hash[31] as int % 16);
    lemma_framed_text_is_trimmed_back(hex_text(hash));
}

/// A transaction identifier is read back from the line that was written for it.
pub proof fn lemma_txid_line_reads_back(txid: Seq<u8>)
    requires
        txid.len() == 32,
    ensures
        txid_in(framed(hex_text(txid.reverse()))) == Ok::<Seq<u8>, Abort>(txid),
{
    let back = txid.reverse();
    lemma_hex_text_reads_back(back);
    lemma_hex_digit_reads_back(back[0] as int / 16);
    lemma_hex_digit_reads_back(back[31] as int % 16);
    lemma_framed_text_is_trimmed_back(hex_text(back));
    assert(back.reverse() =~= txid);
}

/// Every line has at least one token.
pub proof fn lemma_tokens_exist(s: Seq<char>)
    ensures
        tokens_of(s).len() > 0,
    decreases s.len(),
{
    if s.len() > 0 {
        lemma_tokens_exist(s.drop_last());
    }
}

/// Text without a comma that follows a line becomes part of the line's last token.
pub proof fn lemma_tokens_extend(s: Seq<char>, t: Seq<char>)
    requires
        forall|i: int| 0 <= i < t.len() ==> t[i] != ',',
    ensures
        tokens_of(s).len() > 0,
        tokens_of(s + t) == tokens_of(s).drop_last().push(tokens_of(s).last() + t),
    decreases t.len(),
{
    lemma_tokens_exist(s);
    let tokens = tokens_of(s);
    if t.len() == 0 {
        assert(s + t =~= s);
        assert(tokens.last() + t =~= tokens.last());
        assert(tokens.drop_last().push(tokens.last()) =~= tokens);
    } else {
        let front = t.drop_last();
        lemma_tokens_extend(s, front);
        assert((s + t).drop_last() =~= s + front);
        assert((s + t).last() == t.last());
        let before = tokens_of(s + front);
        assert(before.drop_last() =~= tokens.drop_last());
        assert(before.last().push(t.last()) =~= tokens.last() + t);
    }
}

/// Tokens without commas are read back from the line that joins them: splitting
/// undoes joining.
pub proof fn lemma_tokens_read_back(tokens: Seq<Seq<char>>)
    requires
        tokens.len() > 0,
        forall|i: int, j: int|
            0 <= i < tokens.len() && 0 <= j < tokens[i].len() ==> tokens[i][j] != ',',
    ensures
        tokens_of(joined(tokens)) == tokens,
    decreases tokens.len(),
{
    let empty = Seq::<char>::empty();
    if tokens.len() == 1 {
        lemma_tokens_extend(empty, tokens[0]);
        assert(empty + tokens[0] =~= tokens[0]);
        assert(tokens_of(empty) =~= seq![empty]);
        assert(seq![empty].drop_last().push(empty + tokens[0]) =~= tokens);
    } else {
        let front = tokens.drop_last();
        assert forall|i: int, j: int|
            0 <= i < front.len() && 0 <= j < front[i].len() implies front[i][j] != ',' by {
            assert(front[i] == tokens[i]);
        }
        lemma_tokens_read_back(front);
        let head = joined(front) + seq![','];
        assert(head.drop_last() =~= joined(front));
        assert(head.last() == ',');
        assert(tokens_of(head) == front.push(empty));
        lemma_tokens_extend(head, tokens.last());
        assert(front.push(empty).drop_last() =~= front);
        assert(empty + tokens.last() =~= tokens.last());
        assert(front.push(tokens.last()) =~= tokens);
    }
}

/// The hexadecimal texts of keys, joined into a line and framed, are read back as
/// those texts.
pub proof fn lemma_key_line_reads_back(keys: Seq<Seq<u8>>)
    requires
        keys.len() > 0,
        forall|i: int| 0 <= i < keys.len() ==> (#[trigger] keys[i]).len() > 0,
    ensures
        tokens_of(trimmed(framed(joined(keys.map_values(|k: Seq<u8>| hex_text(k))))))
            == keys.map_values(|k: Seq<u8>| hex_text(k)),
{
    let texts = keys.map_values(|k: Seq<u8>| hex_text(k));
    assert forall|i: int, j: int| 0 <= i < texts.len() && 0 <= j < texts[i].len() implies texts[i][j]
        != ',' && !is_whitespace(texts[i][j]) by {
        lemma_hex_digit_reads_back(keys[i][j / 2] as int / 16);
        lemma_hex_digit_reads_back(keys[i][j / 2] as int % 16);
    }
    lemma_tokens_read_back(texts);
    lemma_joined_ends(texts);
    lemma_framed_text_is_trimmed_back(joined(texts));
}

/// A line that joins texts, none of them empty, starts as its first text starts and
/// ends as its last text ends.
pub proof fn lemma_joined_ends(texts: Seq<Seq<char>>)
    requires
        texts.len() > 0,
        forall|i: int| 0 <= i < texts.len() ==> (#[trigger] texts[i]).len() > 0,
    ensures
        joined(texts).len() > 0,
        joined(texts)[0] == texts[0][0],
        joined(texts).last() == texts.last().last(),
    decreases texts.len(),
{
    if texts.len() > 1 {
        let front = texts.drop_last();
        assert forall|i: int| 0 <= i < front.len() implies (#[trigger] front[i]).len() > 0 by {
            assert(front[i] == texts[i]);
        }
        lemma_joined_ends(front);
        assert(front[0] == texts[0]);
    }
}

} // verus!
