//! The texts that are kept from the parser.
//!
//! `sqlparser` 0.54 unwraps two inner parses: the channel name after
//! `FLUSH RELAY LOGS FOR CHANNEL`, and the identifier after `GRANTED BY` in
//! `GRANT` and `REVOKE`. Where those are missing it panics instead of
//! returning an error. The parser knows a keyword by upper-casing an unquoted
//! word; the only letters outside ASCII that upper-case into ASCII (`ß`, `ſ`,
//! `ı` and the ligatures `ﬀ` to `ﬆ`) give `S`, `I`, `F`, `L` or `T` in runs
//! that none of `GRANTED`, `RELAY` and `CHANNEL` holds. So a text that can
//! reach either unwrap holds the ASCII letters of `granted`, or of both
//! `relay` and `channel`, in some case, in its UTF-8 bytes. Such texts are
//! refused before the parser sees them, and so are texts longer than
//! [`MAX_TEXT_BYTES`]: the syntax tree is mapped by recursion, once per level
//! of nesting, and every level takes at least one byte of the text.

use vstd::prelude::*;
use vstd::utf8::encode_utf8;

verus! {

/// The longest text, in bytes of UTF-8, that is handed to the parser.
pub const MAX_TEXT_BYTES: usize = 2048;

/// Byte `b` is the lower-case ASCII letter or sign `w`, in either case.
pub open spec fn folds_to(b: u8, w: u8) -> bool {
    b == w || (97 <= w <= 122 && b + 32 == w)
}

/// `word` (in lower case) stands in `bytes` from position `at` on, ignoring ASCII case.
pub open spec fn word_at(bytes: Seq<u8>, word: Seq<u8>, at: int) -> bool {
    &&& 0 <= at
    &&& at + word.len() <= bytes.len()
    &&& forall|k: int| 0 <= k < word.len() ==> folds_to(#[trigger] bytes[at + k], word[k])
}

/// `word` (in lower case) stands somewhere in `bytes`, ignoring ASCII case.
pub open spec fn holds_word(bytes: Seq<u8>, word: Seq<u8>) -> bool {
    exists|at: int| word_at(bytes, word, at)
}

/// `granted`
pub open spec fn granted_word() -> Seq<u8> {
    seq![103u8, 114u8, 97u8, 110u8, 116u8, 101u8, 100u8]
}

/// `relay`
pub open spec fn relay_word() -> Seq<u8> {
    seq![114u8, 101u8, 108u8, 97u8, 121u8]
}

/// `channel`
pub open spec fn channel_word() -> Seq<u8> {
    seq![99u8, 104u8, 97u8, 110u8, 110u8, 101u8, 108u8]
}

/// The text is too long to be handed to the parser.
pub open spec fn too_long(text: Seq<char>) -> bool {
    encode_utf8(text).len() > MAX_TEXT_BYTES
}

/// The text may name `GRANTED BY`.
pub open spec fn names_granted(text: Seq<char>) -> bool {
    holds_word(encode_utf8(text), granted_word())
}

/// The text may name `RELAY LOGS FOR CHANNEL`.
pub open spec fn names_channel(text: Seq<char>) -> bool {
    holds_word(encode_utf8(text), relay_word()) && holds_word(encode_utf8(text), channel_word())
}

/// The text is one that the parser is never handed.
pub open spec fn kept_from_parser(text: Seq<char>) -> bool {
    too_long(text) || names_granted(text) || names_channel(text)
}

/// Whether `word` stands in `bytes` from `at` on, ignoring ASCII case.
fn matches_at(bytes: &[u8], word: &[u8], at: usize) -> (r: bool)
    requires
        at + word@.len() <= bytes@.len(),
    ensures
        r == word_at(bytes@, word@, at as int),
{
    let m = word.len();
    let n = bytes.len();
    let mut k: usize = 0;
    while k < m
        invariant
            m == word@.len(),
            n == bytes@.len(),
            at + m <= n,
            k <= m,
            forall|j: int| 0 <= j < k ==> folds_to(#[trigger] bytes@[at + j], word@[j]),
        decreases m - k,
    {
        let b = bytes[at + k];
        let w = word[k];
        let same = b == w || (97 <= w && w <= 122 && (b as u16) + 32 == (w as u16));
        if !same {
            assert(!folds_to(bytes@[at + k], word@[k as int]));
            return false;
        }
        k = k + 1;
    }
    true
}

/// Whether `word` stands anywhere in `bytes`, ignoring ASCII case.
fn holds(bytes: &[u8], word: &[u8]) -> (r: bool)
    ensures
        r == holds_word(bytes@, word@),
{
    let n = bytes.len();
    let m = word.len();
    if m > n {
        assert forall|at: int| !word_at(bytes@, word@, at) by {}
        return false;
    }
    let last = n - m;
    let mut at: usize = 0;
    while at <= last
        invariant
            n == bytes@.len(),
            m == word@.len(),
            last == n - m,
            at <= last + 1,
            forall|a: int| 0 <= a < at ==> !word_at(bytes@, word@, a),
        decreases last + 1 - at,
    {
        if matches_at(bytes, word, at) {
            return true;
        }
        at = at + 1;
    }
    assert forall|a: int| !word_at(bytes@, word@, a) by {
        if 0 <= a < at {
        }
    }
    false
}

pub open spec fn spec_screen(text: Seq<char>) -> Option<Seq<char>> {
    if too_long(text) {
        Some("text longer than 2048 bytes"@)
    } else if names_granted(text) {
        Some("GRANTED"@)
    } else if names_channel(text) {
        Some("RELAY LOGS FOR CHANNEL"@)
    } else {
        None
    }
}

/// The construct for which a text is kept from the parser, if it is.
pub fn screen(text: &str) -> (r: Option<&'static str>)
    ensures
        match r {
            Some(construct) => spec_screen(text@) == Some(construct@),
            None => spec_screen(text@) is None,
        },
        r is None <==> !kept_from_parser(text@),
{
    let bytes = text.as_bytes();
    if bytes.len() > MAX_TEXT_BYTES {
        return Some("text longer than 2048 bytes");
    }
    let granted: [u8; 7] = [103, 114, 97, 110, 116, 101, 100];
    if holds(bytes, &granted) {
        return Some("GRANTED");
    }
    let relay: [u8; 5] = [114, 101, 108, 97, 121];
    let channel: [u8; 7] = [99, 104, 97, 110, 110, 101, 108];
    if holds(bytes, &relay) && holds(bytes, &channel) {
        return Some("RELAY LOGS FOR CHANNEL");
    }
    None
}

} // verus!
