//! MeshCore message presentation: splitting group texts into sender and
//! body, display fields of bounded size, hex key fingerprints, and the
//! name carried in our adverts.
use vstd::prelude::*;
use vstd::utf8::{decode_utf8, valid_utf8};
use crate::text::{hex_lower, spec_hex_lower, str_from_utf8, string_push};

verus! {

/// Capacity of the sender field of a stored group message, in bytes.
pub const SENDER_CAP: usize = 32;
/// Capacity of the text field of a stored group message, in bytes.
pub const TEXT_CAP: usize = 128;
/// Longest advertised name, in bytes.
pub const ADVERT_NAME_MAX: usize = 32;

/// `i` is the first position of ": " in `s`.
pub open spec fn spec_is_first_sep(s: Seq<char>, i: int) -> bool {
    &&& 0 <= i && i + 1 < s.len()
    &&& s[i] == ':' && s[i + 1] == ' '
    &&& forall|j: int| 0 <= j < i ==> !(#[trigger] s[j] == ':' && s[j + 1] == ' ')
}

/// `s` holds ": " somewhere.
pub open spec fn spec_has_sep(s: Seq<char>) -> bool {
    exists|i: int| 0 <= i && i + 1 < s.len() && #[trigger] s[i] == ':' && s[i + 1] == ' '
}

/// Split a decrypted group text "sender: message" at the first ": ".
/// Without a separator the whole text is the message and the sender is empty.
pub fn split_sender(text: &str) -> (r: (&str, &str))
    ensures
        spec_has_sep(text@) ==> exists|i: int|
            spec_is_first_sep(text@, i) && r.0@ == text@.subrange(0, i) && r.1@ == text@.subrange(
                i + 2,
                text@.len() as int,
            ),
        !spec_has_sep(text@) ==> r.0@ == Seq::<char>::empty() && r.1@ == text@,
{
    let n = text.unicode_len();
    let mut i: usize = 0;
    while i < n && i + 1 < n
        invariant
            i <= n,
            n == text@.len(),
            forall|j: int| 0 <= j < i ==> !(#[trigger] text@[j] == ':' && text@[j + 1] == ' '),
        decreases n - i,
    {
        if text.get_char(i) == ':' && text.get_char(i + 1) == ' ' {
            let sender = text.substring_char(0, i);
            let msg = text.substring_char(i + 2, n);
            assert(spec_is_first_sep(text@, i as int));
            return (sender, msg);
        }
        i += 1;
    }
    proof {
        reveal_strlit("");
        assert(""@ =~= Seq::<char>::empty());
        assert forall|j: int| 0 <= j && j + 1 < text@.len() implies !(#[trigger] text@[j] == ':'
            && text@[j + 1] == ' ') by {}
    }
    ("", text)
}

/// A string field of capacity `cap` bytes set from `s`: the whole string
/// if it fits, otherwise nothing at all.
pub fn fit_or_empty(s: &str, cap: usize) -> (r: &str)
    ensures
        s.len() <= cap ==> r@ == s@,
        s.len() > cap ==> r@ == Seq::<char>::empty(),
{
    if s.len() <= cap {
        s
    } else {
        proof {
            reveal_strlit("");
            assert(""@ =~= Seq::<char>::empty());
        }
        ""
    }
}

/// The name carried in an advert: the first 32 bytes of `name`; none when
/// `name` is empty.
pub fn advert_name(name: &[u8]) -> (r: Option<Vec<u8>>)
    ensures
        name@.len() == 0 ==> r is None,
        name@.len() > 0 ==> (r matches Some(v) && v@ == name@.take(
            if name@.len() < ADVERT_NAME_MAX { name@.len() as int } else { ADVERT_NAME_MAX as int },
        )),
{
    let len = name.len();
    let n = if len < ADVERT_NAME_MAX {
        len
    } else {
        ADVERT_NAME_MAX
    };
    if n == 0 {
        return None;
    }
    let mut v: Vec<u8> = Vec::new();
    let mut k: usize = 0;
    while k < n
        invariant
            k <= n <= name@.len(),
            v@ == name@.take(k as int),
        decreases n - k,
    {
        v.push(name[k]);
        assert(v@ =~= name@.take(k + 1));
        k += 1;
    }
    Some(v)
}

/// A received byte field as text: the bytes decoded as UTF-8, or
/// `fallback` when they are not valid UTF-8 (decrypted texts fall back to
/// "<invalid utf-8>", advertised names to "?").
pub fn utf8_or<'a>(bytes: &'a [u8], fallback: &'a str) -> (s: &'a str)
    ensures
        valid_utf8(bytes@) ==> s@ == decode_utf8(bytes@),
        !valid_utf8(bytes@) ==> s@ == fallback@,
{
    match str_from_utf8(bytes) {
        Some(t) => t,
        None => fallback,
    }
}

/// Lower-case hex of the first `n` bytes of a public key (the short
/// fingerprint shown for adverts and unknown senders).
pub fn key_fingerprint(pub_key: &[u8], n: usize) -> (s: String)
    requires
        n <= pub_key@.len(),
    ensures
        s@ == spec_hex_lower(pub_key@.take(n as int)),
{
    hex_lower(vstd::slice::slice_subrange(pub_key, 0, n))
}

/// Number of key bytes in the fallback name of an unnamed sender.
pub const PM_FINGERPRINT_BYTES: usize = 8;

/// The name shown for a private message: the contact's name, or the hex
/// fingerprint of the first eight key bytes when the contact has no name.
pub fn pm_display_name(sender_name: &str, sender_pk: &[u8]) -> (s: String)
    requires
        sender_pk@.len() >= PM_FINGERPRINT_BYTES,
    ensures
        sender_name@.len() == 0 ==> s@ == spec_hex_lower(sender_pk@.take(PM_FINGERPRINT_BYTES as int)),
        sender_name@.len() > 0 ==> s@ == sender_name@,
{
    if sender_name.unicode_len() == 0 {
        key_fingerprint(sender_pk, PM_FINGERPRINT_BYTES)
    } else {
        let mut s = String::new();
        let n = sender_name.unicode_len();
        let mut i: usize = 0;
        while i < n
            invariant
                i <= n,
                n == sender_name@.len(),
                s@ == sender_name@.take(i as int),
            decreases n - i,
        {
            string_push(&mut s, sender_name.get_char(i));
            assert(s@ =~= sender_name@.take(i + 1));
            i += 1;
        }
        assert(sender_name@.take(n as int) =~= sender_name@);
        s
    }
}

} // verus!
