//! Tiny screen-agnostic notification banner.
//!
//! A single slot holds one message at a time.  Showing a message replaces
//! whatever was there; the message is truncated to the longest prefix of
//! whole characters that fits in [`TOAST_LEN`] bytes of UTF-8.  Any
//! subsequent button press dismisses the banner.
use vstd::prelude::*;

verus! {

/// Maximum length of one toast message, in UTF-8 bytes.
pub const TOAST_LEN: usize = 48;

#[verifier::external_type_specification]
#[verifier::external_body]
pub struct ExHeaplessString<const N: usize>(heapless::String<N>);

/// The characters held by a toast buffer.
pub uninterp spec fn toast_chars(s: heapless::String<48>) -> Seq<char>;

/// Number of bytes of the UTF-8 encoding of `c`.
pub open spec fn char_len_utf8(c: char) -> nat {
    if (c as u32) < 0x80 {
        1
    } else if (c as u32) < 0x800 {
        2
    } else if (c as u32) < 0x10000 {
        3
    } else {
        4
    }
}

/// Number of bytes of the UTF-8 encoding of `s`.
pub open spec fn utf8_len(s: Seq<char>) -> nat
    decreases s.len(),
{
    if s.len() == 0 {
        0
    } else {
        utf8_len(s.drop_last()) + char_len_utf8(s.last())
    }
}

/// The longest prefix of `chars` whose UTF-8 encoding fits in `room` bytes,
/// taken character by character from the front.
pub open spec fn spec_fit(chars: Seq<char>, room: int) -> Seq<char>
    decreases chars.len(),
{
    if chars.len() == 0 {
        Seq::empty()
    } else if char_len_utf8(chars[0]) <= room {
        seq![chars[0]] + spec_fit(chars.drop_first(), room - char_len_utf8(chars[0]))
    } else {
        Seq::empty()
    }
}

/// `heapless::String::<48>::new`: an empty buffer.
#[verifier::external_body]
fn toast_buf_new() -> (s: heapless::String<48>)
    ensures
        toast_chars(s) == Seq::<char>::empty(),
{
    heapless::String::new()
}

/// `heapless::String::<48>::push`: appends `c` when its UTF-8 bytes still
/// fit in the 48-byte capacity, otherwise leaves the buffer unchanged and
/// returns an error.
#[verifier::external_body]
fn toast_buf_push(s: &mut heapless::String<48>, c: char) -> (r: Result<(), ()>)
    ensures
        utf8_len(toast_chars(*old(s))) + char_len_utf8(c) <= 48 ==> r is Ok && toast_chars(
            *final(s),
        ) == toast_chars(*old(s)).push(c),
        utf8_len(toast_chars(*old(s))) + char_len_utf8(c) > 48 ==> r is Err && toast_chars(
            *final(s),
        ) == toast_chars(*old(s)),
{
    s.push(c)
}

/// `heapless::String::<48>::as_str`: the buffer's text.
#[verifier::external_body]
fn toast_buf_as_str(s: &heapless::String<48>) -> (r: &str)
    ensures
        r@ == toast_chars(*s),
{
    s.as_str()
}

/// The buffer holding `msg` truncated to the longest prefix of whole
/// characters that fits in 48 bytes.
pub fn truncate_message(msg: &str) -> (s: heapless::String<48>)
    ensures
        toast_chars(s) == spec_fit(msg@, TOAST_LEN as int),
{
    let mut s = toast_buf_new();
    let n = msg.unicode_len();
    let mut i: usize = 0;
    proof {
        assert(msg@.skip(0) =~= msg@);
        assert(msg@.skip(n as int) =~= Seq::<char>::empty());
    }
    while i < n
        invariant_except_break
            i <= n,
            n == msg@.len(),
            msg@.skip(n as int) == Seq::<char>::empty(),
            utf8_len(toast_chars(s)) <= 48,
            toast_chars(s) + spec_fit(msg@.skip(i as int), 48 - utf8_len(toast_chars(s)))
                == spec_fit(msg@, 48),
        ensures
            toast_chars(s) == spec_fit(msg@, 48),
        decreases n - i,
    {
        let ch = msg.get_char(i);
        let ghost before = toast_chars(s);
        let ghost rest = msg@.skip(i as int);
        assert(rest[0] == ch);
        match toast_buf_push(&mut s, ch) {
            Ok(()) => {
                proof {
                    assert(rest.drop_first() =~= msg@.skip(i + 1));
                    assert(toast_chars(s).drop_last() =~= before);
                    assert(before + (seq![ch] + spec_fit(rest.drop_first(), 48 - utf8_len(before)
                        - char_len_utf8(ch))) =~= toast_chars(s) + spec_fit(
                        rest.drop_first(),
                        48 - utf8_len(before) - char_len_utf8(ch),
                    ));
                }
            },
            Err(()) => {
                proof {
                    assert(before + Seq::<char>::empty() =~= before);
                }
                break ;
            },
        }
        i = i + 1;
    }
    s
}

/// The banner slot: empty, or one message.
pub struct ToastSlot {
    msg: Option<heapless::String<48>>,
}

impl ToastSlot {
    /// The text shown, if any.
    pub closed spec fn shown(&self) -> Option<Seq<char>> {
        match self.msg {
            Some(s) => Some(toast_chars(s)),
            None => None,
        }
    }

    /// An empty slot.
    pub fn new() -> (t: ToastSlot)
        ensures
            t.shown() is None,
    {
        ToastSlot { msg: None }
    }

    /// Replace the current toast (if any) with `msg`, truncated silently to
    /// the longest prefix of whole characters that fits in [`TOAST_LEN`] bytes.
    pub fn show(&mut self, msg: &str)
        ensures
            final(self).shown() == Some(spec_fit(msg@, TOAST_LEN as int)),
    {
        self.msg = Some(truncate_message(msg));
    }

    /// Clear any pending toast.
    pub fn dismiss(&mut self)
        ensures
            final(self).shown() is None,
    {
        self.msg = None;
    }

    /// Is a toast shown?
    pub fn is_active(&self) -> (b: bool)
        ensures
            b == self.shown() is Some,
    {
        self.msg.is_some()
    }

    /// The text shown, if any.
    pub fn text(&self) -> (t: Option<&str>)
        ensures
            t is None <==> self.shown() is None,
            t matches Some(s) ==> self.shown() == Some(s@),
    {
        match &self.msg {
            Some(s) => Some(toast_buf_as_str(s)),
            None => None,
        }
    }
}

/// The stored text is a prefix of the message that fits in `room` bytes,
/// the longest one: one more character would not fit; a message that fits
/// is stored whole.
pub proof fn lemma_fit_is_prefix(chars: Seq<char>, room: int)
    requires
        room >= 0,
    ensures
        spec_fit(chars, room).len() <= chars.len(),
        spec_fit(chars, room) == chars.take(spec_fit(chars, room).len() as int),
        utf8_len(spec_fit(chars, room)) <= room,
        utf8_len(chars) <= room ==> spec_fit(chars, room) == chars,
        spec_fit(chars, room).len() < chars.len() ==> utf8_len(
            chars.take(spec_fit(chars, room).len() as int + 1),
        ) > room,
    decreases chars.len(),
{
    if chars.len() > 0 {
        let c = chars[0];
        let rest = chars.drop_first();
        assert(seq![c] + rest =~= chars);
        lemma_utf8_len_cons(c, rest);
        if char_len_utf8(c) <= room {
            lemma_fit_is_prefix(rest, room - char_len_utf8(c));
            let f = spec_fit(rest, room - char_len_utf8(c));
            assert(spec_fit(chars, room) =~= chars.take(f.len() as int + 1));
            lemma_utf8_len_cons(c, f);
            if f.len() < rest.len() {
                let more = rest.take(f.len() as int + 1);
                assert(chars.take(f.len() as int + 2) =~= seq![c] + more);
                lemma_utf8_len_cons(c, more);
            }
        } else {
            assert(chars.take(0) =~= Seq::<char>::empty());
            assert(chars.take(1) =~= seq![c] + Seq::<char>::empty());
            lemma_utf8_len_cons(c, Seq::<char>::empty());
            assert(utf8_len(Seq::<char>::empty()) == 0);
        }
    } else {
        assert(chars.take(0) =~= Seq::<char>::empty());
    }
}

/// The byte length of a sequence is that of its first character plus the rest.
pub proof fn lemma_utf8_len_cons(c: char, rest: Seq<char>)
    ensures
        utf8_len(seq![c] + rest) == char_len_utf8(c) + utf8_len(rest),
    decreases rest.len(),
{
    let s = seq![c] + rest;
    if rest.len() == 0 {
        assert(s.drop_last() =~= Seq::<char>::empty());
        assert(s.last() == c);
        assert(utf8_len(rest) == 0);
        assert(utf8_len(s.drop_last()) == 0);
        assert(utf8_len(s) == utf8_len(s.drop_last()) + char_len_utf8(s.last()));
    } else {
        assert(s.drop_last() =~= seq![c] + rest.drop_last());
        assert(s.last() == rest.last());
        lemma_utf8_len_cons(c, rest.drop_last());
        assert(utf8_len(s) == utf8_len(s.drop_last()) + char_len_utf8(s.last()));
        assert(utf8_len(rest) == utf8_len(rest.drop_last()) + char_len_utf8(rest.last()));
    }
}

} // verus!
