//! Friends screen — pets met on the mesh "SHDW" channel.
//!
//! A full-screen overlay: scrollable list, Up/Down to scroll, any other
//! button closes it.  Shows up to four friends per screen.
use vstd::prelude::*;
use crate::text::{push_all, push_decimal, spec_decimal, string_push};
use super::friends::{spec_saturating_sub, FRIEND_BOOST_COOLDOWN_TICKS};

verus! {

/// Number of friends shown per screen.
pub const VISIBLE_ROWS: usize = 4;

/// Ticks per hour (1 tick = 10 s).
pub const TICKS_PER_HOUR: u32 = 360;

/// Open flag and scroll position of the friends screen.
#[derive(Clone, Copy, PartialEq, Eq, Structural, Debug)]
pub struct FriendsView {
    pub active: bool,
    /// Index of the first friend shown.
    pub scroll: u8,
}

impl FriendsView {
    /// Closed, scrolled to the top.
    pub fn new() -> (v: FriendsView)
        ensures
            v == (FriendsView { active: false, scroll: 0 }),
    {
        FriendsView { active: false, scroll: 0 }
    }

    pub fn is_active(&self) -> (b: bool)
        ensures
            b == self.active,
    {
        self.active
    }

    /// Open the screen scrolled to the top.
    pub fn open(&mut self)
        ensures
            *final(self) == (FriendsView { active: true, scroll: 0 }),
    {
        self.scroll = 0;
        self.active = true;
    }

    pub fn close(&mut self)
        ensures
            *final(self) == (FriendsView { active: false, ..*old(self) }),
    {
        self.active = false;
    }

    /// Scroll one friend up (stops at the first).
    pub fn scroll_up(&mut self)
        ensures
            *final(self) == (FriendsView {
                scroll: if old(self).scroll > 0 { (old(self).scroll - 1) as u8 } else { 0 },
                ..*old(self)
            }),
    {
        let s = self.scroll;
        if s > 0 {
            self.scroll = s - 1;
        }
    }

    /// Scroll one friend down, among `count` known friends (stops at the last).
    pub fn scroll_down(&mut self, count: u8)
        requires
            old(self).scroll < 255,
        ensures
            *final(self) == (FriendsView {
                scroll: if old(self).scroll + 1 < count {
                    (old(self).scroll + 1) as u8
                } else {
                    old(self).scroll
                },
                ..*old(self)
            }),
    {
        let s = self.scroll;
        if s + 1 < count {
            self.scroll = s + 1;
        }
    }
}

/// Number of rows drawn for `count` friends scrolled to `scroll`.
pub fn visible_rows(count: u8, scroll: u8) -> (n: usize)
    requires
        scroll <= count,
    ensures
        n == if count - scroll < VISIBLE_ROWS { count - scroll } else { VISIBLE_ROWS as int },
{
    let left = (count - scroll) as usize;
    if left < VISIBLE_ROWS {
        left
    } else {
        VISIBLE_ROWS
    }
}

/// The friend was boosted less than the cooldown ago ("Spent time together
/// recently" rather than "Known friend").
pub fn recently_boosted(now: u32, last_boost_tick: u32) -> (b: bool)
    ensures
        b == (spec_saturating_sub(now, last_boost_tick) < FRIEND_BOOST_COOLDOWN_TICKS),
{
    let elapsed = if now >= last_boost_tick {
        now - last_boost_tick
    } else {
        0
    };
    elapsed < FRIEND_BOOST_COOLDOWN_TICKS
}

/// "{days}d {hours}h" for a span of ticks.
pub open spec fn spec_since_str(ticks: u32) -> Seq<char> {
    let hours = ticks / TICKS_PER_HOUR;
    spec_decimal((hours / 24) as nat) + seq!['d', ' '] + spec_decimal((hours % 24) as nat) + seq![
        'h',
    ]
}

/// Format ticks-since-first-met as "Xd Yh" (1 tick = 10 s).
pub fn since_str(ticks: u32) -> (s: String)
    ensures
        s@ == spec_since_str(ticks),
{
    let hours = ticks / TICKS_PER_HOUR;
    let days = hours / 24;
    let mut s = String::new();
    push_decimal(&mut s, days);
    string_push(&mut s, 'd');
    string_push(&mut s, ' ');
    push_decimal(&mut s, hours % 24);
    string_push(&mut s, 'h');
    assert(s@ =~= spec_since_str(ticks));
    s
}

/// "{scroll + 1}/{count}": the scroll indicator shown when more than four
/// friends are known.
pub fn scroll_indicator(scroll: u8, count: u8) -> (s: Option<String>)
    ensures
        count as usize <= VISIBLE_ROWS ==> s is None,
        count as usize > VISIBLE_ROWS ==> (s matches Some(t) && t@ == spec_decimal((scroll + 1) as nat)
            + seq!['/'] + spec_decimal(count as nat)),
{
    if count as usize > VISIBLE_ROWS {
        let mut s = String::new();
        push_decimal(&mut s, scroll as u32 + 1);
        string_push(&mut s, '/');
        push_decimal(&mut s, count as u32);
        assert(s@ =~= spec_decimal((scroll + 1) as nat) + seq!['/'] + spec_decimal(count as nat));
        Some(s)
    } else {
        None
    }
}

/// Capacity of one friend line, in bytes.
pub const LINE_CAP: usize = 28;

/// Pieces of text, each with its length in bytes, written one after the
/// other into `room` bytes: writing stops at the first piece that does not
/// fit whole.
pub open spec fn spec_fill(pieces: Seq<(Seq<char>, int)>, room: int) -> Seq<char>
    decreases pieces.len(),
{
    if pieces.len() == 0 {
        Seq::empty()
    } else if pieces[0].1 <= room {
        pieces[0].0 + spec_fill(pieces.drop_first(), room - pieces[0].1)
    } else {
        Seq::empty()
    }
}

/// The pieces of a friend line: "{name} ({kind}) - {since}", or
/// "{kind} - {since}" for a friend without a name.
pub open spec fn spec_line_pieces(name: &str, kind: &str, since: &str) -> Seq<(Seq<char>, int)> {
    if name@.len() == 0 {
        seq![(kind@, kind.len() as int), (seq![' ', '-', ' '], 3), (since@, since.len() as int)]
    } else {
        seq![
            (name@, name.len() as int),
            (seq![' ', '('], 2),
            (kind@, kind.len() as int),
            (seq![')', ' ', '-', ' '], 4),
            (since@, since.len() as int),
        ]
    }
}

/// The first line of a friend's row, written into `LINE_CAP` bytes.
pub fn friend_line(name: &str, kind: &str, since: &str) -> (s: String)
    ensures
        s@ == spec_fill(spec_line_pieces(name, kind, since), LINE_CAP as int),
{
    let ghost pieces = spec_line_pieces(name, kind, since);
    let ghost dash: Seq<char> = seq![' ', '-', ' '];
    let ghost open: Seq<char> = seq![' ', '('];
    let ghost close: Seq<char> = seq![')', ' ', '-', ' '];
    let ghost last = seq![(since@, since.len() as int)];
    let ghost empty = Seq::<(Seq<char>, int)>::empty();
    assert(last.drop_first() =~= empty);
    let mut s = String::new();
    if name.unicode_len() == 0 {
        let ghost p1 = seq![(dash, 3int)] + last;
        assert(pieces =~= seq![(kind@, kind.len() as int)] + p1);
        assert(pieces.drop_first() =~= p1);
        assert(p1.drop_first() =~= last);
        if kind.len() <= LINE_CAP {
            push_all(&mut s, kind);
            let room = LINE_CAP - kind.len();
            assert(spec_fill(pieces, LINE_CAP as int) == kind@ + spec_fill(p1, room as int));
            if 3 <= room {
                string_push(&mut s, ' ');
                string_push(&mut s, '-');
                string_push(&mut s, ' ');
                assert(spec_fill(p1, room as int) == dash + spec_fill(last, room - 3));
                if since.len() <= room - 3 {
                    push_all(&mut s, since);
                    assert(spec_fill(last, room - 3) == since@ + spec_fill(empty, room - 3 - since.len()));
                } else {
                    assert(spec_fill(last, room - 3) == Seq::<char>::empty());
                }
            } else {
                assert(spec_fill(p1, room as int) == Seq::<char>::empty());
            }
        }
        assert(s@ =~= spec_fill(pieces, LINE_CAP as int));
    } else {
        let ghost p3 = seq![(close, 4int)] + last;
        let ghost p2 = seq![(kind@, kind.len() as int)] + p3;
        let ghost p1 = seq![(open, 2int)] + p2;
        assert(pieces =~= seq![(name@, name.len() as int)] + p1);
        assert(pieces.drop_first() =~= p1);
        assert(p1.drop_first() =~= p2);
        assert(p2.drop_first() =~= p3);
        assert(p3.drop_first() =~= last);
        if name.len() <= LINE_CAP {
            push_all(&mut s, name);
            let room = LINE_CAP - name.len();
            assert(spec_fill(pieces, LINE_CAP as int) == name@ + spec_fill(p1, room as int));
            if 2 <= room {
                string_push(&mut s, ' ');
                string_push(&mut s, '(');
                let room = room - 2;
                assert(spec_fill(p1, room + 2) == open + spec_fill(p2, room as int));
                if kind.len() <= room {
                    push_all(&mut s, kind);
                    let room = room - kind.len();
                    assert(spec_fill(p2, room + kind.len()) == kind@ + spec_fill(p3, room as int));
                    if 4 <= room {
                        string_push(&mut s, ')');
                        string_push(&mut s, ' ');
                        string_push(&mut s, '-');
                        string_push(&mut s, ' ');
                        assert(spec_fill(p3, room as int) == close + spec_fill(last, room - 4));
                        if since.len() <= room - 4 {
                            push_all(&mut s, since);
                            assert(spec_fill(last, room - 4) == since@ + spec_fill(empty, room - 4 - since.len()));
                        } else {
                            assert(spec_fill(last, room - 4) == Seq::<char>::empty());
                        }
                    } else {
                        assert(spec_fill(p3, room as int) == Seq::<char>::empty());
                    }
                } else {
                    assert(spec_fill(p2, room as int) == Seq::<char>::empty());
                }
            } else {
                assert(spec_fill(p1, room as int) == Seq::<char>::empty());
            }
        }
        assert(s@ =~= spec_fill(pieces, LINE_CAP as int));
    }
    s
}

} // verus!
