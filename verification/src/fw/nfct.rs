//! NFC type-4 tag emulation: APDU parsing and the responses of the tag.
//!
//! The tag exposes two files, the capability container (CC) and an NDEF
//! message holding a URI record.  The reader selects the NDEF application,
//! selects a file, then reads it in pieces.
use vstd::prelude::*;

verus! {

/// A command APDU.
#[derive(Clone, Copy, Debug)]
pub struct Apdu<'a> {
    pub cla: u8,
    pub ins: u8,
    pub p1: u8,
    pub p2: u8,
    pub data: &'a [u8],
    pub le: u16,
}

/// The APDU is malformed.
#[derive(Clone, Copy, PartialEq, Eq, Structural, Debug)]
pub struct ApduParseError;

/// Data and expected length of an APDU body of `s`, per the short-APDU
/// cases: no body; Le only; Lc + data; Lc + data + Le.  `None` when the
/// body fits none of them.
pub open spec fn spec_apdu_body(s: Seq<u8>) -> Option<(Seq<u8>, u16)> {
    let n = s.len() - 4;
    if n == 0 {
        Some((Seq::empty(), 0u16))
    } else if n == 1 {
        Some((Seq::empty(), s[4] as u16))
    } else if n == 1 + s[4] && s[4] != 0 {
        Some((s.subrange(5, 5 + s[4]), 0u16))
    } else if n == 2 + s[4] && s[4] != 0 {
        Some((s.subrange(5, 5 + s[4]), s[s.len() - 1] as u16))
    } else {
        None
    }
}

/// The four short-APDU layouts after a header `h`: nothing (no data,
/// Le 0); one Le byte; Lc and Lc data bytes (Le 0); Lc, the data and a
/// final Le byte.  Each gives back exactly the data and Le written.
pub proof fn lemma_apdu_cases(h: Seq<u8>, lc: u8, d: Seq<u8>, le: u8)
    requires
        h.len() == 4,
        lc > 0,
        d.len() == lc,
    ensures
        spec_apdu_body(h) == Some((Seq::<u8>::empty(), 0u16)),
        spec_apdu_body(h.push(le)) == Some((Seq::<u8>::empty(), le as u16)),
        spec_apdu_body(h.push(lc) + d) == Some((d, 0u16)),
        spec_apdu_body(h.push(lc) + d.push(le)) == Some((d, le as u16)),
{
    let s3 = h.push(lc) + d;
    let s4 = h.push(lc) + d.push(le);
    assert(s3[4] == lc);
    assert(s4[4] == lc);
    assert(s3.subrange(5, 5 + lc) =~= d);
    assert(s4.subrange(5, 5 + lc) =~= d);
    assert(s4[s4.len() - 1] == le);
    assert(h.push(le)[4] == le);
}

impl<'a> Apdu<'a> {
    /// Parse a short command APDU: the four header bytes, then an optional
    /// body (see [`spec_apdu_body`]).
    pub fn parse(apdu: &'a [u8]) -> (r: Result<Apdu<'a>, ApduParseError>)
        ensures
            apdu@.len() < 4 ==> r is Err,
            apdu@.len() >= 4 ==> match spec_apdu_body(apdu@) {
                None => r is Err,
                Some((data, le)) => r matches Ok(a) && a.cla == apdu@[0] && a.ins == apdu@[1]
                    && a.p1 == apdu@[2] && a.p2 == apdu@[3] && a.data@ == data && a.le == le,
            },
    {
        let len = apdu.len();
        if len < 4 {
            return Err(ApduParseError);
        }
        let n = len - 4;
        let (data, le): (&'a [u8], u8) = if n == 0 {
            (vstd::slice::slice_subrange(apdu, 0, 0), 0)
        } else if n == 1 {
            (vstd::slice::slice_subrange(apdu, 0, 0), apdu[4])
        } else if n == 1 + apdu[4] as usize && apdu[4] != 0 {
            (vstd::slice::slice_subrange(apdu, 5, 5 + apdu[4] as usize), 0)
        } else if n == 2 + apdu[4] as usize && apdu[4] != 0 {
            (vstd::slice::slice_subrange(apdu, 5, 5 + apdu[4] as usize), apdu[len - 1])
        } else {
            return Err(ApduParseError);
        };
        Ok(Apdu { cla: apdu[0], ins: apdu[1], p1: apdu[2], p2: apdu[3], data, le: le as u16 })
    }
}

/// The capability container file.
pub open spec fn spec_cc_file() -> Seq<u8> {
    seq![
        0x00u8, 0x0f, 0x20, 0x00, 0x7f, 0x00, 0x7f, 0x04, 0x06, 0xe1, 0x04, 0x00, 0x7f, 0x00, 0x00,
    ]
}

/// The NDEF file: length, then a URI record for embassy.dev.
pub open spec fn spec_ndef_file() -> Seq<u8> {
    seq![
        0x00u8, 0x10, 0xd1, 0x1, 0xc, 0x55, 0x4, 0x65, 0x6d, 0x62, 0x61, 0x73, 0x73, 0x79, 0x2e,
        0x64, 0x65, 0x76,
    ]
}

/// The capability container file.
pub fn cc_file() -> (f: Vec<u8>)
    ensures
        f@ == spec_cc_file(),
{
    let f = vec![0x00u8, 0x0f, 0x20, 0x00, 0x7f, 0x00, 0x7f, 0x04, 0x06, 0xe1, 0x04, 0x00, 0x7f, 0x00, 0x00];
    assert(f@ =~= spec_cc_file());
    f
}

/// The NDEF file.
pub fn ndef_file() -> (f: Vec<u8>)
    ensures
        f@ == spec_ndef_file(),
{
    let f = vec![
        0x00u8, 0x10, 0xd1, 0x1, 0xc, 0x55, 0x4, 0x65, 0x6d, 0x62, 0x61, 0x73, 0x73, 0x79, 0x2e,
        0x64, 0x65, 0x76,
    ];
    assert(f@ =~= spec_ndef_file());
    f
}

/// The file selected for reading.
#[derive(Clone, Copy, PartialEq, Eq, Structural, Debug)]
pub enum TagFile {
    Cc,
    Ndef,
}

/// The contents of a file.
pub open spec fn spec_file(f: TagFile) -> Seq<u8> {
    match f {
        TagFile::Cc => spec_cc_file(),
        TagFile::Ndef => spec_ndef_file(),
    }
}

/// The tag's state: the selected file (the CC after activation).
#[derive(Clone, Copy, PartialEq, Eq, Structural, Debug)]
pub struct Tag {
    pub selected: TagFile,
}

/// Status word: success.
pub open spec fn spec_ok() -> Seq<u8> {
    seq![0x90u8, 0x00u8]
}

/// Status word: file not found.
pub open spec fn spec_not_found() -> Seq<u8> {
    seq![0x6Au8, 0x82u8]
}

/// Offset of a READ BINARY: P1 (top bit cleared) and P2, big-endian.
pub open spec fn spec_read_offset(p1: u8, p2: u8) -> int {
    (p1 % 128) * 256 + p2
}

/// A READ BINARY past the end of the selected file.
pub open spec fn spec_read_past_end(t: Tag, a: Apdu) -> bool {
    &&& !(a.cla == 0 && a.ins == 0xa4 && a.p1 == 4 && a.p2 == 0)
    &&& !(a.cla == 0 && a.ins == 0xa4 && a.p1 == 0 && a.p2 == 12)
    &&& a.cla == 0 && a.ins == 0xb0
    &&& spec_read_offset(a.p1, a.p2) > spec_file(t.selected).len()
}

impl Tag {
    /// A tag at power-on: the CC is selected.
    pub fn new() -> (t: Tag)
        ensures
            t.selected == TagFile::Cc,
    {
        Tag { selected: TagFile::Cc }
    }

    /// The command is a READ BINARY from an offset past the end of the
    /// selected file (the tag does not answer such a read).
    pub fn reads_past_end(&self, a: &Apdu) -> (b: bool)
        ensures
            b == spec_read_past_end(*self, *a),
    {
        if a.cla == 0 && a.ins == 0xa4 && (a.p1 == 4 && a.p2 == 0 || a.p1 == 0 && a.p2 == 12) {
            return false;
        }
        if !(a.cla == 0 && a.ins == 0xb0) {
            return false;
        }
        let p1 = a.p1;
        let hi = p1 & 0x7f;
        assert(p1 & 0x7fu8 == p1 % 128) by (bit_vector);
        let offs: usize = (hi as usize) * 256 + a.p2 as usize;
        let len = match self.selected {
            TagFile::Cc => cc_file().len(),
            TagFile::Ndef => ndef_file().len(),
        };
        offs > len
    }

    /// The response to one command APDU:
    /// * SELECT application (`00 A4 04 00`): success;
    /// * SELECT file (`00 A4 00 0C`) E103 / E104: select the CC / NDEF file;
    ///   any other file id: "file not found" (`6A 82`), selection kept;
    /// * READ BINARY (`00 B0`): up to Le bytes (all for Le = 0) of the
    ///   selected file from the offset in P1/P2, then success;
    /// * anything else: `FF FF`.
    pub fn respond(&mut self, a: &Apdu) -> (resp: Vec<u8>)
        requires
            !spec_read_past_end(*old(self), *a),
        ensures
            (a.cla == 0 && a.ins == 0xa4 && a.p1 == 4 && a.p2 == 0) ==> resp@ == spec_ok()
                && *final(self) == *old(self),
            !(a.cla == 0 && a.ins == 0xa4 && a.p1 == 4 && a.p2 == 0) && (a.cla == 0 && a.ins == 0xa4
                && a.p1 == 0 && a.p2 == 12) ==> {
                if a.data@ == seq![0xe1u8, 0x03u8] {
                    resp@ == spec_ok() && final(self).selected == TagFile::Cc
                } else if a.data@ == seq![0xe1u8, 0x04u8] {
                    resp@ == spec_ok() && final(self).selected == TagFile::Ndef
                } else {
                    resp@ == spec_not_found() && *final(self) == *old(self)
                }
            },
            !(a.cla == 0 && a.ins == 0xa4 && a.p1 == 4 && a.p2 == 0) && !(a.cla == 0 && a.ins == 0xa4
                && a.p1 == 0 && a.p2 == 12) && a.cla == 0 && a.ins == 0xb0 ==> ({
                let file = spec_file(old(self).selected);
                let offs = spec_read_offset(a.p1, a.p2);
                let n = if a.le == 0 || a.le > file.len() - offs {
                    file.len() - offs
                } else {
                    a.le as int
                };
                &&& resp@ == file.subrange(offs, offs + n) + spec_ok()
                &&& *final(self) == *old(self)
            }),
            !(a.cla == 0 && a.ins == 0xa4 && a.p1 == 4 && a.p2 == 0) && !(a.cla == 0 && a.ins == 0xa4
                && a.p1 == 0 && a.p2 == 12) && !(a.cla == 0 && a.ins == 0xb0) ==> resp@ == seq![
                0xFFu8,
                0xFFu8,
            ] && *final(self) == *old(self),
    {
        if a.cla == 0 && a.ins == 0xa4 && a.p1 == 4 && a.p2 == 0 {
            let r = vec![0x90u8, 0x00];
            assert(r@ =~= spec_ok());
            return r;
        }
        if a.cla == 0 && a.ins == 0xa4 && a.p1 == 0 && a.p2 == 12 {
            let d = a.data;
            if d.len() == 2 && d[0] == 0xe1 && d[1] == 0x03 {
                assert(d@ =~= seq![0xe1u8, 0x03u8]);
                self.selected = TagFile::Cc;
            } else if d.len() == 2 && d[0] == 0xe1 && d[1] == 0x04 {
                assert(d@ =~= seq![0xe1u8, 0x04u8]);
                self.selected = TagFile::Ndef;
            } else {
                assert(d@ != seq![0xe1u8, 0x03u8] && d@ != seq![0xe1u8, 0x04u8]) by {
                    if d@.len() == 2 {
                        assert(d@[0] != 0xe1u8 || d@[1] != 0x04u8);
                    }
                }
                let r = vec![0x6Au8, 0x82];
                assert(r@ =~= spec_not_found());
                return r;
            }
            let r = vec![0x90u8, 0x00];
            assert(r@ =~= spec_ok());
            return r;
        }
        if a.cla == 0 && a.ins == 0xb0 {
            let file = match self.selected {
                TagFile::Cc => cc_file(),
                TagFile::Ndef => ndef_file(),
            };
            let p1 = a.p1;
            let hi = p1 & 0x7f;
            assert(p1 & 0x7fu8 == p1 % 128) by (bit_vector);
            let offs: usize = (hi as usize) * 256 + a.p2 as usize;
            assert(file@.len() <= 18);
            let avail = file.len() - offs;
            let n: usize = if a.le == 0 || a.le as usize > avail {
                avail
            } else {
                a.le as usize
            };
            let mut r: Vec<u8> = Vec::new();
            let mut k: usize = 0;
            while k < n
                invariant
                    k <= n,
                    offs + n <= file@.len(),
                    file@.len() <= 18,
                    r@ == file@.subrange(offs as int, offs + k),
                decreases n - k,
            {
                r.push(file[offs + k]);
                assert(r@ =~= file@.subrange(offs as int, offs + k + 1));
                k += 1;
            }
            r.push(0x90);
            r.push(0x00);
            assert(r@ =~= file@.subrange(offs as int, offs + n) + spec_ok());
            return r;
        }
        let r = vec![0xFFu8, 0xFF];
        assert(r@ =~= seq![0xFFu8, 0xFFu8]);
        r
    }
}

} // verus!
