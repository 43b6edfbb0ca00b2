//! The text of a file, its byte order mark, its lines, and the decoding of
//! its bytes.

use vstd::prelude::*;

use crate::report::{ErrorKey, Report, Severity};
use crate::text::{split_seq, str_chars, string_from_chars};
use crate::token::Loc;

verus! {

/// The byte order mark as a character.
pub open spec fn bom_char() -> char {
    '\u{feff}'
}

/// The byte order mark in UTF-8.
pub open spec fn bom_bytes() -> Seq<u8> {
    seq![0xefu8, 0xbbu8, 0xbfu8]
}

/// A line without one `\r` at its end.
pub open spec fn strip_cr(p: Seq<char>) -> Seq<char> {
    if p.len() > 0 && p.last() == '\r' {
        p.drop_last()
    } else {
        p
    }
}

/// The lines of a text as `str::lines` gives them: split at `\n`, each
/// line ended by `\n` loses one `\r` before it, and a last line is kept
/// only when it is not empty.
pub open spec fn lines_of(s: Seq<char>) -> Seq<Seq<char>> {
    let pieces = split_seq(s, '\n');
    let ended = pieces.drop_last().map_values(|p: Seq<char>| strip_cr(p));
    if pieces.last().len() > 0 {
        ended.push(pieces.last())
    } else {
        ended
    }
}

/// The text without a leading byte order mark.
pub open spec fn without_bom(s: Seq<char>) -> Seq<char> {
    if s.len() > 0 && s[0] == bom_char() {
        s.drop_first()
    } else {
        s
    }
}

/// The full text of a file.
#[derive(Debug)]
pub struct FileContent {
    full: String,
}

impl FileContent {
    /// The text.
    pub closed spec fn spec_full(&self) -> Seq<char> {
        self.full@
    }

    /// Holds the text `s`.
    pub fn new(s: String) -> (r: FileContent)
        ensures
            r.spec_full() == s@,
    {
        FileContent { full: s }
    }

    /// Holds the text `s` of a built-in file.
    pub fn new_static(s: &str) -> (r: FileContent)
        ensures
            r.spec_full() == s@,
    {
        FileContent { full: String::from_str(s) }
    }

    /// The text.
    pub fn full(&self) -> (r: &str)
        ensures
            r@ == self.spec_full(),
    {
        self.full.as_str()
    }

    /// Whether the text starts with a byte order mark.
    pub fn has_bom(&self) -> (r: bool)
        ensures
            r == (self.spec_full().len() > 0 && self.spec_full()[0] == bom_char()),
    {
        let s = self.full.as_str();
        s.unicode_len() > 0 && s.get_char(0) == '\u{feff}'
    }

    /// The text without a leading byte order mark.
    pub fn nobom(&self) -> (r: &str)
        ensures
            r@ == without_bom(self.spec_full()),
    {
        let s = self.full.as_str();
        let n = s.unicode_len();
        if n > 0 && s.get_char(0) == '\u{feff}' {
            let r = s.substring_char(1, n);
            assert(r@ =~= without_bom(self.spec_full()));
            r
        } else {
            s
        }
    }

    /// The lines of the text without its byte order mark.
    pub fn lines(&self) -> (r: Vec<String>)
        ensures
            r@.map_values(|l: String| l@) == lines_of(without_bom(self.spec_full())),
    {
        let cs = str_chars(self.nobom());
        let ghost t = cs@;
        let ghost pieces = split_seq(t, '\n');
        let pieces_v = crate::text::split_chars(cs.as_slice(), '\n');
        assert(pieces_v@.map_values(|p: Vec<char>| p@) == pieces);
        proof {
            crate::text::lemma_split_nonempty(t, '\n');
        }
        let n = pieces_v.len();
        let mut r: Vec<String> = Vec::new();
        let mut i: usize = 0;
        while i + 1 < n
            invariant
                n == pieces_v@.len(),
                n >= 1,
                i + 1 <= n,
                pieces == pieces_v@.map_values(|p: Vec<char>| p@),
                r@.map_values(|l: String| l@) == pieces.drop_last().take(i as int).map_values(|p: Seq<char>| strip_cr(p)),
            decreases n - i,
        {
            let p = &pieces_v[i];
            let line = if p.len() > 0 && p[p.len() - 1] == '\r' {
                let q = crate::text::sub_chars(p.as_slice(), 0, p.len() - 1);
                assert(q@ =~= p@.drop_last());
                string_from_chars(q.as_slice())
            } else {
                string_from_chars(p.as_slice())
            };
            assert(pieces[i as int] == p@);
            assert(line@ == strip_cr(p@));
            let ghost prev = r@;
            let ghost m = pieces.drop_last().take(i as int).map_values(|p: Seq<char>| strip_cr(p));
            r.push(line);
            assert(r@.map_values(|l: String| l@) =~= prev.map_values(|l: String| l@).push(strip_cr(pieces[i as int])));
            assert(pieces.drop_last().take(i + 1).map_values(|p: Seq<char>| strip_cr(p)) =~= m.push(strip_cr(pieces[i as int])));
            i = i + 1;
            assert(r@.map_values(|l: String| l@) =~= pieces.drop_last().take(i as int).map_values(|p: Seq<char>| strip_cr(p)));
        }
        assert(pieces.drop_last().take(i as int) =~= pieces.drop_last());
        let last = &pieces_v[n - 1];
        if last.len() > 0 {
            r.push(string_from_chars(last.as_slice()));
        }
        assert(r@.map_values(|l: String| l@) =~= lines_of(t));
        r
    }

    /// The line with the given number, counted from 1.
    pub fn line(&self, line_num: usize) -> (r: Option<String>)
        ensures
            match r {
                Some(l) => 1 <= line_num <= lines_of(without_bom(self.spec_full())).len() && l@
                    == lines_of(without_bom(self.spec_full()))[line_num - 1],
                None => line_num == 0 || line_num > lines_of(without_bom(self.spec_full())).len(),
            },
    {
        if line_num == 0 {
            return None;
        }
        let mut lines = self.lines();
        if line_num > lines.len() {
            return None;
        }
        assert(lines@.map_values(|l: String| l@)[line_num - 1] == lines@[line_num - 1]@);
        Some(lines.swap_remove(line_num - 1))
    }
}

/// The error text that `String::from_utf8` gives for bytes that are not
/// UTF-8.
pub uninterp spec fn utf8_error_text(bytes: Seq<u8>) -> Seq<char>;

/// The text of UTF-8 bytes, or the error text when they are not UTF-8.
/// Wraps `String::from_utf8`, which succeeds exactly on valid UTF-8 and
/// then holds the decoded characters; the error's text is left unstated.
#[verifier::external_body]
fn from_utf8(bytes: Vec<u8>) -> (r: Result<String, String>)
    ensures
        match r {
            Ok(s) => vstd::utf8::valid_utf8(bytes@) && s@ == vstd::utf8::decode_utf8(bytes@),
            Err(e) => !vstd::utf8::valid_utf8(bytes@) && e@ == utf8_error_text(bytes@),
        },
{
    match String::from_utf8(bytes) {
        Ok(s) => Ok(s),
        Err(e) => Err(format!("{e:#}")),
    }
}

/// The character that Windows-1252 maps a byte to, as the WHATWG encoding
/// standard gives it: bytes 0x80 to 0x9f by the table, all others to the
/// code point of the same value.
pub open spec fn windows_1252_char(b: u8) -> char {
    match b {
        0x80u8 => '\u{20ac}',
        0x82u8 => '\u{201a}',
        0x83u8 => '\u{0192}',
        0x84u8 => '\u{201e}',
        0x85u8 => '\u{2026}',
        0x86u8 => '\u{2020}',
        0x87u8 => '\u{2021}',
        0x88u8 => '\u{02c6}',
        0x89u8 => '\u{2030}',
        0x8au8 => '\u{0160}',
        0x8bu8 => '\u{2039}',
        0x8cu8 => '\u{0152}',
        0x8eu8 => '\u{017d}',
        0x91u8 => '\u{2018}',
        0x92u8 => '\u{2019}',
        0x93u8 => '\u{201c}',
        0x94u8 => '\u{201d}',
        0x95u8 => '\u{2022}',
        0x96u8 => '\u{2013}',
        0x97u8 => '\u{2014}',
        0x98u8 => '\u{02dc}',
        0x99u8 => '\u{2122}',
        0x9au8 => '\u{0161}',
        0x9bu8 => '\u{203a}',
        0x9cu8 => '\u{0153}',
        0x9eu8 => '\u{017e}',
        0x9fu8 => '\u{0178}',
        _ => (b as u32) as char,
    }
}

/// Decodes Windows-1252 bytes. Wraps `encoding_rs`'s
/// `WINDOWS_1252.decode_without_bom_handling_and_without_replacement`,
/// which maps every byte by the table of [`windows_1252_char`]: the
/// encoding has a character for each byte, so it never fails.
#[verifier::external_body]
fn decode_windows_1252(bytes: &[u8]) -> (r: Option<String>)
    ensures
        r is Some,
        match r {
            Some(s) => s@ == bytes@.map_values(|b: u8| windows_1252_char(b)),
            None => true,
        },
{
    encoding_rs::WINDOWS_1252.decode_without_bom_handling_and_without_replacement(bytes).map(
        |c| c.into_owned(),
    )
}

/// What decoding a file's bytes gives: UTF-8 when they start with the
/// UTF-8 byte order mark, else Windows-1252.
pub open spec fn decoded_text(bytes: Seq<u8>) -> Option<Seq<char>> {
    if bytes.len() >= 3 && bytes.take(3) == bom_bytes() {
        if vstd::utf8::valid_utf8(bytes) {
            Some(vstd::utf8::decode_utf8(bytes))
        } else {
            None
        }
    } else {
        Some(bytes.map_values(|b: u8| windows_1252_char(b)))
    }
}

/// Decodes the bytes of the file read from `entry`, detecting the encoding:
/// bytes that start with the UTF-8 byte order mark must be UTF-8, others
/// are read as Windows-1252. A file that does not decode is reported.
pub fn decode_detect_encoding(bytes: Vec<u8>, entry: Loc) -> (r: Result<FileContent, Report>)
    ensures
        match r {
            Ok(c) => decoded_text(bytes@) == Some(c.spec_full()),
            Err(rep) => decoded_text(bytes@) is None && rep@.key == ErrorKey::ReadError
                && rep@.severity == Severity::Error && rep@.msg == "could not decode UTF-8 file"@
                && rep@.info == Some(utf8_error_text(bytes@)) && rep@.loc == entry,
        },
{
    let ghost b = bytes@;
    let bom = bytes.len() >= 3 && bytes[0] == 0xef && bytes[1] == 0xbb && bytes[2] == 0xbf;
    proof {
        if b.len() >= 3 {
            assert(b.take(3) == bom_bytes() <==> (b[0] == 0xef && b[1] == 0xbb && b[2] == 0xbf)) by {
                if b[0] == 0xef && b[1] == 0xbb && b[2] == 0xbf {
                    assert(b.take(3) =~= bom_bytes());
                }
                if b.take(3) == bom_bytes() {
                    assert(b.take(3)[0] == b[0]);
                    assert(b.take(3)[1] == b[1]);
                    assert(b.take(3)[2] == b[2]);
                }
            }
        }
    }
    if bom {
        match from_utf8(bytes) {
            Ok(s) => Ok(FileContent::new(s)),
            Err(e) => Err(
                Report {
                    key: ErrorKey::ReadError,
                    severity: Severity::Error,
                    msg: String::from_str("could not decode UTF-8 file"),
                    info: Some(e),
                    loc: entry,
                    also: None,
                    strong: false,
                },
            ),
        }
    } else {
        match decode_windows_1252(bytes.as_slice()) {
            Some(s) => Ok(FileContent::new(s)),
            None => Err(
                Report {
                    key: ErrorKey::Encoding,
                    severity: Severity::Error,
                    msg: String::from_str("could not decode WINDOWS-1252 file"),
                    info: None,
                    loc: entry,
                    also: None,
                    strong: false,
                },
            ),
        }
    }
}

} // verus!
