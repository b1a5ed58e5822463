//! RESP2 frames, the replies of a Redis server.
//!
//! See <https://redis.io/docs/latest/develop/reference/protocol-spec/>.

use vstd::prelude::*;

use vstd::slice::slice_to_vec;
use vstd::utf8::{decode_utf8, valid_utf8};

use crate::kv::ByteMap;
use crate::strs::string_from_utf8;
use crate::text::{dec_i64, dec_usize, has_prefix, parse_i64, parse_usize, starts_with};

verus! {

/// A RESP2 frame, borrowing its text from the buffer it was parsed from.
#[derive(Debug, PartialEq, Eq)]
pub enum Frame<'a> {
    Simple(&'a [u8]),
    Error(&'a [u8]),
    Integer(i64),
    Bulk(&'a [u8]),
    Null,
    Array(Vec<Frame<'a>>),
}

/// The mathematical value of a frame.
pub enum FrameModel {
    Simple(Seq<u8>),
    Error(Seq<u8>),
    Integer(i64),
    Bulk(Seq<u8>),
    Null,
    Array(Seq<FrameModel>),
}

/// The model of a frame.
pub open spec fn frame_view(f: Frame) -> FrameModel
    decreases f, 0nat,
{
    match f {
        Frame::Simple(s) => FrameModel::Simple(s@),
        Frame::Error(s) => FrameModel::Error(s@),
        Frame::Integer(v) => FrameModel::Integer(v),
        Frame::Bulk(s) => FrameModel::Bulk(s@),
        Frame::Null => FrameModel::Null,
        Frame::Array(v) => FrameModel::Array(frames_view(v@, v@.len())),
    }
}

/// The models of the first `n` frames of `s`.
pub open spec fn frames_view(s: Seq<Frame>, n: nat) -> Seq<FrameModel>
    decreases s, n,
{
    if n == 0 || n > s.len() {
        Seq::empty()
    } else {
        frames_view(s, (n - 1) as nat).push(frame_view(s[n - 1]))
    }
}


/// Why a reply could not be parsed.
#[derive(Debug, PartialEq, Eq)]
pub enum Error {
    /// A length or an integer is not a number.
    Parse,
    /// A null bulk string is not written `$-1`.
    Protocol,
    /// The first byte of a frame is not a RESP2 type, or a reply is not of
    /// the type asked for.
    UnknownFrameType,
    /// The server does not know the command; it holds the server's text.
    UnknownCommand(Vec<u8>),
    /// Any other error reply of the server; it holds the server's text.
    Server(Vec<u8>),
    /// A simple string, an error or a string reply read as text is not
    /// valid UTF-8.
    InvalidUtf8,
    /// A reply read as key/value pairs has an odd number of items.
    OddArray,
}

/// The result of parsing a frame at a position of a buffer.
pub enum Parsed {
    /// The buffer ends before the frame does.
    Incomplete,
    /// The bytes are not a valid frame.
    Failed(Error),
    /// A bulk length is so large that adding 2 to it overflows.
    Overflow,
    /// The frame, and the position just after it.
    Done(FrameModel, int),
}

/// The result of parsing a number of frames in a row.
pub enum ParsedItems {
    Incomplete,
    Failed(Error),
    Overflow,
    Done(Seq<FrameModel>, int),
}

/// The first `e >= p` such that `buf[e..e + 2]` is `\r\n`.
pub open spec fn crlf_from(buf: Seq<u8>, p: int) -> Option<int>
    decreases buf.len() - p,
{
    if p < 0 || p + 1 >= buf.len() {
        None
    } else if buf[p] == 0x0du8 && buf[p + 1] == 0x0au8 {
        Some(p)
    } else {
        crlf_from(buf, p + 1)
    }
}

pub proof fn lemma_crlf_from(buf: Seq<u8>, p: int)
    ensures
        crlf_from(buf, p) matches Some(e) ==> p <= e && e + 1 < buf.len() && buf[e] == 0x0du8
            && buf[e + 1] == 0x0au8,
        crlf_from(buf, p) matches Some(e) ==> forall|k: int|
            p <= k < e ==> !(#[trigger] buf[k] == 0x0du8 && buf[k + 1] == 0x0au8),
        crlf_from(buf, p) is None && 0 <= p ==> forall|k: int|
            p <= k && k + 1 < buf.len() ==> !(#[trigger] buf[k] == 0x0du8 && buf[k + 1] == 0x0au8),
    decreases buf.len() - p,
{
    if p >= 0 && p + 1 < buf.len() && !(buf[p] == 0x0du8 && buf[p + 1] == 0x0au8) {
        lemma_crlf_from(buf, p + 1);
    }
}

/// The frames in a row parsed from `pos`, after the frames `pre`.
pub open spec fn prefix_items(pre: Seq<FrameModel>, r: ParsedItems) -> ParsedItems {
    match r {
        ParsedItems::Done(fs, p) => ParsedItems::Done(pre + fs, p),
        other => other,
    }
}

/// The array frame made of the items `r`.
pub open spec fn items_to_frame(r: ParsedItems) -> Parsed {
    match r {
        ParsedItems::Incomplete => Parsed::Incomplete,
        ParsedItems::Failed(err) => Parsed::Failed(err),
        ParsedItems::Overflow => Parsed::Overflow,
        ParsedItems::Done(fs, q) => Parsed::Done(FrameModel::Array(fs), q),
    }
}

/// The RESP2 frame that starts at `buf[pos]`.
pub open spec fn parse_frame(buf: Seq<u8>, pos: int) -> Parsed
    decreases buf.len() - pos, 0int, 0nat,
{
    if pos < 0 || pos > buf.len() {
        Parsed::Failed(Error::Parse)
    } else if buf.len() - pos < 4 {
        Parsed::Incomplete
    } else {
        let t = buf[pos];
        let p = pos + 1;
        proof {
            lemma_crlf_from(buf, p);
        }
        match crlf_from(buf, p) {
            None => Parsed::Incomplete,
            Some(e) => {
                let text = buf.subrange(p, e);
                if t == 0x2bu8 {
                    if valid_utf8(text) {
                        Parsed::Done(FrameModel::Simple(text), e + 2)
                    } else {
                        Parsed::Failed(Error::InvalidUtf8)
                    }
                } else if t == 0x2du8 {
                    if valid_utf8(text) {
                        Parsed::Done(FrameModel::Error(text), e + 2)
                    } else {
                        Parsed::Failed(Error::InvalidUtf8)
                    }
                } else if t == 0x3au8 {
                    match dec_i64(text) {
                        None => Parsed::Failed(Error::Parse),
                        Some(v) => Parsed::Done(FrameModel::Integer(v), e + 2),
                    }
                } else if t == 0x24u8 && buf[p] == 0x2du8 {
                    if text == seq![0x2du8, 0x31u8] {
                        Parsed::Done(FrameModel::Null, e + 2)
                    } else {
                        Parsed::Failed(Error::Protocol)
                    }
                } else if t == 0x24u8 {
                    match dec_usize(text) {
                        None => Parsed::Failed(Error::Parse),
                        Some(n) => {
                            let q = e + 2;
                            if n + 2 > usize::MAX {
                                Parsed::Overflow
                            } else if buf.len() - q < n + 2 {
                                Parsed::Incomplete
                            } else {
                                Parsed::Done(FrameModel::Bulk(buf.subrange(q, q + n)), q + n + 2)
                            }
                        },
                    }
                } else if t == 0x2au8 {
                    match dec_usize(text) {
                        None => Parsed::Failed(Error::Parse),
                        Some(n) => items_to_frame(parse_items(buf, e + 2, n as nat)),
                    }
                } else {
                    Parsed::Failed(Error::UnknownFrameType)
                }
            },
        }
    }
}

/// `k` RESP2 frames in a row from `buf[pos]`.
pub open spec fn parse_items(buf: Seq<u8>, pos: int, k: nat) -> ParsedItems
    decreases buf.len() - pos, 1int, k,
{
    if k == 0 {
        ParsedItems::Done(Seq::empty(), pos)
    } else {
        match parse_frame(buf, pos) {
            Parsed::Incomplete => ParsedItems::Incomplete,
            Parsed::Failed(err) => ParsedItems::Failed(err),
            Parsed::Overflow => ParsedItems::Overflow,
            Parsed::Done(f, q) => if q <= pos || q > buf.len() {
                ParsedItems::Failed(Error::Parse)
            } else {
                prefix_items(seq![f], parse_items(buf, q, (k - 1) as nat))
            },
        }
    }
}


/// Every simple string and error in the frame, at any depth, is valid
/// UTF-8: the frame's text can be handed out as `str`.
pub open spec fn texts_valid(m: FrameModel) -> bool
    decreases m,
{
    match m {
        FrameModel::Simple(s) => valid_utf8(s),
        FrameModel::Error(s) => valid_utf8(s),
        FrameModel::Array(items) => items_texts_valid(items),
        _ => true,
    }
}

/// `texts_valid` of each of the frames.
pub open spec fn items_texts_valid(items: Seq<FrameModel>) -> bool
    decreases items,
{
    if items.len() == 0 {
        true
    } else {
        texts_valid(items[0]) && items_texts_valid(items.subrange(1, items.len() as int))
    }
}

/// A parsed frame's text is valid UTF-8.
pub proof fn lemma_parsed_texts_valid(buf: Seq<u8>, pos: int)
    ensures
        parse_frame(buf, pos) matches Parsed::Done(m, _) ==> texts_valid(m),
    decreases buf.len() - pos, 0int, 0nat,
{
    if 0 <= pos <= buf.len() && buf.len() - pos >= 4 {
        let p = pos + 1;
        lemma_crlf_from(buf, p);
        if let Some(e) = crlf_from(buf, p) {
            if buf[pos] == 0x2au8 {
                if let Some(n) = dec_usize(buf.subrange(p, e)) {
                    lemma_parsed_items_texts_valid(buf, e + 2, n as nat);
                }
            }
        }
    }
}

/// `lemma_parsed_texts_valid` for frames in a row.
pub proof fn lemma_parsed_items_texts_valid(buf: Seq<u8>, pos: int, k: nat)
    ensures
        parse_items(buf, pos, k) matches ParsedItems::Done(fs, _) ==> items_texts_valid(fs),
    decreases buf.len() - pos, 1int, k,
{
    if k == 0 {
    } else {
        if 0 <= pos <= buf.len() {
            lemma_frame_advances(buf, pos);
        }
        lemma_parsed_texts_valid(buf, pos);
        if let Parsed::Done(f, q) = parse_frame(buf, pos) {
            if pos < q <= buf.len() {
                lemma_parsed_items_texts_valid(buf, q, (k - 1) as nat);
                if let ParsedItems::Done(rest, _) = parse_items(buf, q, (k - 1) as nat) {
                    let fs = seq![f] + rest;
                    assert(fs.subrange(1, fs.len() as int) =~= rest);
                }
            }
        }
    }
}

pub proof fn lemma_frame_advances(buf: Seq<u8>, pos: int)
    requires
        0 <= pos <= buf.len(),
    ensures
        parse_frame(buf, pos) matches Parsed::Done(_, q) ==> pos < q <= buf.len(),
    decreases buf.len() - pos, 0int, 0nat,
{
    if buf.len() - pos >= 4 {
        let p = pos + 1;
        lemma_crlf_from(buf, p);
        if let Some(e) = crlf_from(buf, p) {
            if buf[pos] == 0x2au8 {
                if let Some(n) = dec_usize(buf.subrange(p, e)) {
                    lemma_items_advances(buf, e + 2, n as nat);
                }
            }
        }
    }
}

pub proof fn lemma_items_advances(buf: Seq<u8>, pos: int, k: nat)
    requires
        0 <= pos <= buf.len(),
    ensures
        parse_items(buf, pos, k) matches ParsedItems::Done(_, q) ==> pos <= q <= buf.len(),
    decreases buf.len() - pos, 1int, k,
{
    if k > 0 {
        lemma_frame_advances(buf, pos);
        if let Parsed::Done(f, q) = parse_frame(buf, pos) {
            if pos < q <= buf.len() {
                lemma_items_advances(buf, q, (k - 1) as nat);
            }
        }
    }
}

proof fn lemma_crlf_extend(buf: Seq<u8>, extra: Seq<u8>, p: int)
    requires
        0 <= p,
        crlf_from(buf, p) is Some,
    ensures
        crlf_from(buf + extra, p) == crlf_from(buf, p),
    decreases buf.len() - p,
{
    let b2 = buf + extra;
    assert(b2[p] == buf[p] && b2[p + 1] == buf[p + 1]);
    if !(buf[p] == 0x0du8 && buf[p + 1] == 0x0au8) {
        lemma_crlf_extend(buf, extra, p + 1);
    }
}

/// Once the bytes at `pos` decide a frame (a frame, an error or an
/// overflowing length), bytes appended to the buffer do not change what is
/// parsed there: only `Incomplete` can change when more data arrives.
pub proof fn lemma_parse_frame_extend(buf: Seq<u8>, extra: Seq<u8>, pos: int)
    requires
        0 <= pos <= buf.len(),
        !(parse_frame(buf, pos) is Incomplete),
    ensures
        parse_frame(buf + extra, pos) == parse_frame(buf, pos),
    decreases buf.len() - pos, 0int, 0nat,
{
    let b2 = buf + extra;
    let p = pos + 1;
    lemma_crlf_from(buf, p);
    let e = crlf_from(buf, p).unwrap();
    lemma_crlf_extend(buf, extra, p);
    assert(b2[pos] == buf[pos]);
    assert(b2[p] == buf[p]);
    assert(b2.subrange(p, e) =~= buf.subrange(p, e));
    let t = buf[pos];
    if t == 0x24u8 && buf[p] != 0x2du8 {
        if let Some(n) = dec_usize(buf.subrange(p, e)) {
            let q = e + 2;
            if n + 2 <= usize::MAX && buf.len() - q >= n + 2 {
                assert(b2.subrange(q, q + n) =~= buf.subrange(q, q + n));
            }
        }
    } else if t == 0x2au8 {
        if let Some(n) = dec_usize(buf.subrange(p, e)) {
            lemma_parse_items_extend(buf, extra, e + 2, n as nat);
        }
    }
}

/// `lemma_parse_frame_extend` for frames in a row.
pub proof fn lemma_parse_items_extend(buf: Seq<u8>, extra: Seq<u8>, pos: int, k: nat)
    requires
        0 <= pos <= buf.len(),
        !(parse_items(buf, pos, k) is Incomplete),
    ensures
        parse_items(buf + extra, pos, k) == parse_items(buf, pos, k),
    decreases buf.len() - pos, 1int, k,
{
    if k > 0 {
        lemma_frame_advances(buf, pos);
        lemma_parse_frame_extend(buf, extra, pos);
        if let Parsed::Done(f, q) = parse_frame(buf, pos) {
            lemma_frame_advances(buf + extra, pos);
            lemma_parse_items_extend(buf, extra, q, (k - 1) as nat);
        }
    }
}

proof fn lemma_crlf_prefix_found(buf: Seq<u8>, cut: int, p: int)
    requires
        0 <= p,
        cut <= buf.len(),
        crlf_from(buf, p) matches Some(e) && e + 2 <= cut,
    ensures
        crlf_from(buf.subrange(0, cut), p) == crlf_from(buf, p),
    decreases buf.len() - p,
{
    let b = buf.subrange(0, cut);
    lemma_crlf_from(buf, p);
    assert(b[p] == buf[p] && b[p + 1] == buf[p + 1]);
    if !(buf[p] == 0x0du8 && buf[p + 1] == 0x0au8) {
        lemma_crlf_prefix_found(buf, cut, p + 1);
    }
}

proof fn lemma_crlf_prefix_missing(buf: Seq<u8>, cut: int, p: int)
    requires
        0 <= p,
        0 <= cut <= buf.len(),
        crlf_from(buf, p) matches Some(e) && cut < e + 2,
    ensures
        crlf_from(buf.subrange(0, cut), p) is None,
    decreases buf.len() - p,
{
    let b = buf.subrange(0, cut);
    if p + 1 < cut {
        if !(buf[p] == 0x0du8 && buf[p + 1] == 0x0au8) {
            lemma_crlf_prefix_missing(buf, cut, p + 1);
        }
    }
}

/// A frame cut short is incomplete: every buffer that ends inside a frame
/// asks for more data. With `lemma_parse_frame_extend`, a reader that parses
/// again after each read gets exactly the frame that the bytes hold.
pub proof fn lemma_parse_frame_cut(buf: Seq<u8>, cut: int, pos: int)
    requires
        0 <= pos <= cut <= buf.len(),
        parse_frame(buf, pos) matches Parsed::Done(_, end) && cut < end,
    ensures
        parse_frame(buf.subrange(0, cut), pos) is Incomplete,
    decreases buf.len() - pos, 0int, 0nat,
{
    let b = buf.subrange(0, cut);
    if cut - pos >= 4 {
        let p = pos + 1;
        lemma_crlf_from(buf, p);
        let e = crlf_from(buf, p).unwrap();
        assert(b[pos] == buf[pos]);
        assert(b[p] == buf[p]);
        if e + 2 <= cut {
            lemma_crlf_prefix_found(buf, cut, p);
            assert(b.subrange(p, e) =~= buf.subrange(p, e));
            let t = buf[pos];
            if t == 0x2au8 {
                if let Some(n) = dec_usize(buf.subrange(p, e)) {
                    lemma_parse_items_cut(buf, cut, e + 2, n as nat);
                }
            }
        } else {
            lemma_crlf_prefix_missing(buf, cut, p);
        }
    }
}

/// `lemma_parse_frame_cut` for frames in a row.
pub proof fn lemma_parse_items_cut(buf: Seq<u8>, cut: int, pos: int, k: nat)
    requires
        0 <= pos <= cut <= buf.len(),
        parse_items(buf, pos, k) matches ParsedItems::Done(_, end) && cut < end,
    ensures
        parse_items(buf.subrange(0, cut), pos, k) is Incomplete,
    decreases buf.len() - pos, 1int, k,
{
    if k > 0 {
        lemma_frame_advances(buf, pos);
        if let Parsed::Done(f, q) = parse_frame(buf, pos) {
            lemma_items_advances(buf, q, (k - 1) as nat);
            if cut < q {
                lemma_parse_frame_cut(buf, cut, pos);
            } else {
                let b = buf.subrange(0, cut);
                let rest = buf.subrange(cut, buf.len() as int);
                if !(parse_frame(b, pos) is Incomplete) {
                    lemma_parse_frame_extend(b, rest, pos);
                    assert(b + rest =~= buf);
                    lemma_parse_items_cut(buf, cut, q, (k - 1) as nat);
                }
            }
        }
    }
}

proof fn lemma_frames_view_push(s: Seq<Frame>, x: Frame, n: nat)
    requires
        n <= s.len(),
    ensures
        frames_view(s.push(x), n) == frames_view(s, n),
    decreases n,
{
    if n > 0 {
        lemma_frames_view_push(s, x, (n - 1) as nat);
        assert(s.push(x)[n - 1] == s[n - 1]);
    }
}

proof fn lemma_prefix_items_push(pre: Seq<FrameModel>, m: FrameModel, r: ParsedItems)
    ensures
        prefix_items(pre, prefix_items(seq![m], r)) == prefix_items(pre.push(m), r),
{
    if let ParsedItems::Done(fs, p) = r {
        assert(pre + (seq![m] + fs) =~= pre.push(m) + fs);
    }
}

/// Finds the `\r\n` that ends the text starting at `*pos`; on success moves
/// `*pos` past it and returns the text's bounds.
pub fn read_until_crlf(buf: &[u8], pos: &mut usize) -> (r: Option<(usize, usize)>)
    requires
        *old(pos) <= buf@.len(),
    ensures
        match crlf_from(buf@, *old(pos) as int) {
            None => r is None && *final(pos) == *old(pos),
            Some(e) => r == Some((*old(pos), e as usize)) && *final(pos) == e + 2,
        },
{
    let start = *pos;
    let mut k = start;
    while k < buf.len() && buf.len() - k > 1
        invariant
            start <= k <= buf@.len(),
            start == *old(pos),
            *pos == start,
            crlf_from(buf@, start as int) == crlf_from(buf@, k as int),
        decreases buf@.len() - k,
    {
        if buf[k] == 0x0du8 && buf[k + 1] == 0x0au8 {
            *pos = k + 2;
            return Some((start, k));
        }
        k = k + 1;
    }
    None
}

/// What reading a frame gives, the overlong bulk length included.
enum Scan<'a> {
    Incomplete,
    Failed(Error),
    Overflow,
    Done(Frame<'a>),
}

/// Whether `b` is valid UTF-8.
fn is_utf8(b: &[u8]) -> (r: bool)
    ensures
        r == valid_utf8(b@),
{
    string_from_utf8(slice_to_vec(b)).is_some()
}

impl<'a> Frame<'a> {
    /// Parses the frame at the start of `buf`: `Ok(None)` when `buf` ends
    /// before the frame does, so that the caller reads more and tries again.
    pub fn parse(buf: &'a [u8]) -> (r: Result<Option<Frame<'a>>, Error>)
        requires
            !(parse_frame(buf@, 0) is Overflow),
        ensures
            match parse_frame(buf@, 0) {
                Parsed::Incomplete => r matches Ok(None),
                Parsed::Failed(e) => r == Err::<Option<Frame<'a>>, Error>(e),
                Parsed::Done(m, _) => r matches Ok(Some(f)) && frame_view(f) == m,
                Parsed::Overflow => false,
            },
            r matches Ok(Some(f)) ==> texts_valid(frame_view(f)),
    {
        let mut pos: usize = 0;
        Frame::parse_with_pos(buf, &mut pos)
    }

    /// Parses the frame at `buf[*pos]` and moves `*pos` past it.
    pub fn parse_with_pos(buf: &'a [u8], pos: &mut usize) -> (r: Result<Option<Frame<'a>>, Error>)
        requires
            *old(pos) <= buf@.len(),
            !(parse_frame(buf@, *old(pos) as int) is Overflow),
        ensures
            match parse_frame(buf@, *old(pos) as int) {
                Parsed::Incomplete => r matches Ok(None),
                Parsed::Failed(e) => r == Err::<Option<Frame<'a>>, Error>(e),
                Parsed::Done(m, q) => r matches Ok(Some(f)) && frame_view(f) == m && *final(pos)
                    == q,
                Parsed::Overflow => false,
            },
            r matches Ok(Some(f)) ==> texts_valid(frame_view(f)),
    {
        proof {
            lemma_parsed_texts_valid(buf@, *old(pos) as int);
        }
        match Frame::scan_with_pos(buf, pos) {
            Scan::Incomplete => Ok(None),
            Scan::Failed(e) => Err(e),
            Scan::Done(f) => Ok(Some(f)),
            Scan::Overflow => Err(Error::Parse),
        }
    }

    /// Whether the frame at the start of `buf` declares a bulk string so
    /// long that its length and line end overflow a `usize`: the one input
    /// that `parse` refuses.
    pub fn overflows(buf: &'a [u8]) -> (r: bool)
        ensures
            r == (parse_frame(buf@, 0) is Overflow),
    {
        let mut pos: usize = 0;
        match Frame::scan_with_pos(buf, &mut pos) {
            Scan::Overflow => true,
            _ => false,
        }
    }

    /// Reads the frame at `buf[*pos]`, whatever the bytes hold, and moves
    /// `*pos` past it when there is one.
    fn scan_with_pos(buf: &'a [u8], pos: &mut usize) -> (r: Scan<'a>)
        requires
            *old(pos) <= buf@.len(),
        ensures
            match parse_frame(buf@, *old(pos) as int) {
                Parsed::Incomplete => r is Incomplete,
                Parsed::Failed(e) => r == Scan::<'a>::Failed(e),
                Parsed::Done(m, q) => r matches Scan::Done(f) && frame_view(f) == m && *final(pos) == q,
                Parsed::Overflow => r is Overflow,
            },
        decreases buf@.len() - *old(pos),
    {
        let ghost old_pos = *pos as int;
        if buf.len() - *pos < 4 {
            return Scan::Incomplete;
        }
        let typ = buf[*pos];
        *pos = *pos + 1;
        let p = *pos;
        proof {
            lemma_crlf_from(buf@, p as int);
        }
        let (start, end) = match read_until_crlf(buf, pos) {
            Some(bounds) => bounds,
            None => return Scan::Incomplete,
        };
        let text = &buf[start..end];
        assert(text@ == buf@.subrange(p as int, end as int));
        if typ == 0x2bu8 {
            if is_utf8(text) {
                Scan::Done(Frame::Simple(text))
            } else {
                Scan::Failed(Error::InvalidUtf8)
            }
        } else if typ == 0x2du8 {
            if is_utf8(text) {
                Scan::Done(Frame::Error(text))
            } else {
                Scan::Failed(Error::InvalidUtf8)
            }
        } else if typ == 0x3au8 {
            match parse_i64(text) {
                Some(v) => Scan::Done(Frame::Integer(v)),
                None => Scan::Failed(Error::Parse),
            }
        } else if typ == 0x24u8 && buf[p] == 0x2du8 {
            if text.len() == 2 && text[0] == 0x2du8 && text[1] == 0x31u8 {
                assert(text@ =~= seq![0x2du8, 0x31u8]);
                Scan::Done(Frame::Null)
            } else {
                Scan::Failed(Error::Protocol)
            }
        } else if typ == 0x24u8 {
            let n = match parse_usize(text) {
                Some(n) => n,
                None => return Scan::Failed(Error::Parse),
            };
            if n > usize::MAX - 2 {
                return Scan::Overflow;
            }
            if buf.len() - *pos < n + 2 {
                return Scan::Incomplete;
            }
            let q = *pos;
            let data = &buf[q..q + n];
            *pos = q + n + 2;
            Scan::Done(Frame::Bulk(data))
        } else if typ == 0x2au8 {
            let n = match parse_usize(text) {
                Some(n) => n,
                None => return Scan::Failed(Error::Parse),
            };
            let start_items = *pos;
            let mut frames: Vec<Frame<'a>> = Vec::new();
            let mut i: usize = 0;
            proof {
                assert(frames_view(frames@, 0) =~= Seq::<FrameModel>::empty());
                if let ParsedItems::Done(fs, q) = parse_items(
                    buf@,
                    start_items as int,
                    n as nat,
                ) {
                    assert(Seq::<FrameModel>::empty() + fs =~= fs);
                }
            }
            while i < n
                invariant
                    old_pos == *old(pos) as int,
                    old_pos < start_items,
                    parse_frame(buf@, old_pos) == items_to_frame(
                        parse_items(buf@, start_items as int, n as nat),
                    ),
                    start_items <= *pos <= buf@.len(),
                    i <= n,
                    frames@.len() == i,
                    prefix_items(
                        frames_view(frames@, i as nat),
                        parse_items(buf@, *pos as int, (n - i) as nat),
                    ) == parse_items(buf@, start_items as int, n as nat),
                decreases n - i,
            {
                let ghost here = *pos as int;
                proof {
                    lemma_frame_advances(buf@, here);
                }
                let f = match Frame::scan_with_pos(buf, pos) {
                    Scan::Done(f) => f,
                    Scan::Incomplete => return Scan::Incomplete,
                    Scan::Overflow => return Scan::Overflow,
                    Scan::Failed(e) => {
                        proof {
                            assert(parse_items(buf@, here, (n - i) as nat) == ParsedItems::Failed(
                                e,
                            ));
                        }
                        return Scan::Failed(e);
                    },
                };
                proof {
                    let m = frame_view(f);
                    lemma_prefix_items_push(
                        frames_view(frames@, i as nat),
                        m,
                        parse_items(buf@, *pos as int, (n - i - 1) as nat),
                    );
                    lemma_frames_view_push(frames@, f, i as nat);
                }
                frames.push(f);
                i = i + 1;
            }
            proof {
                assert(frames_view(frames@, i as nat) + Seq::<FrameModel>::empty() =~= frames_view(
                    frames@,
                    i as nat,
                ));
            }
            Scan::Done(Frame::Array(frames))
        } else {
            Scan::Failed(Error::UnknownFrameType)
        }
    }
}

proof fn lemma_frames_view_index(s: Seq<Frame>, n: nat, i: int)
    requires
        0 <= i < n <= s.len(),
    ensures
        frames_view(s, n).len() == n,
        frames_view(s, n)[i] == frame_view(s[i]),
    decreases n,
{
    lemma_frames_view_len(s, n);
    if i < n - 1 {
        lemma_frames_view_index(s, (n - 1) as nat, i);
    }
}

proof fn lemma_frames_view_len(s: Seq<Frame>, n: nat)
    requires
        n <= s.len(),
    ensures
        frames_view(s, n).len() == n,
    decreases n,
{
    if n > 0 {
        lemma_frames_view_len(s, (n - 1) as nat);
    }
}

/// The text with which the server starts its answer to a command it does
/// not know: `ERR unknown command`.
pub open spec fn unknown_command_prefix() -> Seq<u8> {
    seq![
        0x45u8, 0x52u8, 0x52u8, 0x20u8, 0x75u8, 0x6eu8, 0x6bu8, 0x6eu8, 0x6fu8, 0x77u8, 0x6eu8,
        0x20u8, 0x63u8, 0x6fu8, 0x6du8, 0x6du8, 0x61u8, 0x6eu8, 0x64u8,
    ]
}

/// `e` is the error that the error reply `t` stands for: an unknown
/// command when `t` starts with `ERR unknown command`, else a server error,
/// either holding `t`.
pub open spec fn is_reply_error(t: Seq<u8>, e: Error) -> bool {
    if has_prefix(t, unknown_command_prefix()) {
        e matches Error::UnknownCommand(v) && v@ == t
    } else {
        e matches Error::Server(v) && v@ == t
    }
}

/// The error that an error reply of the server stands for.
pub fn reply_error(text: &[u8]) -> (r: Error)
    ensures
        is_reply_error(text@, r),
{
    let prefix: [u8; 19] = [
        0x45u8, 0x52u8, 0x52u8, 0x20u8, 0x75u8, 0x6eu8, 0x6bu8, 0x6eu8, 0x6fu8, 0x77u8, 0x6eu8,
        0x20u8, 0x63u8, 0x6fu8, 0x6du8, 0x6du8, 0x61u8, 0x6eu8, 0x64u8,
    ];
    assert(prefix@ =~= unknown_command_prefix());
    if starts_with(text, prefix.as_slice()) {
        Error::UnknownCommand(slice_to_vec(text))
    } else {
        Error::Server(slice_to_vec(text))
    }
}

/// Reads the reply at the start of `buf`: `Ok(None)` when more bytes are
/// needed, an error reply of the server as the error it stands for, any
/// other frame as it is.
pub fn read_reply<'a>(buf: &'a [u8]) -> (r: Result<Option<Frame<'a>>, Error>)
    requires
        !(parse_frame(buf@, 0) is Overflow),
    ensures
        match parse_frame(buf@, 0) {
            Parsed::Incomplete => r matches Ok(None),
            Parsed::Failed(e) => r == Err::<Option<Frame<'a>>, Error>(e),
            Parsed::Done(FrameModel::Error(t), _) => r matches Err(e) && is_reply_error(t, e),
            Parsed::Done(m, _) => r matches Ok(Some(f)) && frame_view(f) == m,
            Parsed::Overflow => false,
        },
{
    match Frame::parse(buf) {
        Ok(Some(Frame::Error(text))) => Err(reply_error(text)),
        other => other,
    }
}

/// The bytes of a reply that is read as text: a simple or a bulk string.
pub open spec fn text_of(m: FrameModel) -> Option<Seq<u8>> {
    match m {
        FrameModel::Simple(s) => Some(s),
        FrameModel::Bulk(s) => Some(s),
        _ => None,
    }
}

/// Why a reply cannot be read as text, if it cannot.
pub open spec fn text_error(m: FrameModel) -> Option<Error> {
    match text_of(m) {
        None => Some(Error::UnknownFrameType),
        Some(b) => if valid_utf8(b) {
            None
        } else {
            Some(Error::InvalidUtf8)
        },
    }
}

/// An integer reply as an `i64`.
pub fn frame_i64(frame: &Frame) -> (r: Result<i64, Error>)
    ensures
        match frame_view(*frame) {
            FrameModel::Integer(v) => r == Ok::<i64, Error>(v),
            _ => r == Err::<i64, Error>(Error::UnknownFrameType),
        },
{
    match frame {
        Frame::Integer(v) => Ok(*v),
        _ => Err(Error::UnknownFrameType),
    }
}

/// Every item of a list is an integer reply.
pub open spec fn all_integers(items: Seq<FrameModel>) -> bool {
    forall|j: int| 0 <= j < items.len() ==> #[trigger] items[j] is Integer
}

/// The values of a list of integer replies.
pub open spec fn integers_of(items: Seq<FrameModel>) -> Seq<i64> {
    items.map_values(|x: FrameModel| x->Integer_0)
}

/// An array reply of integers as `i64`s; another reply, or an item that is
/// no integer, is of an unknown type.
pub fn frame_i64s(frame: &Frame) -> (r: Result<Vec<i64>, Error>)
    ensures
        match frame_view(*frame) {
            FrameModel::Array(items) => if all_integers(items) {
                r matches Ok(v) && v@ == integers_of(items)
            } else {
                r == Err::<Vec<i64>, Error>(Error::UnknownFrameType)
            },
            _ => r == Err::<Vec<i64>, Error>(Error::UnknownFrameType),
        },
{
    let items = match frame {
        Frame::Array(items) => items,
        _ => return Err(Error::UnknownFrameType),
    };
    let ghost ms = frames_view(items@, items@.len());
    proof {
        lemma_frames_view_len(items@, items@.len());
    }
    let mut out: Vec<i64> = Vec::new();
    let mut i: usize = 0;
    while i < items.len()
        invariant
            i <= items@.len(),
            ms == frames_view(items@, items@.len()),
            ms.len() == items@.len(),
            frame_view(*frame) == FrameModel::Array(ms),
            out@.len() == i,
            forall|j: int| 0 <= j < i ==> #[trigger] ms[j] is Integer,
            forall|j: int| 0 <= j < i ==> #[trigger] out@[j] == ms[j]->Integer_0,
        decreases items@.len() - i,
    {
        proof {
            lemma_frames_view_index(items@, items@.len(), i as int);
        }
        match frame_i64(&items[i]) {
            Ok(v) => {
                out.push(v);
            },
            Err(e) => {
                proof {
                    assert(!(ms[i as int] is Integer));
                    assert(!all_integers(ms));
                }
                return Err(e);
            },
        }
        i = i + 1;
    }
    assert(out@ =~= integers_of(ms));
    Ok(out)
}

/// A bulk string reply as bytes.
pub fn frame_bytes(frame: &Frame) -> (r: Result<Vec<u8>, Error>)
    ensures
        match frame_view(*frame) {
            FrameModel::Bulk(b) => r matches Ok(v) && v@ == b,
            _ => r == Err::<Vec<u8>, Error>(Error::UnknownFrameType),
        },
{
    match frame {
        Frame::Bulk(b) => Ok(slice_to_vec(b)),
        _ => Err(Error::UnknownFrameType),
    }
}

/// A simple or bulk string reply as a `String`; its bytes must be UTF-8.
pub fn frame_string(frame: &Frame) -> (r: Result<String, Error>)
    ensures
        match text_error(frame_view(*frame)) {
            Some(e) => r == Err::<String, Error>(e),
            None => r matches Ok(t) && t@ == decode_utf8(text_of(frame_view(*frame))->0),
        },
{
    let bytes: &[u8] = match frame {
        Frame::Simple(s) => s,
        Frame::Bulk(b) => b,
        _ => return Err(Error::UnknownFrameType),
    };
    match string_from_utf8(slice_to_vec(bytes)) {
        Some(t) => Ok(t),
        None => Err(Error::InvalidUtf8),
    }
}

/// The error of the first item from `i` on that is not a string reply.
pub open spec fn first_text_error(items: Seq<FrameModel>, i: int) -> Option<Error>
    decreases items.len() - i,
{
    if i < 0 || i >= items.len() {
        None
    } else if text_error(items[i]) is Some {
        text_error(items[i])
    } else {
        first_text_error(items, i + 1)
    }
}

/// Why an array reply cannot be read as a list of strings, if it cannot:
/// it is no array, or the first item that is no string says why.
pub open spec fn text_list_error(m: FrameModel) -> Option<Error> {
    match m {
        FrameModel::Array(items) => first_text_error(items, 0),
        _ => Some(Error::UnknownFrameType),
    }
}

/// The strings of a list of text replies.
pub open spec fn texts_of(items: Seq<FrameModel>) -> Seq<Seq<char>> {
    items.map_values(|x: FrameModel| decode_utf8(text_of(x)->0))
}

/// An array reply as a list of strings.
pub fn frame_strings(frame: &Frame) -> (r: Result<Vec<String>, Error>)
    ensures
        match text_list_error(frame_view(*frame)) {
            Some(e) => r == Err::<Vec<String>, Error>(e),
            None => r matches Ok(v) && v@.map_values(|t: String| t@) == texts_of(
                frame_view(*frame)->Array_0,
            ),
        },
{
    let items = match frame {
        Frame::Array(items) => items,
        _ => return Err(Error::UnknownFrameType),
    };
    let ghost ms = frames_view(items@, items@.len());
    proof {
        lemma_frames_view_len(items@, items@.len());
    }
    let mut out: Vec<String> = Vec::new();
    let mut i: usize = 0;
    while i < items.len()
        invariant
            i <= items@.len(),
            ms == frames_view(items@, items@.len()),
            ms.len() == items@.len(),
            frame_view(*frame) == FrameModel::Array(ms),
            first_text_error(ms, 0) == first_text_error(ms, i as int),
            out@.len() == i,
            forall|j: int| 0 <= j < i ==> text_error(#[trigger] ms[j]) is None,
            forall|j: int| 0 <= j < i ==> (#[trigger] out@[j])@ == decode_utf8(text_of(ms[j])->0),
        decreases items@.len() - i,
    {
        proof {
            lemma_frames_view_index(items@, items@.len(), i as int);
        }
        match frame_string(&items[i]) {
            Ok(t) => {
                out.push(t);
            },
            Err(e) => {
                proof {
                    assert(text_error(ms[i as int]) == Some(e));
                    assert(first_text_error(ms, i as int) == Some(e));
                }
                return Err(e);
            },
        }
        i = i + 1;
    }
    assert(out@.map_values(|t: String| t@) =~= texts_of(ms));
    Ok(out)
}

/// The error of the first row from `i` on that is not a list of strings.
pub open spec fn first_list_error(rows: Seq<FrameModel>, i: int) -> Option<Error>
    decreases rows.len() - i,
{
    if i < 0 || i >= rows.len() {
        None
    } else if text_list_error(rows[i]) is Some {
        text_list_error(rows[i])
    } else {
        first_list_error(rows, i + 1)
    }
}

/// Why an array reply cannot be read as a table of strings, if it cannot.
pub open spec fn text_table_error(m: FrameModel) -> Option<Error> {
    match m {
        FrameModel::Array(rows) => first_list_error(rows, 0),
        _ => Some(Error::UnknownFrameType),
    }
}

/// An array of arrays reply as rows of strings.
pub fn frame_string_rows(frame: &Frame) -> (r: Result<Vec<Vec<String>>, Error>)
    ensures
        match text_table_error(frame_view(*frame)) {
            Some(e) => r == Err::<Vec<Vec<String>>, Error>(e),
            None => r matches Ok(v) && v@.len() == (frame_view(*frame)->Array_0).len() && forall|
                j: int,
            |
                0 <= j < v@.len() ==> (#[trigger] v@[j])@.map_values(|t: String| t@) == texts_of(
                    (frame_view(*frame)->Array_0)[j]->Array_0,
                ),
        },
{
    let rows = match frame {
        Frame::Array(rows) => rows,
        _ => return Err(Error::UnknownFrameType),
    };
    let ghost ms = frames_view(rows@, rows@.len());
    proof {
        lemma_frames_view_len(rows@, rows@.len());
    }
    let mut out: Vec<Vec<String>> = Vec::new();
    let mut i: usize = 0;
    while i < rows.len()
        invariant
            i <= rows@.len(),
            ms == frames_view(rows@, rows@.len()),
            ms.len() == rows@.len(),
            frame_view(*frame) == FrameModel::Array(ms),
            first_list_error(ms, 0) == first_list_error(ms, i as int),
            out@.len() == i,
            forall|j: int| 0 <= j < i ==> text_list_error(#[trigger] ms[j]) is None,
            forall|j: int|
                0 <= j < i ==> (#[trigger] out@[j])@.map_values(|t: String| t@) == texts_of(
                    ms[j]->Array_0,
                ),
        decreases rows@.len() - i,
    {
        proof {
            lemma_frames_view_index(rows@, rows@.len(), i as int);
        }
        match frame_strings(&rows[i]) {
            Ok(row) => {
                out.push(row);
            },
            Err(e) => {
                proof {
                    assert(text_list_error(ms[i as int]) == Some(e));
                    assert(first_list_error(ms, i as int) == Some(e));
                }
                return Err(e);
            },
        }
        i = i + 1;
    }
    Ok(out)
}

/// The map that the pairs of bulk strings from item `i` on add to `m`,
/// stopping at the first pair that is not two bulk strings.
pub open spec fn bulk_pairs(items: Seq<FrameModel>, i: int, m: Map<Seq<u8>, Seq<u8>>) -> Map<
    Seq<u8>,
    Seq<u8>,
>
    decreases items.len() - i,
{
    if 0 <= i && i + 1 < items.len() && items[i] is Bulk && items[i + 1] is Bulk {
        bulk_pairs(items, i + 2, m.insert(items[i]->Bulk_0, items[i + 1]->Bulk_0))
    } else {
        m
    }
}

/// An array reply of keys and values, such as that of `CONFIG GET`, as a
/// map; a later key replaces an earlier one.
pub fn frame_pairs<'a>(frame: &Frame<'a>) -> (r: Result<ByteMap<'a>, Error>)
    ensures
        match frame_view(*frame) {
            FrameModel::Array(items) => if items.len() % 2 != 0 {
                r == Err::<ByteMap<'a>, Error>(Error::OddArray)
            } else {
                r matches Ok(map) && map.wf() && map@ == bulk_pairs(items, 0, Map::empty())
            },
            _ => r == Err::<ByteMap<'a>, Error>(Error::UnknownFrameType),
        },
{
    let items = match frame {
        Frame::Array(items) => items,
        _ => return Err(Error::UnknownFrameType),
    };
    let ghost ms = frames_view(items@, items@.len());
    proof {
        lemma_frames_view_len(items@, items@.len());
    }
    if items.len() % 2 != 0 {
        return Err(Error::OddArray);
    }
    let mut map = ByteMap::new();
    let mut i: usize = 0;
    while i < items.len()
        invariant
            i <= items@.len(),
            i % 2 == 0,
            items@.len() % 2 == 0,
            ms == frames_view(items@, items@.len()),
            ms.len() == items@.len(),
            map.wf(),
            bulk_pairs(ms, 0, Map::empty()) == bulk_pairs(ms, i as int, map@),
        ensures
            map.wf(),
            bulk_pairs(ms, 0, Map::empty()) == map@,
        decreases items@.len() - i,
    {
        proof {
            lemma_frames_view_index(items@, items@.len(), i as int);
            lemma_frames_view_index(items@, items@.len(), i + 1);
        }
        let key: &'a [u8] = match &items[i] {
            Frame::Bulk(k) => k,
            _ => break,
        };
        let value: &'a [u8] = match &items[i + 1] {
            Frame::Bulk(v) => v,
            _ => break,
        };
        map.insert(key, value);
        i = i + 2;
    }
    Ok(map)
}


/// Why a reply cannot be read as field/value pairs, if it cannot.
pub open spec fn pairs_error(m: FrameModel) -> Option<Error> {
    match m {
        FrameModel::Array(items) => if items.len() % 2 != 0 {
            Some(Error::OddArray)
        } else {
            None
        },
        _ => Some(Error::UnknownFrameType),
    }
}

/// The error of the first item from `i` on that cannot be read as pairs.
pub open spec fn first_pairs_error(items: Seq<FrameModel>, i: int) -> Option<Error>
    decreases items.len() - i,
{
    if i < 0 || i >= items.len() {
        None
    } else if pairs_error(items[i]) is Some {
        pairs_error(items[i])
    } else {
        first_pairs_error(items, i + 1)
    }
}

/// Why an array reply cannot be read as a list of pair maps, if it cannot.
pub open spec fn pairs_list_error(m: FrameModel) -> Option<Error> {
    match m {
        FrameModel::Array(items) => first_pairs_error(items, 0),
        _ => Some(Error::UnknownFrameType),
    }
}

/// The map that the pairs of an array reply give.
pub open spec fn pairs_of(m: FrameModel) -> Map<Seq<u8>, Seq<u8>> {
    bulk_pairs(m->Array_0, 0, Map::empty())
}

/// An array reply each of whose items is an array of field/value pairs,
/// as a list of maps.
pub fn frame_pair_maps<'a>(frame: &Frame<'a>) -> (r: Result<Vec<ByteMap<'a>>, Error>)
    ensures
        match pairs_list_error(frame_view(*frame)) {
            Some(e) => r matches Err(x) && x == e,
            None => r matches Ok(v) && v@.len() == frame_view(*frame)->Array_0.len() && (forall|j: int|
                0 <= j < v@.len() ==> (#[trigger] v@[j]).wf() && v@[j]@ == pairs_of(
                    frame_view(*frame)->Array_0[j],
                )),
        },
{
    let items = match frame {
        Frame::Array(items) => items,
        _ => return Err(Error::UnknownFrameType),
    };
    let ghost ms = frames_view(items@, items@.len());
    proof {
        lemma_frames_view_len(items@, items@.len());
    }
    let mut out: Vec<ByteMap<'a>> = Vec::new();
    let mut i: usize = 0;
    while i < items.len()
        invariant
            i <= items@.len(),
            ms == frames_view(items@, items@.len()),
            ms.len() == items@.len(),
            frame_view(*frame) == FrameModel::Array(ms),
            first_pairs_error(ms, 0) == first_pairs_error(ms, i as int),
            out@.len() == i,
            forall|j: int| 0 <= j < i ==> (#[trigger] out@[j]).wf() && out@[j]@ == pairs_of(ms[j]),
        decreases items@.len() - i,
    {
        proof {
            lemma_frames_view_index(items@, items@.len(), i as int);
        }
        match frame_pairs(&items[i]) {
            Ok(m) => {
                out.push(m);
            },
            Err(e) => {
                proof {
                    assert(pairs_error(ms[i as int]) == Some(e));
                }
                return Err(e);
            },
        }
        i = i + 1;
    }
    Ok(out)
}

} // verus!

