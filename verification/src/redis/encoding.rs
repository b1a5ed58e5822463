//! The RESP2 encoding of a frame, and the law that parsing an encoding
//! gives back the frame it encodes.

use vstd::prelude::*;
use vstd::utf8::valid_utf8;

use crate::redis::command::crlf;
use crate::redis::connection::{
    crlf_from, lemma_parse_frame_cut, parse_frame, parse_items, FrameModel, Parsed, ParsedItems,
};
use crate::text::{
    all_digits, dec_i64, dec_text, digits_value, lemma_dec_text, lemma_dec_usize_roundtrip,
    unsigned_body,
};

verus! {

/// An integer in decimal, after a `-` when it is negative.
pub open spec fn int_text(v: int) -> Seq<u8> {
    if v < 0 {
        seq![0x2du8] + dec_text((-v) as nat)
    } else {
        dec_text(v as nat)
    }
}

/// The RESP2 encoding of a frame: `+text\r\n`, `-text\r\n`, `:n\r\n`,
/// `$len\r\n` with the bytes and `\r\n`, `$-1\r\n`, or `*count\r\n` followed
/// by the encodings of the items.
pub open spec fn encode_frame(f: FrameModel) -> Seq<u8>
    decreases f, 0nat,
{
    match f {
        FrameModel::Simple(s) => seq![0x2bu8] + s + crlf(),
        FrameModel::Error(s) => seq![0x2du8] + s + crlf(),
        FrameModel::Integer(v) => seq![0x3au8] + int_text(v as int) + crlf(),
        FrameModel::Bulk(b) => seq![0x24u8] + dec_text(b.len()) + crlf() + b + crlf(),
        FrameModel::Null => seq![0x24u8, 0x2du8, 0x31u8, 0x0du8, 0x0au8],
        FrameModel::Array(items) => seq![0x2au8] + dec_text(items.len()) + crlf() + encode_items(
            items,
            0,
        ),
    }
}

/// The encodings of the items from the `i`th on, one after the other.
pub open spec fn encode_items(items: Seq<FrameModel>, i: int) -> Seq<u8>
    decreases items, items.len() - i,
{
    if i < 0 || i >= items.len() {
        Seq::empty()
    } else {
        encode_frame(items[i]) + encode_items(items, i + 1)
    }
}

/// `s` holds no `\r\n`.
pub open spec fn no_crlf(s: Seq<u8>) -> bool {
    forall|k: int| 0 <= k && k + 1 < s.len() ==> !(#[trigger] s[k] == 0x0du8 && s[k + 1] == 0x0au8)
}

/// A frame that its encoding reads back as: simple strings and errors are
/// UTF-8 text without `\r\n`, and bulk and array lengths can be read back
/// as `usize`s with room for the `\r\n` after the bytes.
pub open spec fn encodable(f: FrameModel) -> bool
    decreases f, 0nat,
{
    match f {
        FrameModel::Simple(s) => no_crlf(s) && valid_utf8(s),
        FrameModel::Error(s) => no_crlf(s) && valid_utf8(s),
        FrameModel::Integer(_) => true,
        FrameModel::Bulk(b) => b.len() + 2 <= usize::MAX,
        FrameModel::Null => true,
        FrameModel::Array(items) => items.len() <= usize::MAX && items_encodable(items, 0),
    }
}

/// The items from the `i`th on are encodable.
pub open spec fn items_encodable(items: Seq<FrameModel>, i: int) -> bool
    decreases items, items.len() - i,
{
    if i < 0 || i >= items.len() {
        true
    } else {
        encodable(items[i]) && items_encodable(items, i + 1)
    }
}

/// The encoding ends with an empty simple string or error, three bytes
/// that a parser reading at least four bytes at a time does not take alone.
pub open spec fn ends_short(f: FrameModel) -> bool
    decreases f,
{
    match f {
        FrameModel::Simple(s) => s.len() == 0,
        FrameModel::Error(s) => s.len() == 0,
        FrameModel::Array(items) => items.len() > 0 && ends_short(items[items.len() - 1]),
        _ => false,
    }
}

proof fn lemma_crlf_at(buf: Seq<u8>, p: int, e: int)
    requires
        0 <= p <= e,
        e + 1 < buf.len(),
        buf[e] == 0x0du8,
        buf[e + 1] == 0x0au8,
        forall|k: int| p <= k < e ==> !(#[trigger] buf[k] == 0x0du8 && buf[k + 1] == 0x0au8),
    ensures
        crlf_from(buf, p) == Some(e),
    decreases e - p,
{
    if p < e {
        assert(!(buf[p] == 0x0du8 && buf[p + 1] == 0x0au8));
        lemma_crlf_at(buf, p + 1, e);
    }
}

/// The text of an integer reads back as the integer, and holds only digits
/// and a sign.
proof fn lemma_int_text(v: i64)
    ensures
        dec_i64(int_text(v as int)) == Some(v),
        int_text(v as int).len() > 0,
        forall|k: int|
            0 <= k < int_text(v as int).len() ==> #[trigger] int_text(v as int)[k] != 0x0du8,
{
    let s = int_text(v as int);
    if v < 0 {
        let n = (-(v as int)) as nat;
        lemma_dec_text(n);
        assert(s.drop_first() =~= dec_text(n));
        assert forall|k: int| 0 <= k < s.len() implies #[trigger] s[k] != 0x0du8 by {
            if k > 0 {
                assert(s[k] == dec_text(n)[k - 1]);
            }
        }
        assert(all_digits(s.drop_first(), 10));
        assert(-(digits_value(s.drop_first(), 10) as int) == v);
    } else {
        lemma_dec_text(v as nat);
        assert(0x30 <= s[0] <= 0x39);
        assert(unsigned_body(s) == s);
    }
}

/// Bytes of a sequence that `buf` holds at `pos`.
proof fn lemma_at(buf: Seq<u8>, pos: int, enc: Seq<u8>, k: int)
    requires
        0 <= pos,
        pos + enc.len() <= buf.len(),
        buf.subrange(pos, pos + enc.len()) == enc,
        0 <= k < enc.len(),
    ensures
        buf[pos + k] == enc[k],
{
    assert(buf.subrange(pos, pos + enc.len())[k] == buf[pos + k]);
}

proof fn lemma_text_parses(buf: Seq<u8>, pos: int, enc: Seq<u8>, text: Seq<u8>)
    requires
        0 <= pos,
        pos + enc.len() <= buf.len(),
        buf.subrange(pos, pos + enc.len()) == enc,
        enc.len() == text.len() + 3,
        enc.subrange(1, 1 + text.len() as int) == text,
        enc[1 + text.len() as int] == 0x0du8,
        enc[2 + text.len() as int] == 0x0au8,
        no_crlf(text),
    ensures
        crlf_from(buf, pos + 1) == Some(pos + 1 + text.len() as int),
        buf.subrange(pos + 1, pos + 1 + text.len() as int) == text,
{
    let e = pos + 1 + text.len() as int;
    assert forall|k: int| 0 <= k < text.len() implies buf[pos + 1 + k] == #[trigger] text[k] by {
        lemma_at(buf, pos, enc, 1 + k);
        assert(enc.subrange(1, 1 + text.len() as int)[k] == enc[1 + k]);
    }
    lemma_at(buf, pos, enc, 1 + text.len() as int);
    lemma_at(buf, pos, enc, 2 + text.len() as int);
    assert forall|k: int| pos + 1 <= k < e implies !(#[trigger] buf[k] == 0x0du8 && buf[k + 1]
        == 0x0au8) by {
        let j = k - pos - 1;
        assert(buf[k] == text[j]);
        if j + 1 < text.len() {
            assert(buf[k + 1] == text[j + 1]);
        }
    }
    lemma_crlf_at(buf, pos + 1, e);
    assert(buf.subrange(pos + 1, e) =~= text);
}

proof fn lemma_parse_simple(buf: Seq<u8>, pos: int, f: FrameModel)
    requires
        0 <= pos,
        encodable(f),
        pos + encode_frame(f).len() <= buf.len(),
        buf.subrange(pos, pos + encode_frame(f).len()) == encode_frame(f),
        buf.len() > pos + encode_frame(f).len() || !ends_short(f),
        f is Simple,
    ensures
        parse_frame(buf, pos) == Parsed::Done(f, pos + encode_frame(f).len()),
{
    let enc = encode_frame(f);
    lemma_at(buf, pos, enc, 0);
    match f {
        FrameModel::Simple(s) => {
            assert(enc.subrange(1, 1 + s.len() as int) =~= s);
            lemma_text_parses(buf, pos, enc, s);
        },
        _ => {},
    }
}

proof fn lemma_parse_error(buf: Seq<u8>, pos: int, f: FrameModel)
    requires
        0 <= pos,
        encodable(f),
        pos + encode_frame(f).len() <= buf.len(),
        buf.subrange(pos, pos + encode_frame(f).len()) == encode_frame(f),
        buf.len() > pos + encode_frame(f).len() || !ends_short(f),
        f is Error,
    ensures
        parse_frame(buf, pos) == Parsed::Done(f, pos + encode_frame(f).len()),
{
    let enc = encode_frame(f);
    lemma_at(buf, pos, enc, 0);
    match f {
        FrameModel::Error(s) => {
            assert(enc.subrange(1, 1 + s.len() as int) =~= s);
            lemma_text_parses(buf, pos, enc, s);
        },
        _ => {},
    }
}

proof fn lemma_parse_integer(buf: Seq<u8>, pos: int, f: FrameModel)
    requires
        0 <= pos,
        encodable(f),
        pos + encode_frame(f).len() <= buf.len(),
        buf.subrange(pos, pos + encode_frame(f).len()) == encode_frame(f),
        buf.len() > pos + encode_frame(f).len() || !ends_short(f),
        f is Integer,
    ensures
        parse_frame(buf, pos) == Parsed::Done(f, pos + encode_frame(f).len()),
{
    let enc = encode_frame(f);
    lemma_at(buf, pos, enc, 0);
    match f {
        FrameModel::Integer(v) => {
            let t = int_text(v as int);
            lemma_int_text(v);
            assert(enc.subrange(1, 1 + t.len() as int) =~= t);
            assert(no_crlf(t));
            lemma_text_parses(buf, pos, enc, t);
        },
        _ => {},
    }
}

proof fn lemma_parse_null(buf: Seq<u8>, pos: int, f: FrameModel)
    requires
        0 <= pos,
        encodable(f),
        pos + encode_frame(f).len() <= buf.len(),
        buf.subrange(pos, pos + encode_frame(f).len()) == encode_frame(f),
        buf.len() > pos + encode_frame(f).len() || !ends_short(f),
        f is Null,
    ensures
        parse_frame(buf, pos) == Parsed::Done(f, pos + encode_frame(f).len()),
{
    let enc = encode_frame(f);
    lemma_at(buf, pos, enc, 0);
    match f {
        FrameModel::Null => {
            let t = seq![0x2du8, 0x31u8];
            assert(enc.subrange(1, 3) =~= t);
            assert(no_crlf(t));
            lemma_text_parses(buf, pos, enc, t);
            lemma_at(buf, pos, enc, 1);
        },
        _ => {},
    }
}

proof fn lemma_parse_bulk(buf: Seq<u8>, pos: int, f: FrameModel)
    requires
        0 <= pos,
        encodable(f),
        pos + encode_frame(f).len() <= buf.len(),
        buf.subrange(pos, pos + encode_frame(f).len()) == encode_frame(f),
        buf.len() > pos + encode_frame(f).len() || !ends_short(f),
        f is Bulk,
    ensures
        parse_frame(buf, pos) == Parsed::Done(f, pos + encode_frame(f).len()),
{
    let enc = encode_frame(f);
    lemma_at(buf, pos, enc, 0);
    match f {
        FrameModel::Bulk(b) => {
            let d = dec_text(b.len());
            lemma_dec_text(b.len());
            lemma_dec_usize_roundtrip(b.len() as usize);
            let head = seq![0x24u8] + d + crlf();
            assert(enc == head + b + crlf());
            assert(buf.subrange(pos, pos + head.len()) =~= head) by {
                assert forall|k: int| 0 <= k < head.len() implies buf.subrange(
                    pos,
                    pos + head.len(),
                )[k] == head[k] by {
                    lemma_at(buf, pos, enc, k);
                }
            }
            assert(head.subrange(1, 1 + d.len() as int) =~= d);
            assert forall|k: int| 0 <= k && k + 1 < d.len() implies !(#[trigger] d[k] == 0x0du8
                && d[k + 1] == 0x0au8) by {
                assert(0x30 <= d[k] <= 0x39);
            }
            lemma_text_parses(buf, pos, head, d);
            lemma_at(buf, pos, enc, 1);
            assert(enc[1] == d[0]);
            assert(0x30 <= d[0] <= 0x39);
            let q = pos + head.len();
            assert(buf.subrange(q, q + b.len()) =~= b) by {
                assert forall|k: int| 0 <= k < b.len() implies buf.subrange(q, q + b.len())[k]
                    == b[k] by {
                    lemma_at(buf, pos, enc, head.len() + k);
                }
            }
        },
        _ => {},
    }
}

/// The law: where `buf` holds at `pos` the encoding of an encodable frame,
/// the frame parsed at `pos` is that frame, and it ends where the encoding
/// does. The one exception is an encoding that ends the buffer with an
/// empty simple string or error, which the parser takes for incomplete.
pub proof fn lemma_parse_encoded(buf: Seq<u8>, pos: int, f: FrameModel)
    requires
        0 <= pos,
        encodable(f),
        pos + encode_frame(f).len() <= buf.len(),
        buf.subrange(pos, pos + encode_frame(f).len()) == encode_frame(f),
        buf.len() > pos + encode_frame(f).len() || !ends_short(f),
    ensures
        parse_frame(buf, pos) == Parsed::Done(f, pos + encode_frame(f).len()),
    decreases f, 0nat,
{
    match f {
        FrameModel::Simple(_) => lemma_parse_simple(buf, pos, f),
        FrameModel::Error(_) => lemma_parse_error(buf, pos, f),
        FrameModel::Integer(_) => lemma_parse_integer(buf, pos, f),
        FrameModel::Null => lemma_parse_null(buf, pos, f),
        FrameModel::Bulk(_) => lemma_parse_bulk(buf, pos, f),
        FrameModel::Array(items) => {
            let enc = encode_frame(f);
            lemma_at(buf, pos, enc, 0);
            let d = dec_text(items.len());
            lemma_dec_text(items.len());
            lemma_dec_usize_roundtrip(items.len() as usize);
            let head = seq![0x2au8] + d + crlf();
            let body = encode_items(items, 0);
            assert(enc == head + body);
            assert(buf.subrange(pos, pos + head.len()) =~= head) by {
                assert forall|k: int| 0 <= k < head.len() implies buf.subrange(
                    pos,
                    pos + head.len(),
                )[k] == head[k] by {
                    lemma_at(buf, pos, enc, k);
                }
            }
            assert(head.subrange(1, 1 + d.len() as int) =~= d);
            assert forall|k: int| 0 <= k && k + 1 < d.len() implies !(#[trigger] d[k] == 0x0du8
                && d[k + 1] == 0x0au8) by {
                assert(0x30 <= d[k] <= 0x39);
            }
            lemma_text_parses(buf, pos, head, d);
            let q = pos + head.len();
            assert(buf.subrange(q, q + body.len()) =~= body) by {
                assert forall|k: int| 0 <= k < body.len() implies buf.subrange(q, q + body.len())[k]
                    == body[k] by {
                    lemma_at(buf, pos, enc, head.len() + k);
                }
            }
            lemma_parse_encoded_items(buf, q, items, 0);
            assert(items.subrange(0, items.len() as int) =~= items);
        },
    }
}

/// `lemma_parse_encoded` for the items of an array from the `i`th on.
pub proof fn lemma_parse_encoded_items(buf: Seq<u8>, pos: int, items: Seq<FrameModel>, i: int)
    requires
        0 <= pos,
        0 <= i <= items.len(),
        items_encodable(items, i),
        pos + encode_items(items, i).len() <= buf.len(),
        buf.subrange(pos, pos + encode_items(items, i).len()) == encode_items(items, i),
        i == items.len() || buf.len() > pos + encode_items(items, i).len() || !ends_short(
            items[items.len() - 1],
        ),
    ensures
        parse_items(buf, pos, (items.len() - i) as nat) == ParsedItems::Done(
            items.subrange(i, items.len() as int),
            pos + encode_items(items, i).len(),
        ),
    decreases items, items.len() - i,
{
    if i < items.len() {
        let first = encode_frame(items[i]);
        let rest = encode_items(items, i + 1);
        let all = encode_items(items, i);
        assert(all == first + rest);
        assert(buf.subrange(pos, pos + first.len()) =~= first) by {
            assert forall|k: int| 0 <= k < first.len() implies buf.subrange(pos, pos + first.len())[k]
                == first[k] by {
                lemma_at(buf, pos, all, k);
            }
        }
        let q = pos + first.len();
        if i + 1 < items.len() {
            lemma_encode_items_nonempty(items, i + 1);
        }
        lemma_parse_encoded(buf, pos, items[i]);
        assert(buf.subrange(q, q + rest.len()) =~= rest) by {
            assert forall|k: int| 0 <= k < rest.len() implies buf.subrange(q, q + rest.len())[k]
                == rest[k] by {
                lemma_at(buf, pos, all, first.len() + k);
            }
        }
        lemma_encoding_nonempty(items[i]);
        lemma_parse_encoded_items(buf, q, items, i + 1);
        assert(seq![items[i]] + items.subrange(i + 1, items.len() as int) =~= items.subrange(
            i,
            items.len() as int,
        ));
    } else {
        assert(items.subrange(i, items.len() as int) =~= Seq::<FrameModel>::empty());
    }
}

proof fn lemma_encoding_nonempty(f: FrameModel)
    ensures
        encode_frame(f).len() >= 3,
{
}

proof fn lemma_encode_items_nonempty(items: Seq<FrameModel>, i: int)
    requires
        0 <= i < items.len(),
    ensures
        encode_items(items, i).len() >= 3,
{
    lemma_encoding_nonempty(items[i]);
}

/// Parsing the encoding of an encodable frame, followed by any bytes, gives
/// back the frame and the length of its encoding; without bytes after it,
/// the same holds unless the encoding ends with an empty simple string or
/// error.
pub proof fn lemma_frame_roundtrip(f: FrameModel, rest: Seq<u8>)
    requires
        encodable(f),
        rest.len() > 0 || !ends_short(f),
    ensures
        parse_frame(encode_frame(f) + rest, 0) == Parsed::Done(f, encode_frame(f).len() as int),
{
    let buf = encode_frame(f) + rest;
    assert(buf.subrange(0, encode_frame(f).len() as int) =~= encode_frame(f));
    lemma_parse_encoded(buf, 0, f);
}

/// A strict prefix of the encoding of an encodable frame reads as
/// incomplete.
pub proof fn lemma_encoding_prefix_incomplete(f: FrameModel, cut: int)
    requires
        encodable(f),
        0 <= cut < encode_frame(f).len(),
    ensures
        parse_frame(encode_frame(f).subrange(0, cut), 0) is Incomplete,
{
    let buf = encode_frame(f) + seq![0u8];
    lemma_frame_roundtrip(f, seq![0u8]);
    lemma_parse_frame_cut(buf, cut, 0);
    assert(buf.subrange(0, cut) =~= encode_frame(f).subrange(0, cut));
}

} // verus!
