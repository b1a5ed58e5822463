//! The requests the Redis source sends: a command is a RESP2 array of bulk
//! strings, one per word.

use vstd::prelude::*;
use vstd::string::StringSliceAdditionalSpecFns;

use crate::redis::connection::{crlf_from, parse_frame, FrameModel, Parsed};
use crate::text::{dec_text, dec_usize, lemma_dec_text, lemma_dec_usize_roundtrip, push_dec};

verus! {

/// `\r\n`.
pub open spec fn crlf() -> Seq<u8> {
    seq![0x0du8, 0x0au8]
}

/// One bulk string: `$`, its length in decimal, `\r\n`, the bytes, `\r\n`.
pub open spec fn bulk_bytes(c: Seq<u8>) -> Seq<u8> {
    seq![0x24u8] + dec_text(c.len()) + crlf() + c + crlf()
}

/// The bulk strings of `cs`, one after the other.
pub open spec fn bulks_bytes(cs: Seq<Seq<u8>>) -> Seq<u8>
    decreases cs.len(),
{
    if cs.len() == 0 {
        Seq::empty()
    } else {
        bulk_bytes(cs[0]) + bulks_bytes(cs.drop_first())
    }
}

/// The request for the command `cs`: `*`, the number of words, `\r\n`, then
/// each word as a bulk string.
pub open spec fn command_bytes(cs: Seq<Seq<u8>>) -> Seq<u8> {
    seq![0x2au8] + dec_text(cs.len()) + crlf() + bulks_bytes(cs)
}

/// The bytes of each word.
pub open spec fn command_words(cmds: Seq<&str>) -> Seq<Seq<u8>> {
    cmds.map_values(|c: &str| c.spec_bytes())
}

/// The frames that the words of a command parse back to.
pub open spec fn bulk_models(cs: Seq<Seq<u8>>) -> Seq<FrameModel> {
    cs.map_values(|c: Seq<u8>| FrameModel::Bulk(c))
}

proof fn lemma_bulks_push(cs: Seq<Seq<u8>>, c: Seq<u8>)
    ensures
        bulks_bytes(cs.push(c)) == bulks_bytes(cs) + bulk_bytes(c),
    decreases cs.len(),
{
    if cs.len() == 0 {
        assert(cs.push(c).drop_first() =~= Seq::<Seq<u8>>::empty());
        assert(bulks_bytes(Seq::<Seq<u8>>::empty()) == Seq::<u8>::empty());
        assert(cs.push(c)[0] == c);
        assert(bulks_bytes(cs.push(c)) =~= bulk_bytes(c));
    } else {
        lemma_bulks_push(cs.drop_first(), c);
        assert(cs.push(c).drop_first() =~= cs.drop_first().push(c));
        assert(bulks_bytes(cs.push(c)) =~= bulks_bytes(cs) + bulk_bytes(c));
    }
}

/// Encodes the command `cmds` as the source writes it to the server.
pub fn encode_command(cmds: &[&str]) -> (r: Vec<u8>)
    ensures
        r@ == command_bytes(command_words(cmds@)),
{
    let ghost words = command_words(cmds@);
    let mut out: Vec<u8> = Vec::new();
    out.push(0x2au8);
    push_dec(&mut out, cmds.len() as u64);
    out.push(0x0du8);
    out.push(0x0au8);
    let ghost head = out@;
    assert(head =~= seq![0x2au8] + dec_text(cmds@.len()) + crlf());
    assert(words.take(0) =~= Seq::<Seq<u8>>::empty());
    let mut i: usize = 0;
    while i < cmds.len()
        invariant
            i <= cmds@.len(),
            words == command_words(cmds@),
            head == seq![0x2au8] + dec_text(cmds@.len()) + crlf(),
            out@ == head + bulks_bytes(words.take(i as int)),
        decreases cmds@.len() - i,
    {
        let word: &[u8] = cmds[i].as_bytes();
        let ghost before = out@;
        out.push(0x24u8);
        push_dec(&mut out, word.len() as u64);
        out.push(0x0du8);
        out.push(0x0au8);
        out.extend_from_slice(word);
        out.push(0x0du8);
        out.push(0x0au8);
        proof {
            assert(words[i as int] == word@);
            assert(words.take(i + 1) =~= words.take(i as int).push(word@));
            lemma_bulks_push(words.take(i as int), word@);
            assert(out@ =~= before + bulk_bytes(word@));
        }
        i = i + 1;
    }
    assert(words.take(cmds@.len() as int) =~= words);
    out
}

proof fn lemma_crlf_at(buf: Seq<u8>, p: int, e: int)
    requires
        0 <= p <= e,
        e + 1 < buf.len(),
        buf[e] == 0x0du8,
        buf[e + 1] == 0x0au8,
        forall|k: int| p <= k < e ==> buf[k] != 0x0du8,
    ensures
        crlf_from(buf, p) == Some(e),
    decreases e - p,
{
    if p < e {
        lemma_crlf_at(buf, p + 1, e);
    }
}

proof fn lemma_bulk_parses(buf: Seq<u8>, pos: int, c: Seq<u8>)
    requires
        0 <= pos,
        pos + bulk_bytes(c).len() <= buf.len(),
        buf.subrange(pos, pos + bulk_bytes(c).len()) == bulk_bytes(c),
        c.len() + 2 <= usize::MAX,
    ensures
        parse_frame(buf, pos) == Parsed::Done(FrameModel::Bulk(c), pos + bulk_bytes(c).len()),
{
    let d = dec_text(c.len());
    let b = bulk_bytes(c);
    lemma_dec_text(c.len());
    lemma_dec_usize_roundtrip(c.len() as usize);
    let e = pos + 1 + d.len();
    assert forall|k: int| 0 <= k < b.len() implies buf[pos + k] == #[trigger] b[k] by {
        assert(buf.subrange(pos, pos + b.len())[k] == buf[pos + k]);
    }
    assert(b[0] == 0x24u8);
    assert forall|k: int| pos + 1 <= k < e implies buf[k] != 0x0du8 by {
        assert(b[k - pos] == d[k - pos - 1]);
        assert(0x30 <= d[k - pos - 1] <= 0x39);
    }
    assert(b[1 + d.len() as int] == 0x0du8);
    assert(b[2 + d.len() as int] == 0x0au8);
    lemma_crlf_at(buf, pos + 1, e);
    assert(buf.subrange(pos + 1, e) =~= d) by {
        assert forall|k: int| 0 <= k < d.len() implies buf.subrange(pos + 1, e)[k] == d[k] by {
            assert(b[1 + k] == d[k]);
        }
    }
    assert(buf[pos + 1] != 0x2du8) by {
        assert(b[1] == d[0]);
    }
    let q = e + 2;
    assert(buf.subrange(q, q + c.len()) =~= c) by {
        assert forall|k: int| 0 <= k < c.len() implies buf.subrange(q, q + c.len())[k] == c[k] by {
            assert(b[3 + d.len() + k] == c[k]);
        }
    }
}

proof fn lemma_bulks_parse(buf: Seq<u8>, pos: int, cs: Seq<Seq<u8>>)
    requires
        0 <= pos,
        pos + bulks_bytes(cs).len() <= buf.len(),
        buf.subrange(pos, pos + bulks_bytes(cs).len()) == bulks_bytes(cs),
        forall|i: int| 0 <= i < cs.len() ==> #[trigger] cs[i].len() + 2 <= usize::MAX,
    ensures
        crate::redis::connection::parse_items(buf, pos, cs.len()) == crate::redis::connection::ParsedItems::Done(
            bulk_models(cs),
            pos + bulks_bytes(cs).len(),
        ),
    decreases cs.len(),
{
    if cs.len() == 0 {
        assert(bulk_models(cs) =~= Seq::<FrameModel>::empty());
    } else {
        let first = bulk_bytes(cs[0]);
        let rest = bulks_bytes(cs.drop_first());
        let all = bulks_bytes(cs);
        assert(all == first + rest);
        assert(buf.subrange(pos, pos + first.len()) =~= all.subrange(0, first.len() as int)) by {
            assert forall|k: int| 0 <= k < first.len() implies buf.subrange(pos, pos + first.len())[k]
                == all.subrange(0, first.len() as int)[k] by {
                assert(buf.subrange(pos, pos + all.len())[k] == all[k]);
            }
        }
        assert(all.subrange(0, first.len() as int) =~= first);
        assert(cs[0].len() + 2 <= usize::MAX);
        lemma_bulk_parses(buf, pos, cs[0]);
        let q = pos + first.len();
        assert(buf.subrange(q, q + rest.len()) =~= rest) by {
            assert forall|k: int| 0 <= k < rest.len() implies buf.subrange(q, q + rest.len())[k]
                == rest[k] by {
                assert(buf.subrange(pos, pos + all.len())[first.len() + k] == all[first.len() + k]);
            }
        }
        assert forall|i: int| 0 <= i < cs.drop_first().len() implies #[trigger] cs.drop_first()[i].len()
            + 2 <= usize::MAX by {
            assert(cs.drop_first()[i] == cs[i + 1]);
        }
        lemma_bulks_parse(buf, q, cs.drop_first());
        assert(seq![FrameModel::Bulk(cs[0])] + bulk_models(cs.drop_first()) =~= bulk_models(cs));
    }
}

/// A request parses back, as a RESP2 frame, to the array of its words as
/// bulk strings, and the frame spans the whole request. Words too long for
/// a bulk length to be read back (within 2 of `usize::MAX`) are left out.
pub proof fn lemma_command_roundtrip(cs: Seq<Seq<u8>>)
    requires
        cs.len() <= usize::MAX,
        forall|i: int| 0 <= i < cs.len() ==> #[trigger] cs[i].len() + 2 <= usize::MAX,
    ensures
        parse_frame(command_bytes(cs), 0) == Parsed::Done(
            FrameModel::Array(bulk_models(cs)),
            command_bytes(cs).len() as int,
        ),
{
    let buf = command_bytes(cs);
    let d = dec_text(cs.len());
    lemma_dec_text(cs.len());
    lemma_dec_usize_roundtrip(cs.len() as usize);
    let e: int = 1 + d.len() as int;
    assert forall|k: int| 1 <= k < e implies buf[k] != 0x0du8 by {
        assert(buf[k] == d[k - 1]);
        assert(0x30 <= d[k - 1] <= 0x39);
    }
    lemma_crlf_at(buf, 1, e);
    assert(buf.subrange(1, e) =~= d);
    let body = bulks_bytes(cs);
    assert(buf.subrange(e + 2, e + 2 + body.len()) =~= body);
    lemma_bulks_parse(buf, e + 2, cs);
}

} // verus!
