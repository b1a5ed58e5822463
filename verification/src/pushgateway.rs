//! The grouping key in the path of a Prometheus Pushgateway push:
//! `/metrics/job/<job>{/<label>/<value>}`, a label ending in `@base64`
//! carrying its value in URL-safe base64.

use base64::Engine;
use vstd::prelude::*;
use vstd::string::StringSliceAdditionalSpecFns;
use vstd::utf8::{decode_utf8, decode_utf8_encode_utf8, encode_utf8, valid_utf8};

use crate::strs::{concat4, lemma_ascii_boundaries, split_once_ascii, string_from_utf8};
use crate::text::{first_index, has_prefix, lemma_first_index, starts_with};

verus! {

/// What `base64::prelude::BASE64_URL_SAFE.decode` gives for `input`: the
/// decoded bytes, or none where it reports an error.
pub uninterp spec fn base64_url_decoded(input: Seq<u8>) -> Option<Seq<u8>>;

/// Decodes `input` with the URL-safe, padded base64 engine of the `base64`
/// crate. Trusted: the result is what `base64_url_decoded` names.
#[verifier::external_body]
fn base64_url_decode(input: &[u8]) -> (r: Option<Vec<u8>>)
    ensures
        match r {
            Some(v) => base64_url_decoded(input@) == Some(v@),
            None => base64_url_decoded(input@) is None,
        },
{
    match base64::prelude::BASE64_URL_SAFE.decode(input) {
        Ok(v) => Some(v),
        Err(_) => None,
    }
}

/// Why a push path does not give a grouping key; each is answered with
/// status 400.
#[derive(Debug, PartialEq, Eq)]
pub enum PathError {
    /// The path does not start with `/metrics/job`.
    NotGroupingPath,
    /// A label has no value.
    OddSegments,
    /// `job@base64` with a value of padding only.
    EmptyJob,
    /// The value of the `@base64` label `key` is not base64.
    InvalidBase64 { key: String, value: String },
    /// The value of the `@base64` label `key` does not decode to UTF-8.
    InvalidUtf8 { key: String },
}

/// A path error as plain values, the texts as UTF-8 bytes.
pub enum PathErrorModel {
    NotGroupingPath,
    OddSegments,
    EmptyJob,
    InvalidBase64(Seq<u8>, Seq<u8>),
    InvalidUtf8(Seq<u8>),
}

impl PathError {
    pub open spec fn model(self) -> PathErrorModel {
        match self {
            PathError::NotGroupingPath => PathErrorModel::NotGroupingPath,
            PathError::OddSegments => PathErrorModel::OddSegments,
            PathError::EmptyJob => PathErrorModel::EmptyJob,
            PathError::InvalidBase64 { key, value } => PathErrorModel::InvalidBase64(
                encode_utf8(key@),
                encode_utf8(value@),
            ),
            PathError::InvalidUtf8 { key } => PathErrorModel::InvalidUtf8(encode_utf8(key@)),
        }
    }

    /// The text of the error.
    pub open spec fn message_spec(self) -> Seq<char> {
        match self {
            PathError::NotGroupingPath => "Path must begin with '/metrics/job'"@,
            PathError::OddSegments => "Request path must have an even number of segments to form grouping key"@,
            PathError::EmptyJob => "Job must not have an empty value"@,
            PathError::InvalidBase64 { key, value } => "Grouping key invalid - invalid base64 value for key "@
                + key@ + ": "@ + value@,
            PathError::InvalidUtf8 { key } => "Grouping key invalid - invalid UTF-8 in decoded base64 value for key "@
                + key@ + ""@ + ""@,
        }
    }

    /// The text of the error.
    pub fn message(&self) -> (r: String)
        ensures
            r@ == self.message_spec(),
    {
        match self {
            PathError::NotGroupingPath => "Path must begin with '/metrics/job'".to_owned(),
            PathError::OddSegments => "Request path must have an even number of segments to form grouping key".to_owned(),
            PathError::EmptyJob => "Job must not have an empty value".to_owned(),
            PathError::InvalidBase64 { key, value } => concat4(
                "Grouping key invalid - invalid base64 value for key ",
                key.as_str(),
                ": ",
                value.as_str(),
            ),
            PathError::InvalidUtf8 { key } => concat4(
                "Grouping key invalid - invalid UTF-8 in decoded base64 value for key ",
                key.as_str(),
                "",
                "",
            ),
        }
    }
}

/// `/metrics/job`
pub open spec fn job_prefix() -> Seq<u8> {
    seq![0x2fu8, 0x6du8, 0x65u8, 0x74u8, 0x72u8, 0x69u8, 0x63u8, 0x73u8, 0x2fu8, 0x6au8, 0x6fu8, 0x62u8]
}

/// `@base64`
pub open spec fn base64_suffix() -> Seq<u8> {
    seq![0x40u8, 0x62u8, 0x61u8, 0x73u8, 0x65u8, 0x36u8, 0x34u8]
}

/// `job`
pub open spec fn job_key() -> Seq<u8> {
    seq![0x6au8, 0x6fu8, 0x62u8]
}

/// The pieces of `s` between `/`, as `str::split('/')` yields them.
pub open spec fn pieces(s: Seq<u8>) -> Seq<Seq<u8>>
    decreases s.len(),
{
    match first_index(s, 0x2fu8) {
        None => seq![s],
        Some(i) => if 0 <= i < s.len() {
            seq![s.subrange(0, i)] + pieces(s.subrange(i + 1, s.len() as int))
        } else {
            seq![s]
        },
    }
}

/// `s` ends with `@base64`.
pub open spec fn has_base64_suffix(s: Seq<u8>) -> bool {
    s.len() >= 7 && s.subrange(s.len() - 7, s.len() as int) == base64_suffix()
}

/// `s` with the `=` padding that it lacks appended: as many as bring its
/// length up to a multiple of four.
pub open spec fn padded(s: Seq<u8>) -> Seq<u8> {
    s + Seq::new(((4 - s.len() % 4) % 4) as nat, |i: int| 0x3du8)
}

/// The label that a `key`/`value` pair of the path gives. A key without
/// `@base64` keeps its value. With it, a value of `=` only is the empty
/// text (refused for the job), and any other value is base64-decoded after
/// padding and must decode to UTF-8.
pub open spec fn decode_pair(key: Seq<u8>, value: Seq<u8>) -> Result<(Seq<u8>, Seq<u8>), PathErrorModel> {
    if !has_base64_suffix(key) {
        Ok((key, value))
    } else {
        let stripped = key.subrange(0, key.len() - 7);
        if forall|j: int| 0 <= j < value.len() ==> value[j] == 0x3du8 {
            if stripped == job_key() {
                Err(PathErrorModel::EmptyJob)
            } else {
                Ok((stripped, Seq::empty()))
            }
        } else {
            match base64_url_decoded(padded(value)) {
                None => Err(PathErrorModel::InvalidBase64(key, value)),
                Some(d) => if valid_utf8(d) {
                    Ok((stripped, d))
                } else {
                    Err(PathErrorModel::InvalidUtf8(key))
                },
            }
        }
    }
}

/// The labels of the segments `segs`, taken two by two.
pub open spec fn labels_of(segs: Seq<Seq<u8>>) -> Result<Seq<(Seq<u8>, Seq<u8>)>, PathErrorModel>
    decreases segs.len(),
{
    if segs.len() == 0 {
        Ok(Seq::empty())
    } else if segs.len() == 1 {
        Err(PathErrorModel::OddSegments)
    } else {
        match decode_pair(segs[0], segs[1]) {
            Err(e) => Err(e),
            Ok(l) => match labels_of(segs.subrange(2, segs.len() as int)) {
                Ok(rest) => Ok(seq![l] + rest),
                Err(e) => Err(e),
            },
        }
    }
}

/// The grouping key of a push path: the labels of the segments after
/// `/metrics`, in order.
pub open spec fn path_labels(path: Seq<u8>) -> Result<Seq<(Seq<u8>, Seq<u8>)>, PathErrorModel> {
    if !has_prefix(path, job_prefix()) {
        Err(PathErrorModel::NotGroupingPath)
    } else {
        labels_of(pieces(path).subrange(2, pieces(path).len() as int))
    }
}

/// The labels as UTF-8 bytes.
pub open spec fn labels_bytes(v: Seq<(String, String)>) -> Seq<(Seq<u8>, Seq<u8>)> {
    v.map_values(|p: (String, String)| (encode_utf8(p.0@), encode_utf8(p.1@)))
}

fn all_padding(s: &[u8]) -> (r: bool)
    ensures
        r == forall|j: int| 0 <= j < s@.len() ==> s@[j] == 0x3du8,
{
    let mut i: usize = 0;
    while i < s.len()
        invariant
            i <= s@.len(),
            forall|j: int| 0 <= j < i ==> s@[j] == 0x3du8,
        decreases s@.len() - i,
    {
        if s[i] != 0x3du8 {
            return false;
        }
        i = i + 1;
    }
    true
}

fn pad(s: &[u8]) -> (r: Vec<u8>)
    ensures
        r@ == padded(s@),
{
    let mut out: Vec<u8> = Vec::new();
    let mut i: usize = 0;
    while i < s.len()
        invariant
            i <= s@.len(),
            out@ =~= s@.take(i as int),
        decreases s@.len() - i,
    {
        out.push(s[i]);
        i = i + 1;
    }
    let missing = (4 - s.len() % 4) % 4;
    let mut k: usize = 0;
    while k < missing
        invariant
            k <= missing,
            missing == (4 - s@.len() % 4) % 4,
            out@ =~= s@ + Seq::new(k as nat, |j: int| 0x3du8),
        decreases missing - k,
    {
        out.push(0x3du8);
        k = k + 1;
    }
    out
}

/// Decodes one `key`/`value` pair of the path.
pub fn decode_label_pair(key: &str, value: &str) -> (r: Result<(String, String), PathError>)
    ensures
        match decode_pair(key.spec_bytes(), value.spec_bytes()) {
            Ok(l) => r matches Ok(p) && encode_utf8(p.0@) == l.0 && encode_utf8(p.1@) == l.1,
            Err(e) => r matches Err(x) && x.model() == e,
        },
{
    let kb = key.as_bytes();
    let n = kb.len();
    proof {
        assert([0x40u8, 0x62u8, 0x61u8, 0x73u8, 0x65u8, 0x36u8, 0x34u8]@ =~= base64_suffix());
        assert([0x6au8, 0x6fu8, 0x62u8]@ =~= job_key());
    }
    let suffixed = n >= 7 && {
        let tail = &kb[n - 7..n];
        assert(tail@ =~= kb@.subrange(n - 7, n as int));
        crate::text::bytes_eq(tail, &[0x40u8, 0x62u8, 0x61u8, 0x73u8, 0x65u8, 0x36u8, 0x34u8])
    };
    if !suffixed {
        return Ok((key.to_owned(), value.to_owned()));
    }
    proof {
        vstd::utf8::encode_utf8_valid_utf8(key@);
        lemma_ascii_boundaries(key.spec_bytes(), n - 7);
    }
    let (stripped, _rest) = key.split_at(n - 7);
    let vb = value.as_bytes();
    if all_padding(vb) {
        if crate::text::is_word(stripped.as_bytes(), &[0x6au8, 0x6fu8, 0x62u8]) {
            return Err(PathError::EmptyJob);
        }
        let empty = String::new();
        proof {
            assert(encode_utf8(empty@) =~= Seq::<u8>::empty());
        }
        return Ok((stripped.to_owned(), empty));
    }
    let input = pad(vb);
    match base64_url_decode(input.as_slice()) {
        None => Err(PathError::InvalidBase64 { key: key.to_owned(), value: value.to_owned() }),
        Some(decoded) => {
            let ghost d = decoded@;
            match string_from_utf8(decoded) {
                None => Err(PathError::InvalidUtf8 { key: key.to_owned() }),
                Some(s) => {
                    proof {
                        decode_utf8_encode_utf8(d);
                    }
                    Ok((stripped.to_owned(), s))
                },
            }
        },
    }
}

proof fn lemma_pieces_step(s: Seq<u8>, i: int)
    requires
        first_index(s, 0x2fu8) == Some(i),
        0 <= i < s.len(),
    ensures
        pieces(s) == seq![s.subrange(0, i)] + pieces(s.subrange(i + 1, s.len() as int)),
{
}

/// The next piece of `rest`: the text before its first `/`, and what
/// follows that `/`, if anything does.
fn next_piece(rest: &str) -> (r: (&str, Option<&str>))
    ensures
        match r.1 {
            Some(t) => pieces(rest.spec_bytes()) == seq![r.0.spec_bytes()] + pieces(t.spec_bytes())
                && t.spec_bytes() == rest.spec_bytes().subrange(
                r.0.spec_bytes().len() + 1 as int,
                rest.spec_bytes().len() as int,
            ) && r.0.spec_bytes().len() < rest.spec_bytes().len() && rest.spec_bytes()[r.0.spec_bytes().len()
                as int] == 0x2fu8 && forall|k: int|
                0 <= k < r.0.spec_bytes().len() ==> rest.spec_bytes()[k] != 0x2fu8,
            None => pieces(rest.spec_bytes()) == seq![r.0.spec_bytes()] && forall|k: int|
                0 <= k < rest.spec_bytes().len() ==> rest.spec_bytes()[k] != 0x2fu8,
        },
{
    proof {
        lemma_first_index(rest.spec_bytes(), 0x2fu8);
    }
    match split_once_ascii(rest, 0x2fu8) {
        Some((piece, tail)) => {
            proof {
                let i = first_index(rest.spec_bytes(), 0x2fu8)->0;
                lemma_pieces_step(rest.spec_bytes(), i);
            }
            (piece, Some(tail))
        },
        None => (rest, None),
    }
}

/// Reads the grouping key of a push path.
pub fn parse_path_labels(path: &str) -> (r: Result<Vec<(String, String)>, PathError>)
    ensures
        match path_labels(path.spec_bytes()) {
            Ok(ls) => r matches Ok(v) && labels_bytes(v@) == ls,
            Err(e) => r matches Err(x) && x.model() == e,
        },
{
    proof {
        assert([0x2fu8, 0x6du8, 0x65u8, 0x74u8, 0x72u8, 0x69u8, 0x63u8, 0x73u8, 0x2fu8, 0x6au8, 0x6fu8, 0x62u8]@ =~= job_prefix());
    }
    if !starts_with(path.as_bytes(), &[0x2fu8, 0x6du8, 0x65u8, 0x74u8, 0x72u8, 0x69u8, 0x63u8, 0x73u8, 0x2fu8, 0x6au8, 0x6fu8, 0x62u8]) {
        return Err(PathError::NotGroupingPath);
    }
    let ghost pb = path.spec_bytes();
    assert(pb[0] == 0x2fu8 && pb[8] == 0x2fu8);
    let (_empty, after_root) = next_piece(path);
    let r1 = match after_root {
        Some(t) => t,
        None => {
            return Err(PathError::NotGroupingPath);
        },
    };
    proof {
        if _empty.spec_bytes().len() > 0 {
            assert(pb[0] != 0x2fu8);
        }
        assert(r1.spec_bytes() =~= pb.subrange(1, pb.len() as int));
        assert(r1.spec_bytes()[7] == 0x2fu8);
    }
    let (_metrics, after_metrics) = next_piece(r1);
    let mut rest = match after_metrics {
        Some(t) => t,
        None => {
            return Err(PathError::NotGroupingPath);
        },
    };
    let ghost all = pieces(pb).subrange(2, pieces(pb).len() as int);
    assert(all =~= pieces(rest.spec_bytes()));
    let mut labels: Vec<(String, String)> = Vec::new();
    let mut more = true;
    assert(labels_bytes(labels@) =~= Seq::<(Seq<u8>, Seq<u8>)>::empty());
    proof {
        match labels_of(all) {
            Ok(t) => {
                assert(Seq::<(Seq<u8>, Seq<u8>)>::empty() + t =~= t);
            },
            Err(_) => {},
        }
    }
    while more
        invariant
            has_prefix(path.spec_bytes(), job_prefix()),
            all == pieces(path.spec_bytes()).subrange(2, pieces(path.spec_bytes()).len() as int),
            labels_of(all) == (if more {
                match labels_of(pieces(rest.spec_bytes())) {
                    Ok(tail) => Ok(labels_bytes(labels@) + tail),
                    Err(e) => Err(e),
                }
            } else {
                Ok(labels_bytes(labels@))
            }),
        decreases (if more {
            rest.spec_bytes().len() + 1
        } else {
            0
        }),
    {
        let ghost segs = pieces(rest.spec_bytes());
        let (key, after_key) = next_piece(rest);
        let r2 = match after_key {
            Some(t) => t,
            None => {
                return Err(PathError::OddSegments);
            },
        };
        let (value, after_value) = next_piece(r2);
        proof {
            assert(segs[0] == key.spec_bytes());
            assert(segs[1] == value.spec_bytes());
            match after_value {
                Some(t) => {
                    assert(segs.subrange(2, segs.len() as int) =~= pieces(t.spec_bytes()));
                },
                None => {
                    assert(segs.subrange(2, segs.len() as int) =~= Seq::<Seq<u8>>::empty());
                },
            }
        }
        match decode_label_pair(key, value) {
            Err(e) => {
                return Err(e);
            },
            Ok(label) => {
                let ghost before = labels@;
                let ghost l = (encode_utf8(label.0@), encode_utf8(label.1@));
                labels.push(label);
                assert(labels_bytes(labels@) =~= labels_bytes(before).push(l));
                proof {
                    match labels_of(segs.subrange(2, segs.len() as int)) {
                        Ok(tail) => {
                            assert(labels_bytes(before) + (seq![l] + tail) =~= labels_bytes(labels@) + tail);
                        },
                        Err(_) => {},
                    }
                }
            },
        }
        match after_value {
            Some(t) => {
                rest = t;
            },
            None => {
                more = false;
            },
        }
    }
    Ok(labels)
}

/// `instance`
pub open spec fn instance_key() -> Seq<u8> {
    seq![0x69u8, 0x6eu8, 0x73u8, 0x74u8, 0x61u8, 0x6eu8, 0x63u8, 0x65u8]
}

/// Some label of `ls` is `instance`.
pub open spec fn has_instance(ls: Seq<(Seq<u8>, Seq<u8>)>) -> bool {
    exists|i: int| 0 <= i < ls.len() && (#[trigger] ls[i]).0 == instance_key()
}

/// The grouping key of a push, with an `instance` label naming the pushing
/// peer added at the end unless the path gave one.
pub fn with_instance_label(labels: Vec<(String, String)>, peer: &str) -> (r: Vec<(String, String)>)
    ensures
        has_instance(labels_bytes(labels@)) ==> r@ == labels@,
        !has_instance(labels_bytes(labels@)) ==> labels_bytes(r@) == labels_bytes(labels@).push(
            (instance_key(), peer.spec_bytes()),
        ),
{
    let key: [u8; 8] = [0x69u8, 0x6eu8, 0x73u8, 0x74u8, 0x61u8, 0x6eu8, 0x63u8, 0x65u8];
    assert(key@ =~= instance_key());
    let ghost ls = labels_bytes(labels@);
    let mut i: usize = 0;
    while i < labels.len()
        invariant
            i <= labels@.len(),
            ls == labels_bytes(labels@),
            key@ == instance_key(),
            forall|j: int| 0 <= j < i ==> (#[trigger] ls[j]).0 != instance_key(),
        decreases labels@.len() - i,
    {
        let name: &[u8] = labels[i].0.as_str().as_bytes();
        assert(ls[i as int].0 == name@);
        if crate::text::bytes_eq(name, key.as_slice()) {
            assert(has_instance(ls));
            return labels;
        }
        i = i + 1;
    }
    let mut labels = labels;
    let ghost before = labels@;
    let name: String = "instance".to_owned();
    proof {
        reveal_strlit("instance");
        assert(encode_utf8(name@) =~= instance_key()) by {
            vstd::utf8::is_ascii_chars_encode_utf8(name@);
        }
    }
    labels.push((name, peer.to_owned()));
    assert(labels_bytes(labels@) =~= labels_bytes(before).push((instance_key(), peer.spec_bytes())));
    labels
}


/// The seconds and nanoseconds of a sample time given in milliseconds since
/// the epoch: the quotient by 1000, rounded toward zero, and the remainder
/// in nanoseconds. A negative time that is not a whole second has a
/// negative remainder, which does not fit the nanoseconds; it is left out.
pub fn timestamp_parts(millis: i64) -> (r: (i64, u32))
    requires
        millis >= 0 || millis % 1000 == 0,
    ensures
        r.0 == millis / 1000,
        r.1 == (millis % 1000) * 1_000_000,
        r.1 < 1_000_000_000,
{
    let secs = millis / 1000;
    let rem = millis % 1000;
    assert(0 <= rem < 1000);
    (secs, rem as u32 * 1_000_000)
}

} // verus!
