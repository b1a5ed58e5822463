//! The samples that the collectors emit: a name, a description, a kind, an
//! integer value and labels.

use vstd::prelude::*;
use vstd::string::StringSliceAdditionalSpecFns;
use vstd::utf8::encode_utf8;

verus! {

/// How a sample aggregates.
#[derive(Clone, Copy, Debug, PartialEq, Eq)]
pub enum Kind {
    /// A value that goes up and down.
    Gauge,
    /// A running total.
    Sum,
}

/// The value of a label: fixed text, bytes of the input, a number written
/// in decimal, or a number written in lower-case hex with at least `digits`
/// digits (zero-padded), after `0x` where `prefixed`.
#[derive(Clone, Copy, Debug, PartialEq, Eq)]
pub enum TagValue<'a> {
    Text(&'static str),
    Field(&'a [u8]),
    Number(u64),
    Hex { value: u64, digits: u8, prefixed: bool },
}

/// A label value as a plain value.
pub enum TagModel {
    Text(&'static str),
    Field(Seq<u8>),
    Number(u64),
    Hex { value: u64, digits: u8, prefixed: bool },
}

/// The model of a label value.
pub open spec fn tag_view(t: TagValue) -> TagModel {
    match t {
        TagValue::Text(s) => TagModel::Text(s),
        TagValue::Field(b) => TagModel::Field(b@),
        TagValue::Number(n) => TagModel::Number(n),
        TagValue::Hex { value, digits, prefixed } => TagModel::Hex { value, digits, prefixed },
    }
}

/// One sample.
#[derive(Debug, PartialEq, Eq)]
pub struct Sample<'a> {
    pub name: &'static str,
    pub description: &'static str,
    pub kind: Kind,
    pub value: i128,
    pub tags: Vec<(&'static str, TagValue<'a>)>,
}

/// A sample as plain values.
pub struct SampleModel {
    pub name: &'static str,
    pub description: &'static str,
    pub kind: Kind,
    pub value: int,
    pub tags: Seq<(&'static str, TagModel)>,
}

/// The models of a sequence of labels.
pub open spec fn tags_view(s: Seq<(&'static str, TagValue)>) -> Seq<(&'static str, TagModel)> {
    s.map_values(|t: (&'static str, TagValue)| (t.0, tag_view(t.1)))
}

impl<'a> View for Sample<'a> {
    type V = SampleModel;

    open spec fn view(&self) -> SampleModel {
        SampleModel {
            name: self.name,
            description: self.description,
            kind: self.kind,
            value: self.value as int,
            tags: tags_view(self.tags@),
        }
    }
}

/// The models of a sequence of samples.
pub open spec fn samples_view(s: Seq<Sample>) -> Seq<SampleModel> {
    s.map_values(|x: Sample| x@)
}

/// No labels.
pub fn no_tags<'a>() -> (r: Vec<(&'static str, TagValue<'a>)>)
    ensures
        tags_view(r@) == Seq::<(&'static str, TagModel)>::empty(),
{
    let r: Vec<(&'static str, TagValue<'a>)> = Vec::new();
    assert(tags_view(r@) =~= Seq::<(&'static str, TagModel)>::empty());
    r
}

/// One label.
pub fn one_tag<'a>(key: &'static str, value: TagValue<'a>) -> (r: Vec<(&'static str, TagValue<'a>)>)
    ensures
        tags_view(r@) == seq![(key, tag_view(value))],
{
    let mut r: Vec<(&'static str, TagValue<'a>)> = Vec::new();
    r.push((key, value));
    assert(tags_view(r@) =~= seq![(key, tag_view(value))]);
    r
}

/// Three labels.
pub fn three_tags<'a>(
    k1: &'static str,
    v1: TagValue<'a>,
    k2: &'static str,
    v2: TagValue<'a>,
    k3: &'static str,
    v3: TagValue<'a>,
) -> (r: Vec<(&'static str, TagValue<'a>)>)
    ensures
        tags_view(r@) == seq![(k1, tag_view(v1)), (k2, tag_view(v2)), (k3, tag_view(v3))],
{
    let mut r: Vec<(&'static str, TagValue<'a>)> = Vec::new();
    r.push((k1, v1));
    r.push((k2, v2));
    r.push((k3, v3));
    assert(tags_view(r@) =~= seq![(k1, tag_view(v1)), (k2, tag_view(v2)), (k3, tag_view(v3))]);
    r
}

/// Two labels.
pub fn two_tags<'a>(k1: &'static str, v1: TagValue<'a>, k2: &'static str, v2: TagValue<'a>) -> (r: Vec<
    (&'static str, TagValue<'a>),
>)
    ensures
        tags_view(r@) == seq![(k1, tag_view(v1)), (k2, tag_view(v2))],
{
    let mut r: Vec<(&'static str, TagValue<'a>)> = Vec::new();
    r.push((k1, v1));
    r.push((k2, v2));
    assert(tags_view(r@) =~= seq![(k1, tag_view(v1)), (k2, tag_view(v2))]);
    r
}

/// A gauge.
pub open spec fn gauge(
    name: &'static str,
    description: &'static str,
    value: int,
    tags: Seq<(&'static str, TagModel)>,
) -> SampleModel {
    SampleModel { name, description, kind: Kind::Gauge, value, tags }
}

/// Appends a gauge to `out`.
pub fn push_gauge<'a>(
    out: &mut Vec<Sample<'a>>,
    name: &'static str,
    description: &'static str,
    value: i128,
    tags: Vec<(&'static str, TagValue<'a>)>,
)
    ensures
        samples_view(final(out)@) == samples_view(old(out)@).push(
            gauge(name, description, value as int, tags_view(tags@)),
        ),
{
    let ghost before = out@;
    out.push(Sample { name, description, kind: Kind::Gauge, value, tags });
    assert(samples_view(out@) =~= samples_view(before).push(
        gauge(name, description, value as int, tags_view(tags@)),
    ));
}

/// Appends a label.
pub fn push_tag<'a>(tags: &mut Vec<(&'static str, TagValue<'a>)>, key: &'static str, value: TagValue<'a>)
    ensures
        tags_view(final(tags)@) == tags_view(old(tags)@).push((key, tag_view(value))),
{
    let ghost before = tags@;
    tags.push((key, value));
    assert(tags_view(tags@) =~= tags_view(before).push((key, tag_view(value))));
}

/// A copy of the labels.
pub fn copy_tags<'a>(tags: &Vec<(&'static str, TagValue<'a>)>) -> (r: Vec<(&'static str, TagValue<'a>)>)
    ensures
        tags_view(r@) == tags_view(tags@),
{
    let mut r: Vec<(&'static str, TagValue<'a>)> = Vec::new();
    let mut i: usize = 0;
    while i < tags.len()
        invariant
            i <= tags@.len(),
            tags_view(r@) == tags_view(tags@.take(i as int)),
        decreases tags@.len() - i,
    {
        let (k, v) = tags[i];
        push_tag(&mut r, k, v);
        assert(tags@.take(i + 1) =~= tags@.take(i as int).push(tags@[i as int]));
        i = i + 1;
    }
    assert(tags@.take(tags@.len() as int) =~= tags@);
    r
}

/// A label with the text of `s`.
pub open spec fn field(s: String) -> TagModel {
    TagModel::Field(encode_utf8(s@))
}

/// The label with the text of `s`.
pub fn field_of<'a>(s: &'a String) -> (r: TagValue<'a>)
    ensures
        tag_view(r) == field(*s),
{
    TagValue::Field(s.as_str().as_bytes())
}

/// A counter.
pub open spec fn sum(
    name: &'static str,
    description: &'static str,
    value: int,
    tags: Seq<(&'static str, TagModel)>,
) -> SampleModel {
    SampleModel { name, description, kind: Kind::Sum, value, tags }
}

/// Appends a counter to `out`.
pub fn push_sum<'a>(
    out: &mut Vec<Sample<'a>>,
    name: &'static str,
    description: &'static str,
    value: i128,
    tags: Vec<(&'static str, TagValue<'a>)>,
)
    ensures
        samples_view(final(out)@) == samples_view(old(out)@).push(
            sum(name, description, value as int, tags_view(tags@)),
        ),
{
    let ghost before = out@;
    out.push(Sample { name, description, kind: Kind::Sum, value, tags });
    assert(samples_view(out@) =~= samples_view(before).push(
        sum(name, description, value as int, tags_view(tags@)),
    ));
}

} // verus!
