//! Messages as byte strings, the form both transports carry.

use vstd::prelude::*;

verus! {

/// The parts of a message on the wire, as mathematical byte strings.
pub struct WireParts {
    /// JSON text of the header.
    pub header: Seq<u8>,
    /// JSON text of the parent header.
    pub parent_header: Seq<u8>,
    /// JSON text of the content.
    pub content: Seq<u8>,
    /// Extra binary buffers, in order.
    pub buffers: Seq<Seq<u8>>,
}

/// A message whose JSON parts are rendered as text.
///
/// A message without a parent carries the JSON literal `null` as its parent
/// header. The metadata part is not kept: it is always written as `{}` and
/// never read. Messages that were taken from a payload hold JSON texts in
/// their header, parent header and content; what the texts say is read by
/// whoever takes the message on.
#[derive(Clone, Debug, PartialEq, Eq)]
pub struct WireMessage {
    /// JSON text of the header.
    pub header: Vec<u8>,
    /// JSON text of the parent header.
    pub parent_header: Vec<u8>,
    /// JSON text of the content.
    pub content: Vec<u8>,
    /// Extra binary buffers, in order.
    pub buffers: Vec<Vec<u8>>,
}

/// The byte strings held by a list of byte vectors.
pub open spec fn views(v: Seq<Vec<u8>>) -> Seq<Seq<u8>> {
    Seq::new(v.len(), |i: int| v[i]@)
}

impl View for WireMessage {
    type V = WireParts;

    open spec fn view(&self) -> WireParts {
        WireParts {
            header: self.header@,
            parent_header: self.parent_header@,
            content: self.content@,
            buffers: views(self.buffers@),
        }
    }
}

/// Whether the bytes are the text of one JSON value.
pub uninterp spec fn is_json(text: Seq<u8>) -> bool;

/// `serde_json::from_slice` of the serde_json crate, asked for a `Value`:
/// whether it reads the bytes as one JSON value.
#[verifier::external_body]
fn reads_as_json(text: &[u8]) -> (yes: bool)
    ensures
        yes == is_json(text@),
{
    serde_json::from_slice::<serde_json::Value>(text).is_ok()
}

impl WireParts {
    /// Header, parent header and content are JSON texts.
    pub open spec fn holds_json(self) -> bool {
        is_json(self.header) && is_json(self.parent_header) && is_json(self.content)
    }
}

impl WireMessage {
    /// Whether header, parent header and content are JSON texts.
    pub fn holds_json(&self) -> (yes: bool)
        ensures
            yes == self@.holds_json(),
    {
        reads_as_json(self.header.as_slice()) && reads_as_json(self.parent_header.as_slice())
            && reads_as_json(self.content.as_slice())
    }
}

/// The metadata part of every outgoing message: the text `{}`.
pub open spec fn empty_object() -> Seq<u8> {
    seq![0x7bu8, 0x7du8]
}

/// All the parts joined end to end.
pub open spec fn concat(parts: Seq<Seq<u8>>) -> Seq<u8>
    decreases parts.len(),
{
    if parts.len() == 0 {
        Seq::empty()
    } else {
        concat(parts.drop_last()) + parts.last()
    }
}

/// Joining the first `i + 1` parts is joining the first `i` and adding part `i`.
pub proof fn lemma_concat_step(parts: Seq<Seq<u8>>, i: int)
    requires
        0 <= i < parts.len(),
    ensures
        concat(parts.take(i + 1)) == concat(parts.take(i)) + parts[i],
{
    assert(parts.take(i + 1).drop_last() =~= parts.take(i));
}

/// The join of the first `i` parts is where the join of all parts starts.
pub proof fn lemma_concat_prefix(parts: Seq<Seq<u8>>, i: int)
    requires
        0 <= i <= parts.len(),
    ensures
        concat(parts.take(i)).len() <= concat(parts).len(),
        concat(parts).subrange(0, concat(parts.take(i)).len() as int) == concat(parts.take(i)),
    decreases parts.len(),
{
    if i == parts.len() {
        assert(parts.take(i) =~= parts);
        assert(concat(parts).subrange(0, concat(parts).len() as int) =~= concat(parts));
    } else {
        let front = parts.drop_last();
        assert(front.take(i) =~= parts.take(i));
        lemma_concat_prefix(front, i);
        let n = concat(parts.take(i)).len() as int;
        assert(concat(parts).subrange(0, n) =~= concat(front).subrange(0, n));
    }
}

/// Part `i` sits in the join right after the first `i` parts.
pub proof fn lemma_concat_part(parts: Seq<Seq<u8>>, i: int)
    requires
        0 <= i < parts.len(),
    ensures
        concat(parts.take(i)).len() + parts[i].len() == concat(parts.take(i + 1)).len(),
        concat(parts.take(i + 1)).len() <= concat(parts).len(),
        concat(parts).subrange(
            concat(parts.take(i)).len() as int,
            concat(parts.take(i + 1)).len() as int,
        ) == parts[i],
{
    lemma_concat_step(parts, i);
    lemma_concat_prefix(parts, i + 1);
    let a = concat(parts.take(i)).len() as int;
    let b = concat(parts.take(i + 1)).len() as int;
    assert(concat(parts).subrange(a, b) =~= concat(parts).subrange(0, b).subrange(a, b));
    assert((concat(parts.take(i)) + parts[i]).subrange(a, b) =~= parts[i]);
}

} // verus!
