//! Framing and signing of kernel messages for the ZeroMQ transport.
//!
//! A multipart message is the ordered list of frames
//!
//! ```text
//! <IDS|MSG>  signature  header  parent_header  metadata  content  buffer_0 ...
//! ```
//!
//! possibly with routing frames in front of the delimiter. The signature is
//! the lowercase hexadecimal HMAC-SHA256 of everything that follows it, keyed
//! with the signing key of the connection.

use hmac::{Hmac, Mac};
use sha2::Sha256;
use vstd::prelude::*;
use vstd::slice::*;
use vstd::string::*;

use super::frames::{
    concat, empty_object, lemma_concat_step, views, WireMessage, WireParts,
};
use crate::octets::{append_bytes, bytes_equal};
use crate::text::{append_decimal, decimal};

verus! {

/// The HMAC-SHA256 tag of `data` under `key`.
pub uninterp spec fn hmac_sha256(key: Seq<u8>, data: Seq<u8>) -> Seq<u8>;

/// `Hmac<Sha256>` of the hmac and sha2 crates: the key is set up with
/// `new_from_slice`, which takes a key of any length, the data is fed with
/// one `update`, and `finalize` gives the tag.
#[verifier::external_body]
fn hmac_sha256_tag(key: &[u8], data: &[u8]) -> (tag: Vec<u8>)
    ensures
        tag@ == hmac_sha256(key@, data@),
{
    let mut mac = <Hmac<Sha256> as Mac>::new_from_slice(key).unwrap();
    mac.update(data);
    mac.finalize().into_bytes().to_vec()
}

/// The frame that separates routing frames from the message: `<IDS|MSG>`.
pub open spec fn delimiter() -> Seq<u8> {
    seq![0x3cu8, 0x49u8, 0x44u8, 0x53u8, 0x7cu8, 0x4du8, 0x53u8, 0x47u8, 0x3eu8]
}

/// The ASCII digit for a value below sixteen, letters in lower case.
pub open spec fn hex_digit(nibble: u8) -> u8 {
    if nibble < 10 {
        (0x30 + nibble) as u8
    } else {
        (0x57 + nibble) as u8
    }
}

/// Two hexadecimal digits per byte, high digit first.
pub open spec fn hex_lower(bytes: Seq<u8>) -> Seq<u8>
    decreases bytes.len(),
{
    if bytes.len() == 0 {
        Seq::empty()
    } else {
        hex_lower(bytes.drop_last()) + seq![
            hex_digit(bytes.last() / 16),
            hex_digit(bytes.last() % 16),
        ]
    }
}

/// The signature frame for the given frames under the given key.
pub open spec fn signature(key: Seq<u8>, signed: Seq<Seq<u8>>) -> Seq<u8> {
    hex_lower(hmac_sha256(key, concat(signed)))
}

/// The frames of an outgoing message that the signature covers.
pub open spec fn zmq_signed(msg: WireParts) -> Seq<Seq<u8>> {
    seq![msg.header, msg.parent_header, empty_object(), msg.content] + msg.buffers
}

/// The frames of an outgoing message.
pub open spec fn zmq_frames(msg: WireParts, key: Seq<u8>) -> Seq<Seq<u8>> {
    seq![delimiter(), signature(key, zmq_signed(msg))] + zmq_signed(msg)
}

/// The index of the first delimiter frame, or the number of frames if there
/// is none.
pub open spec fn zmq_delimiter_index(frames: Seq<Seq<u8>>) -> int
    decreases frames.len(),
{
    if frames.len() == 0 {
        0
    } else if frames[0] == delimiter() {
        0
    } else {
        1 + zmq_delimiter_index(frames.drop_first())
    }
}

/// The frames hold a delimiter, and after it a signature, a header, a parent
/// header, metadata and content.
pub open spec fn zmq_complete(frames: Seq<Seq<u8>>) -> bool {
    zmq_delimiter_index(frames) + 5 < frames.len()
}

/// The frames that the signature of incoming frames covers: all behind the
/// signature frame.
pub open spec fn zmq_covered(frames: Seq<Seq<u8>>) -> Seq<Seq<u8>> {
    frames.skip(zmq_delimiter_index(frames) + 2)
}

/// The frames are complete, and the signature frame is the one that `key`
/// gives for the frames it covers.
pub open spec fn zmq_signed_by(frames: Seq<Seq<u8>>, key: Seq<u8>) -> bool {
    &&& zmq_complete(frames)
    &&& frames[zmq_delimiter_index(frames) + 1] == signature(key, zmq_covered(frames))
}

/// The frames are complete and signed by `key`, and the header, parent
/// header and content that they carry are JSON texts.
pub open spec fn zmq_accepts(frames: Seq<Seq<u8>>, key: Seq<u8>) -> bool {
    &&& zmq_signed_by(frames, key)
    &&& zmq_message(frames).holds_json()
}

/// The message carried by accepted frames.
pub open spec fn zmq_message(frames: Seq<Seq<u8>>) -> WireParts {
    let d = zmq_delimiter_index(frames);
    WireParts {
        header: frames[d + 2],
        parent_header: frames[d + 3],
        content: frames[d + 5],
        buffers: frames.skip(d + 6),
    }
}

/// A position is the delimiter index when no frame before it is a delimiter
/// and it is a delimiter itself or lies behind the last frame.
pub proof fn lemma_delimiter_index(frames: Seq<Seq<u8>>, d: int)
    requires
        0 <= d <= frames.len(),
        forall|k: int| 0 <= k < d ==> frames[k] != delimiter(),
        d < frames.len() ==> frames[d] == delimiter(),
    ensures
        zmq_delimiter_index(frames) == d,
    decreases frames.len(),
{
    if d > 0 {
        let rest = frames.drop_first();
        assert forall|k: int| 0 <= k < d - 1 implies rest[k] != delimiter() by {
            assert(rest[k] == frames[k + 1]);
        }
        lemma_delimiter_index(rest, d - 1);
    }
}

/// The hexadecimal digit of a value below sixteen.
fn hex_digit_of(nibble: u8) -> (digit: u8)
    requires
        nibble < 16,
    ensures
        digit == hex_digit(nibble),
{
    if nibble < 10 {
        0x30 + nibble
    } else {
        0x57 + nibble
    }
}

/// Write bytes as lowercase hexadecimal digits.
pub fn to_hex_lower(bytes: &[u8]) -> (digits: Vec<u8>)
    ensures
        digits@ == hex_lower(bytes@),
{
    let mut digits: Vec<u8> = Vec::new();
    let mut i: usize = 0;
    assert(bytes@.take(0) =~= Seq::<u8>::empty());
    while i < bytes.len()
        invariant
            i <= bytes.len(),
            digits@ == hex_lower(bytes@.take(i as int)),
        decreases bytes.len() - i,
    {
        let byte: u8 = bytes[i];
        digits.push(hex_digit_of(byte / 16));
        digits.push(hex_digit_of(byte % 16));
        assert(bytes@.take(i + 1).drop_last() =~= bytes@.take(i as int));
        assert(digits@ =~= hex_lower(bytes@.take(i as int)) + seq![
            hex_digit(byte / 16),
            hex_digit(byte % 16),
        ]);
        i += 1;
    }
    assert(bytes@.take(i as int) =~= bytes@);
    digits
}

/// Join byte strings end to end.
fn concat_all(parts: &[Vec<u8>]) -> (joined: Vec<u8>)
    ensures
        joined@ == concat(views(parts@)),
{
    let ghost segs = views(parts@);
    let mut joined: Vec<u8> = Vec::new();
    let mut i: usize = 0;
    assert(segs.take(0) =~= Seq::<Seq<u8>>::empty());
    while i < parts.len()
        invariant
            i <= parts.len(),
            segs == views(parts@),
            joined@ == concat(segs.take(i as int)),
        decreases parts.len() - i,
    {
        proof {
            lemma_concat_step(segs, i as int);
        }
        append_bytes(&mut joined, parts[i].as_slice());
        i += 1;
    }
    assert(segs.take(i as int) =~= segs);
    joined
}

/// Sign frames with HMAC-SHA256 under the kernel's signing key.
///
/// The result is the signature frame: the tag of the frames joined end to
/// end, written as lowercase hexadecimal digits.
pub fn sign_message(signing_key: &str, bytes: &[Vec<u8>]) -> (digits: Vec<u8>)
    ensures
        digits@ == signature(signing_key.spec_bytes(), views(bytes@)),
{
    let data = concat_all(bytes);
    let tag = hmac_sha256_tag(signing_key.as_bytes(), data.as_slice());
    to_hex_lower(tag.as_slice())
}

/// The frames of a message that its signature covers: header, parent
/// header, the metadata `{}`, content, and the buffers.
pub fn signed_frames(msg: &WireMessage) -> (signed: Vec<Vec<u8>>)
    ensures
        views(signed@) == zmq_signed(msg@),
{
    let mut signed: Vec<Vec<u8>> = Vec::new();
    signed.push(slice_to_vec(msg.header.as_slice()));
    signed.push(slice_to_vec(msg.parent_header.as_slice()));
    let mut metadata: Vec<u8> = Vec::new();
    metadata.push(0x7b);
    metadata.push(0x7d);
    assert(metadata@ =~= empty_object());
    signed.push(metadata);
    signed.push(slice_to_vec(msg.content.as_slice()));
    let mut i: usize = 0;
    while i < msg.buffers.len()
        invariant
            i <= msg.buffers.len(),
            views(signed@) =~= seq![
                msg.header@,
                msg.parent_header@,
                empty_object(),
                msg.content@,
            ] + views(msg.buffers@).take(i as int),
        decreases msg.buffers.len() - i,
    {
        let ghost before = views(signed@);
        signed.push(slice_to_vec(msg.buffers[i].as_slice()));
        assert(views(signed@) =~= before.push(msg.buffers@[i as int]@));
        i += 1;
        assert(views(msg.buffers@).take(i as int) =~= views(msg.buffers@).take(i - 1).push(
            msg.buffers@[i - 1]@,
        ));
    }
    assert(views(msg.buffers@).take(i as int) =~= views(msg.buffers@));
    assert(views(signed@) =~= zmq_signed(msg@));
    signed
}

/// Put the delimiter and a signature frame in front of the frames that the
/// signature covers.
pub fn seal_frames(signed: Vec<Vec<u8>>, digits: Vec<u8>) -> (payload: Vec<Vec<u8>>)
    ensures
        views(payload@) == seq![delimiter(), digits@] + views(signed@),
{
    let mut delim: Vec<u8> = Vec::new();
    delim.push(0x3c);
    delim.push(0x49);
    delim.push(0x44);
    delim.push(0x53);
    delim.push(0x7c);
    delim.push(0x4d);
    delim.push(0x53);
    delim.push(0x47);
    delim.push(0x3e);
    assert(delim@ =~= delimiter());
    let mut payload: Vec<Vec<u8>> = Vec::new();
    payload.push(delim);
    payload.push(digits);
    let ghost head = views(payload@);
    let ghost tail = views(signed@);
    let mut rest = signed;
    payload.append(&mut rest);
    assert(views(payload@) =~= head + tail);
    payload
}

/// The frames of a message, signed with the given key.
pub fn to_zmq_payload(msg: &WireMessage, signing_key: &str) -> (payload: Vec<Vec<u8>>)
    ensures
        views(payload@) == zmq_frames(msg@, signing_key.spec_bytes()),
{
    let signed = signed_frames(msg);
    let digits = sign_message(signing_key, signed.as_slice());
    seal_frames(signed, digits)
}

/// Whether a frame is the delimiter.
pub fn is_delimiter(frame: &[u8]) -> (yes: bool)
    ensures
        yes == (frame@ == delimiter()),
{
    if frame.len() != 9 {
        return false;
    }
    let yes = frame[0] == 0x3c && frame[1] == 0x49 && frame[2] == 0x44 && frame[3] == 0x53
        && frame[4] == 0x7c && frame[5] == 0x4d && frame[6] == 0x53 && frame[7] == 0x47 && frame[8]
        == 0x3e;
    if yes {
        assert(frame@ =~= delimiter());
    }
    yes
}

/// Find the first delimiter among the frames. Where there is none, the
/// number of frames comes back.
pub fn find_delimiter(payload: &Vec<Vec<u8>>) -> (at: usize)
    ensures
        at == zmq_delimiter_index(views(payload@)),
        at <= payload@.len(),
{
    let ghost frames = views(payload@);
    let n: usize = payload.len();
    let mut at: usize = 0;
    while at < n && !is_delimiter(payload[at].as_slice())
        invariant
            at <= n,
            n == payload.len(),
            frames == views(payload@),
            forall|k: int| 0 <= k < at ==> frames[k] != delimiter(),
        decreases n - at,
    {
        at += 1;
    }
    proof {
        lemma_delimiter_index(frames, at as int);
    }
    at
}

/// Take the message out of frames that are complete behind their delimiter:
/// the header, the parent header and the content from their places, and
/// every frame behind the content as a buffer.
pub fn take_message(payload: &Vec<Vec<u8>>) -> (msg: WireMessage)
    requires
        zmq_complete(views(payload@)),
    ensures
        msg@ == zmq_message(views(payload@)),
{
    let ghost frames = views(payload@);
    let n: usize = payload.len();
    let d: usize = find_delimiter(payload);
    let header = slice_to_vec(payload[d + 2].as_slice());
    let parent_header = slice_to_vec(payload[d + 3].as_slice());
    let content = slice_to_vec(payload[d + 5].as_slice());
    let mut buffers: Vec<Vec<u8>> = Vec::new();
    let mut j: usize = d + 6;
    while j < n
        invariant
            d + 6 <= j <= n,
            n == payload.len(),
            frames == views(payload@),
            views(buffers@) =~= frames.subrange(d + 6, j as int),
        decreases n - j,
    {
        let ghost before = views(buffers@);
        buffers.push(slice_to_vec(payload[j].as_slice()));
        assert(views(buffers@) =~= before.push(frames[j as int]));
        j += 1;
    }
    assert(frames.subrange(d + 6, n as int) =~= frames.skip(d + 6));
    WireMessage { header, parent_header, content, buffers }
}

/// Check and take apart the frames of an incoming message.
///
/// Succeeds exactly when the frames hold a delimiter followed by at least
/// five frames, the signature frame is the one that the key gives for the
/// frames behind it, and header, parent header and content are JSON texts.
/// Any other message is malformed and gives nothing. Frames in front of the
/// delimiter and the metadata frame are dropped.
pub fn from_zmq_payload(payload: &Vec<Vec<u8>>, signing_key: &str) -> (decoded: Option<
    WireMessage,
>)
    ensures
        decoded is Some <==> zmq_accepts(views(payload@), signing_key.spec_bytes()),
        decoded matches Some(msg) ==> msg@ == zmq_message(views(payload@)),
{
    let n: usize = payload.len();
    let d: usize = find_delimiter(payload);
    if n - d < 6 {
        return None;
    }
    let covered = slice_subrange(payload.as_slice(), d + 2, n);
    assert(views(covered@) =~= zmq_covered(views(payload@)));
    let expected = sign_message(signing_key, covered);
    if !bytes_equal(payload[d + 1].as_slice(), expected.as_slice()) {
        return None;
    }
    let msg = take_message(payload);
    if msg.holds_json() {
        Some(msg)
    } else {
        None
    }
}

/// Every signed message is accepted under the key it was signed with, and
/// comes back as it was.
pub proof fn lemma_zmq_round_trip(msg: WireParts, key: Seq<u8>)
    requires
        msg.holds_json(),
    ensures
        zmq_accepts(zmq_frames(msg, key), key),
        zmq_message(zmq_frames(msg, key)) == msg,
{
    let frames = zmq_frames(msg, key);
    lemma_delimiter_index(frames, 0);
    assert(frames.skip(2) =~= zmq_signed(msg));
    assert(frames.skip(6) =~= msg.buffers);
}

/// Accepted frames are rejected once their signature frame is altered.
pub proof fn lemma_zmq_altered_signature(frames: Seq<Seq<u8>>, key: Seq<u8>, altered: Seq<u8>)
    requires
        zmq_signed_by(frames, key),
        altered != frames[zmq_delimiter_index(frames) + 1],
    ensures
        !zmq_accepts(frames.update(zmq_delimiter_index(frames) + 1, altered), key),
{
    let d = zmq_delimiter_index(frames);
    let changed = frames.update(d + 1, altered);
    lemma_delimiter_found(frames);
    assert forall|k: int| 0 <= k < d implies changed[k] != delimiter() by {
        assert(changed[k] == frames[k]);
    }
    lemma_delimiter_index(changed, d);
    assert(changed.skip(d + 2) =~= frames.skip(d + 2));
}

/// No frame in front of the delimiter index is a delimiter, and the frame at
/// the index is one if the index lies within the frames.
pub proof fn lemma_delimiter_found(frames: Seq<Seq<u8>>)
    ensures
        0 <= zmq_delimiter_index(frames) <= frames.len(),
        forall|k: int| 0 <= k < zmq_delimiter_index(frames) ==> frames[k] != delimiter(),
        zmq_delimiter_index(frames) < frames.len() ==> frames[zmq_delimiter_index(frames)]
            == delimiter(),
    decreases frames.len(),
{
    if frames.len() > 0 && frames[0] != delimiter() {
        let rest = frames.drop_first();
        lemma_delimiter_found(rest);
        assert forall|k: int| 0 <= k < zmq_delimiter_index(frames) implies frames[k]
            != delimiter() by {
            if k > 0 {
                assert(frames[k] == rest[k - 1]);
            }
        }
    }
}

/// Hexadecimal digits take two places per byte.
pub proof fn lemma_hex_lower_len(bytes: Seq<u8>)
    ensures
        hex_lower(bytes).len() == 2 * bytes.len(),
    decreases bytes.len(),
{
    if bytes.len() > 0 {
        lemma_hex_lower_len(bytes.drop_last());
    }
}

/// Different bytes are written with different digits.
pub proof fn lemma_hex_lower_injective(a: Seq<u8>, b: Seq<u8>)
    requires
        hex_lower(a) == hex_lower(b),
    ensures
        a == b,
    decreases a.len(),
{
    lemma_hex_lower_len(a);
    lemma_hex_lower_len(b);
    if a.len() == 0 {
        assert(a =~= b);
    } else {
        let front_a = hex_lower(a.drop_last());
        let front_b = hex_lower(b.drop_last());
        lemma_hex_lower_len(a.drop_last());
        lemma_hex_lower_len(b.drop_last());
        let n = 2 * (a.len() - 1);
        assert(hex_lower(a).subrange(0, n) =~= front_a);
        assert(hex_lower(b).subrange(0, n) =~= front_b);
        assert(hex_lower(a)[n] == hex_digit(a.last() / 16));
        assert(hex_lower(b)[n] == hex_digit(b.last() / 16));
        assert(hex_lower(a)[n + 1] == hex_digit(a.last() % 16));
        assert(hex_lower(b)[n + 1] == hex_digit(b.last() % 16));
        assert(a.last() == b.last());
        lemma_hex_lower_injective(a.drop_last(), b.drop_last());
        assert(a =~= a.drop_last().push(a.last()));
        assert(b =~= b.drop_last().push(b.last()));
    }
}

/// Accepted frames are rejected once what the signature covers is altered
/// so that its tag changes.
///
/// Whether an alteration changes the tag is up to HMAC-SHA256: that no
/// alteration which an attacker can find leaves it unchanged is what the
/// scheme is trusted for, and is not shown here.
pub proof fn lemma_zmq_altered_message(frames: Seq<Seq<u8>>, altered: Seq<Seq<u8>>, key: Seq<u8>)
    requires
        zmq_signed_by(frames, key),
        zmq_delimiter_index(altered) == zmq_delimiter_index(frames),
        altered.len() > zmq_delimiter_index(frames) + 1,
        altered[zmq_delimiter_index(frames) + 1] == frames[zmq_delimiter_index(frames) + 1],
        hmac_sha256(key, concat(altered.skip(zmq_delimiter_index(frames) + 2))) != hmac_sha256(
            key,
            concat(frames.skip(zmq_delimiter_index(frames) + 2)),
        ),
    ensures
        !zmq_accepts(altered, key),
{
    let d = zmq_delimiter_index(frames);
    if zmq_accepts(altered, key) {
        lemma_hex_lower_injective(
            hmac_sha256(key, concat(altered.skip(d + 2))),
            hmac_sha256(key, concat(frames.skip(d + 2))),
        );
    }
}

/// A signed message in which one frame behind the delimiter is altered is
/// rejected under the key it was signed with: outright where the altered
/// frame is the signature, and where it is a frame that the signature
/// covers, as far as the alteration changes the tag.
pub proof fn lemma_zmq_altered_frame(msg: WireParts, key: Seq<u8>, at: int, frame: Seq<u8>)
    requires
        1 <= at < zmq_frames(msg, key).len(),
        frame != zmq_frames(msg, key)[at],
        at >= 2 ==> hmac_sha256(key, concat(zmq_frames(msg, key).update(at, frame).skip(2)))
            != hmac_sha256(key, concat(zmq_signed(msg))),
    ensures
        !zmq_accepts(zmq_frames(msg, key).update(at, frame), key),
{
    let frames = zmq_frames(msg, key);
    let altered = frames.update(at, frame);
    lemma_delimiter_index(frames, 0);
    lemma_delimiter_index(altered, 0);
    assert(frames.skip(2) =~= zmq_signed(msg));
    if at == 1 {
        lemma_zmq_altered_signature(frames, key, frame);
    } else {
        lemma_zmq_altered_message(frames, altered, key);
    }
}

/// The address of a kernel socket on this machine: `tcp://127.0.0.1:` and
/// the port in decimal.
pub open spec fn endpoint_of(port: u16) -> Seq<char> {
    "tcp://127.0.0.1:"@ + decimal(port as nat)
}

/// The address to connect to for the kernel socket on the given port.
pub fn endpoint(port: u16) -> (address: String)
    ensures
        address@ == endpoint_of(port),
{
    let mut address = "tcp://127.0.0.1:".to_owned();
    append_decimal(&mut address, port as u64);
    address
}

} // verus!
