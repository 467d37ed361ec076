//! Framing of kernel messages inside WebSocket binary payloads.
//!
//! This is the `v1.kernel.websocket.jupyter.org` protocol of `jupyter-server`.
//! A payload starts with a table of little-endian 64-bit integers:
//!
//! ```text
//! 0:  offset_number (n)
//! 8:  offset_0          start of the channel name
//! 16: offset_1          start of the header
//! 24: offset_2          start of the parent header
//! 32: offset_3          start of the metadata
//! 40: offset_4          start of the content
//! 48: offset_5 ...      starts of the buffers
//! ```
//!
//! and the parts follow the table. Offsets count bytes from the start of the
//! payload, and each part ends where the next one starts.

use vstd::bytes::*;
use vstd::prelude::*;
use vstd::slice::*;
use vstd::string::*;
use vstd::utf8::*;

use super::frames::{
    concat, empty_object, lemma_concat_part, lemma_concat_step, views, WireMessage, WireParts,
};
use crate::octets::{append_bytes, copy_range};
use crate::text::string_from_utf8;

verus! {

/// The parts of an outgoing frame, in the order they are laid out.
pub open spec fn ws_segments(channel: Seq<u8>, msg: WireParts) -> Seq<Seq<u8>> {
    seq![channel, msg.header, msg.parent_header, empty_object(), msg.content] + msg.buffers
}

/// Where part `i` starts in the frame built from `segs`.
pub open spec fn ws_offset(segs: Seq<Seq<u8>>, i: int) -> nat {
    8 * (segs.len() + 1) + concat(segs.take(i)).len()
}

/// The offset table up to and including the entry of part `k - 1`.
pub open spec fn ws_table(segs: Seq<Seq<u8>>, k: int) -> Seq<u8>
    decreases k,
{
    if k <= 0 {
        spec_u64_to_le_bytes(segs.len() as u64)
    } else {
        ws_table(segs, k - 1) + spec_u64_to_le_bytes(ws_offset(segs, k - 1) as u64)
    }
}

/// The length of the frame built from `segs`.
pub open spec fn ws_frame_len(segs: Seq<Seq<u8>>) -> nat {
    8 * (segs.len() + 1) + concat(segs).len()
}

/// The frame built from `segs`: the whole table, then the parts.
pub open spec fn ws_frame(segs: Seq<Seq<u8>>) -> Seq<u8> {
    ws_table(segs, segs.len() as int) + concat(segs)
}

/// The number of offsets that the payload announces.
pub open spec fn ws_count(payload: Seq<u8>) -> int {
    spec_u64_from_le_bytes(payload.subrange(0, 8)) as int
}

/// Boundary `i` of the payload: entry `i` of its table, and the payload's
/// length after the last entry.
pub open spec fn ws_bound(payload: Seq<u8>, i: int) -> int {
    if 0 <= i < ws_count(payload) {
        spec_u64_from_le_bytes(payload.subrange(8 * (i + 1), 8 * (i + 2))) as int
    } else {
        payload.len() as int
    }
}

/// Part `i` starts and ends inside the payload, in that order.
pub open spec fn ws_part_ok(payload: Seq<u8>, i: int) -> bool {
    ws_bound(payload, i) <= ws_bound(payload, i + 1) <= payload.len()
}

/// Part `i` of the payload.
pub open spec fn ws_part(payload: Seq<u8>, i: int) -> Seq<u8> {
    payload.subrange(ws_bound(payload, i), ws_bound(payload, i + 1))
}

/// The payload holds a complete table of at least five offsets, its offsets
/// never decrease nor leave the payload, and the channel name is UTF-8.
pub open spec fn ws_framed(payload: Seq<u8>) -> bool {
    &&& payload.len() >= 8
    &&& ws_count(payload) >= 5
    &&& 8 * (ws_count(payload) + 1) <= payload.len()
    &&& forall|i: int| 0 <= i < ws_count(payload) ==> #[trigger] ws_part_ok(payload, i)
    &&& valid_utf8(ws_part(payload, 0))
}

/// The message carried by a well-framed payload.
pub open spec fn ws_message(payload: Seq<u8>) -> WireParts {
    WireParts {
        header: ws_part(payload, 1),
        parent_header: ws_part(payload, 2),
        content: ws_part(payload, 4),
        buffers: Seq::new((ws_count(payload) - 5) as nat, |j: int| ws_part(payload, j + 5)),
    }
}

/// The channel named by a well-framed payload.
pub open spec fn ws_channel(payload: Seq<u8>) -> Seq<char> {
    decode_utf8(ws_part(payload, 0))
}

/// The table of `segs` has one 8-byte slot for the count and one per entry.
pub proof fn lemma_ws_table_len(segs: Seq<Seq<u8>>, k: int)
    requires
        0 <= k,
    ensures
        ws_table(segs, k).len() == 8 * (k + 1),
    decreases k,
{
    lemma_auto_spec_u64_to_from_le_bytes();
    if k > 0 {
        lemma_ws_table_len(segs, k - 1);
    }
}

/// Slot 0 of the table holds the count, slot `i + 1` the offset of part `i`.
pub proof fn lemma_ws_table_slot(segs: Seq<Seq<u8>>, k: int, i: int)
    requires
        0 <= i < k,
    ensures
        ws_table(segs, k).len() == 8 * (k + 1),
        ws_table(segs, k).subrange(0, 8) == spec_u64_to_le_bytes(segs.len() as u64),
        ws_table(segs, k).subrange(8 * (i + 1), 8 * (i + 2)) == spec_u64_to_le_bytes(
            ws_offset(segs, i) as u64,
        ),
    decreases k,
{
    lemma_auto_spec_u64_to_from_le_bytes();
    lemma_ws_table_len(segs, k);
    lemma_ws_table_len(segs, k - 1);
    let front = ws_table(segs, k - 1);
    let slot = spec_u64_to_le_bytes(ws_offset(segs, k - 1) as u64);
    assert(ws_table(segs, k) == front + slot);
    if k - 1 == 0 {
        assert((front + slot).subrange(0, 8) =~= front);
    } else {
        lemma_ws_table_slot(segs, k - 1, 0);
        assert((front + slot).subrange(0, 8) =~= front.subrange(0, 8));
    }
    if i == k - 1 {
        assert((front + slot).subrange(8 * (i + 1), 8 * (i + 2)) =~= slot);
    } else {
        lemma_ws_table_slot(segs, k - 1, i);
        assert((front + slot).subrange(8 * (i + 1), 8 * (i + 2)) =~= front.subrange(
            8 * (i + 1),
            8 * (i + 2),
        ));
    }
}

/// The offsets of a frame never decrease and stay within the frame.
pub proof fn lemma_ws_offsets_ordered(segs: Seq<Seq<u8>>, i: int)
    requires
        0 <= i < segs.len(),
    ensures
        8 * (segs.len() + 1) <= ws_offset(segs, i),
        ws_offset(segs, i) + segs[i].len() == ws_offset(segs, i + 1),
        ws_offset(segs, i + 1) <= ws_frame_len(segs),
        ws_offset(segs, segs.len() as int) == ws_frame_len(segs),
{
    lemma_concat_part(segs, i);
    assert(segs.take(segs.len() as int) =~= segs);
}

/// What a decoder reads back from the frame built from `segs`: the count,
/// every boundary, and every part.
pub proof fn lemma_ws_frame_reads(segs: Seq<Seq<u8>>, i: int)
    requires
        ws_frame_len(segs) <= u64::MAX,
        0 <= i < segs.len(),
    ensures
        ws_frame(segs).len() == ws_frame_len(segs),
        ws_count(ws_frame(segs)) == segs.len(),
        ws_bound(ws_frame(segs), i) == ws_offset(segs, i),
        ws_bound(ws_frame(segs), i + 1) == ws_offset(segs, i + 1),
        ws_part_ok(ws_frame(segs), i),
        ws_part(ws_frame(segs), i) == segs[i],
{
    lemma_auto_spec_u64_to_from_le_bytes();
    let n = segs.len() as int;
    let frame = ws_frame(segs);
    let table = ws_table(segs, n);
    lemma_ws_table_slot(segs, n, i);
    lemma_ws_offsets_ordered(segs, i);
    assert(frame.subrange(0, 8) =~= table.subrange(0, 8));
    assert(frame.subrange(8 * (i + 1), 8 * (i + 2)) =~= table.subrange(8 * (i + 1), 8 * (i + 2)));
    assert(ws_count(frame) == n);
    assert(ws_bound(frame, i) == ws_offset(segs, i));
    if i + 1 < n {
        lemma_ws_table_slot(segs, n, i + 1);
        lemma_ws_offsets_ordered(segs, i + 1);
        assert(frame.subrange(8 * (i + 2), 8 * (i + 3)) =~= table.subrange(
            8 * (i + 2),
            8 * (i + 3),
        ));
    }
    assert(ws_bound(frame, i + 1) == ws_offset(segs, i + 1));
    lemma_concat_part(segs, i);
    let a = concat(segs.take(i)).len() as int;
    let b = concat(segs.take(i + 1)).len() as int;
    assert(frame.subrange(8 * (n + 1) + a, 8 * (n + 1) + b) =~= concat(segs).subrange(a, b));
}

/// Lay out `parts` behind their offset table.
fn ws_frame_of(parts: &Vec<Vec<u8>>) -> (frame: Option<Vec<u8>>)
    ensures
        frame is Some <==> ws_frame_len(views(parts@)) <= usize::MAX,
        frame matches Some(p) ==> p@ == ws_frame(views(parts@)),
{
    let ghost segs = views(parts@);
    let n: usize = parts.len();
    if n >= usize::MAX / 8 {
        return None;
    }
    let mut out: Vec<u8> = u64_to_le_bytes(n as u64);
    let mut offset: usize = 8 * (n + 1);
    let mut i: usize = 0;
    proof {
        assert(segs.take(0) =~= Seq::<Seq<u8>>::empty());
    }
    while i < n
        invariant
            i <= n,
            n == parts.len(),
            n < usize::MAX / 8,
            segs == views(parts@),
            out@ == ws_table(segs, i as int),
            offset == ws_offset(segs, i as int),
        decreases n - i,
    {
        proof {
            lemma_ws_offsets_ordered(segs, i as int);
        }
        let mut slot: Vec<u8> = u64_to_le_bytes(offset as u64);
        out.append(&mut slot);
        let len: usize = parts[i].len();
        if usize::MAX - offset < len {
            return None;
        }
        offset = offset + len;
        i += 1;
    }
    proof {
        assert(segs.take(n as int) =~= segs);
        assert(segs.take(0) =~= Seq::<Seq<u8>>::empty());
    }
    let ghost table = out@;
    let mut j: usize = 0;
    while j < n
        invariant
            j <= n,
            n == parts.len(),
            segs == views(parts@),
            out@ == table + concat(segs.take(j as int)),
        decreases n - j,
    {
        proof {
            lemma_concat_step(segs, j as int);
        }
        append_bytes(&mut out, parts[j].as_slice());
        j += 1;
        assert(out@ =~= table + concat(segs.take(j as int)));
    }
    proof {
        assert(segs.take(n as int) =~= segs);
    }
    Some(out)
}

/// Frame a message for the given channel.
///
/// The frame announces `5 + buffers` offsets and lays out the channel name,
/// the header, the parent header, the metadata `{}`, the content and the
/// buffers in that order. Nothing is returned when the frame would be longer
/// than any byte vector can be.
pub fn to_ws_payload(msg: &WireMessage, channel: &str) -> (payload: Option<Vec<u8>>)
    ensures
        payload is Some <==> ws_frame_len(ws_segments(channel.spec_bytes(), msg@)) <= usize::MAX,
        payload matches Some(p) ==> p@ == ws_frame(ws_segments(channel.spec_bytes(), msg@)),
{
    let mut parts: Vec<Vec<u8>> = Vec::new();
    parts.push(channel.as_bytes_vec());
    parts.push(slice_to_vec(msg.header.as_slice()));
    parts.push(slice_to_vec(msg.parent_header.as_slice()));
    let mut metadata: Vec<u8> = Vec::new();
    metadata.push(0x7b);
    metadata.push(0x7d);
    assert(metadata@ =~= empty_object());
    parts.push(metadata);
    parts.push(slice_to_vec(msg.content.as_slice()));
    let mut i: usize = 0;
    while i < msg.buffers.len()
        invariant
            i <= msg.buffers.len(),
            views(parts@) =~= seq![
                channel.spec_bytes(),
                msg.header@,
                msg.parent_header@,
                empty_object(),
                msg.content@,
            ] + views(msg.buffers@).take(i as int),
        decreases msg.buffers.len() - i,
    {
        let ghost before = views(parts@);
        parts.push(slice_to_vec(msg.buffers[i].as_slice()));
        assert(views(parts@) =~= before.push(msg.buffers@[i as int]@));
        i += 1;
        assert(views(msg.buffers@).take(i as int) =~= views(msg.buffers@).take(i - 1).push(
            msg.buffers@[i - 1]@,
        ));
    }
    assert(views(msg.buffers@).take(i as int) =~= views(msg.buffers@));
    assert(views(parts@) =~= ws_segments(channel.spec_bytes(), msg@));
    ws_frame_of(&parts)
}

/// Take a WebSocket payload apart along its offset table.
///
/// Succeeds exactly on the payloads that are well framed; the message holds
/// the header, parent header, content and buffers as they lie between the
/// offsets, and the string is the channel name. The metadata part is skipped.
pub fn split_ws_payload(payload: &[u8]) -> (decoded: Option<(WireMessage, String)>)
    ensures
        decoded is Some <==> ws_framed(payload@),
        decoded matches Some((msg, channel)) ==> msg@ == ws_message(payload@) && channel@
            == ws_channel(payload@),
{
    let len: usize = payload.len();
    if len < 8 {
        return None;
    }
    let count: u64 = u64_from_le_bytes(slice_subrange(payload, 0, 8));
    if count < 5 || count >= (len / 8) as u64 {
        return None;
    }
    let n: usize = count as usize;
    let mut bounds: Vec<usize> = Vec::new();
    let mut i: usize = 0;
    while i < n
        invariant
            i <= n,
            n == ws_count(payload@),
            len == payload@.len(),
            8 * (n + 1) <= len,
            bounds@.len() == i,
            forall|k: int| 0 <= k < i ==> #[trigger] bounds@[k] == ws_bound(payload@, k),
            forall|k: int| 0 <= k < i ==> bounds@[k] <= len,
            forall|k: int| 0 <= k < i - 1 ==> #[trigger] ws_part_ok(payload@, k),
        decreases n - i,
    {
        let at: usize = 8 * (i + 1);
        let entry: u64 = u64_from_le_bytes(slice_subrange(payload, at, at + 8));
        assert(entry == ws_bound(payload@, i as int));
        if entry > len as u64 {
            assert(!ws_part_ok(payload@, i as int));
            return None;
        }
        if i > 0 && bounds[i - 1] > entry as usize {
            assert(!ws_part_ok(payload@, i - 1));
            return None;
        }
        bounds.push(entry as usize);
        i += 1;
    }
    assert(bounds@[n - 1] == ws_bound(payload@, n - 1) && bounds@[n - 1] <= len);
    let ghost read = bounds@;
    bounds.push(len);
    assert(forall|k: int| 0 <= k < n ==> bounds@[k] == read[k]);
    assert(ws_part_ok(payload@, n - 1));
    assert forall|k: int| 0 <= k < n implies #[trigger] ws_part_ok(payload@, k) by {
        if k < n - 1 {
        }
    }
    assert(forall|k: int| 0 <= k <= n ==> #[trigger] bounds@[k] == ws_bound(payload@, k));
    assert(ws_part_ok(payload@, 0));
    assert(bounds@[0] == ws_bound(payload@, 0) && bounds@[1] == ws_bound(payload@, 1));
    let channel_bytes: Vec<u8> = copy_range(payload, bounds[0], bounds[1]);
    let channel: String = match string_from_utf8(channel_bytes) {
        Some(text) => text,
        None => {
            return None;
        },
    };
    assert(ws_part_ok(payload@, 1) && ws_part_ok(payload@, 2) && ws_part_ok(payload@, 4));
    let header: Vec<u8> = copy_range(payload, bounds[1], bounds[2]);
    let parent_header: Vec<u8> = copy_range(payload, bounds[2], bounds[3]);
    let content: Vec<u8> = copy_range(payload, bounds[4], bounds[5]);
    let mut buffers: Vec<Vec<u8>> = Vec::new();
    let mut j: usize = 5;
    while j < n
        invariant
            5 <= j <= n,
            n == ws_count(payload@),
            len == payload@.len(),
            bounds@.len() == n + 1,
            forall|k: int| 0 <= k <= n ==> #[trigger] bounds@[k] == ws_bound(payload@, k),
            forall|k: int| 0 <= k < n ==> #[trigger] ws_part_ok(payload@, k),
            buffers@.len() == j - 5,
            forall|k: int| 0 <= k < j - 5 ==> (#[trigger] buffers@[k])@ == ws_part(payload@, k + 5),
        decreases n - j,
    {
        assert(ws_part_ok(payload@, j as int));
        buffers.push(copy_range(payload, bounds[j], bounds[j + 1]));
        j += 1;
    }
    let msg = WireMessage { header, parent_header, content, buffers };
    assert(msg@.buffers =~= ws_message(payload@).buffers);
    Some((msg, channel))
}

/// The payload is well framed, and the header, parent header and content
/// that it carries are JSON texts.
pub open spec fn ws_accepts(payload: Seq<u8>) -> bool {
    ws_framed(payload) && ws_message(payload).holds_json()
}

/// Read a message and the name of its channel from a WebSocket payload.
///
/// Succeeds exactly on the payloads that are well framed and carry JSON
/// texts as header, parent header and content. Any other payload is
/// malformed and gives nothing.
pub fn from_ws_payload(payload: &[u8]) -> (decoded: Option<(WireMessage, String)>)
    ensures
        decoded is Some <==> ws_accepts(payload@),
        decoded matches Some((msg, channel)) ==> msg@ == ws_message(payload@) && channel@
            == ws_channel(payload@),
{
    match split_ws_payload(payload) {
        Some((msg, channel)) => {
            if msg.holds_json() {
                Some((msg, channel))
            } else {
                None
            }
        },
        None => None,
    }
}

/// Framing and then taking apart gives back the message and the channel.
///
/// The offsets written by the encoder never decrease and stay within the
/// payload, so every frame it builds is well framed.
pub proof fn lemma_ws_round_trip(msg: WireParts, channel: Seq<char>)
    requires
        ws_frame_len(ws_segments(encode_utf8(channel), msg)) <= u64::MAX,
    ensures
        ws_framed(ws_frame(ws_segments(encode_utf8(channel), msg))),
        msg.holds_json() ==> ws_accepts(ws_frame(ws_segments(encode_utf8(channel), msg))),
        ws_message(ws_frame(ws_segments(encode_utf8(channel), msg))) == msg,
        ws_channel(ws_frame(ws_segments(encode_utf8(channel), msg))) == channel,
        forall|i: int|
            0 <= i < 5 + msg.buffers.len() ==> #[trigger] ws_part_ok(
                ws_frame(ws_segments(encode_utf8(channel), msg)),
                i,
            ),
{
    let segs = ws_segments(encode_utf8(channel), msg);
    let frame = ws_frame(segs);
    assert(segs.len() == 5 + msg.buffers.len());
    assert forall|i: int| 0 <= i < segs.len() implies #[trigger] ws_part_ok(frame, i) && ws_part(
        frame,
        i,
    ) == segs[i] by {
        lemma_ws_frame_reads(segs, i);
    }
    lemma_ws_frame_reads(segs, 0);
    encode_utf8_valid_utf8(channel);
    encode_utf8_decode_utf8(channel);
    lemma_ws_frame_reads(segs, 1);
    lemma_ws_frame_reads(segs, 2);
    lemma_ws_frame_reads(segs, 4);
    assert(ws_message(frame).buffers =~= msg.buffers) by {
        assert forall|j: int| 0 <= j < msg.buffers.len() implies ws_part(frame, j + 5)
            == msg.buffers[j] by {
            lemma_ws_frame_reads(segs, j + 5);
        }
    }
}

/// The WebSocket sub-protocol that carries kernel messages.
pub open spec fn subprotocol_name() -> Seq<char> {
    "v1.kernel.websocket.jupyter.org"@
}

/// The sub-protocol to ask for in the `Sec-WebSocket-Protocol` header.
pub fn subprotocol() -> (name: &'static str)
    ensures
        name@ == subprotocol_name(),
{
    "v1.kernel.websocket.jupyter.org"
}

/// The value of the `Authorization` header for a server token: the word
/// `token`, a space, and the token.
pub fn authorization(token: &str) -> (value: String)
    ensures
        value@ == "token "@ + token@,
{
    "token ".to_owned().concat(token)
}

} // verus!
