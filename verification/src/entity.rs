//! Types for generating and representing unique, labelled IDs.
//!
//! An ID is written as the prefix of its category followed by twelve bytes
//! of text, such as `ve-4k2j9x0a1b3c`.

use std::str::FromStr;

use rand::Rng;
use vstd::prelude::*;
use vstd::slice::*;
use vstd::string::*;
use vstd::utf8::*;

use crate::text::{str_eq, string_from_utf8_lossy};

verus! {

/// Entity category for generated IDs.
#[derive(Debug, Clone, Copy, PartialEq, Eq, Structural)]
pub enum Entity {
    /// Python virtual environments.
    Venv,
}

impl Entity {
    /// The text that every ID of this category starts with.
    pub open spec fn prefix(self) -> Seq<char> {
        match self {
            Entity::Venv => "ve-"@,
        }
    }

    /// Get the prefix for IDs generated for this entity.
    pub fn id_prefix(&self) -> (prefix: &'static str)
        ensures
            prefix@ == self.prefix(),
    {
        match self {
            Entity::Venv => "ve-",
        }
    }
}

/// An entity ID generated for a specific category of object.
#[derive(Clone, Copy, Debug, PartialEq, Eq)]
pub struct EntityId {
    /// Which kind of entity this ID represents.
    pub kind: Entity,
    /// The unique ID for this entity.
    id: [u8; 12],
}

/// Why a text is not an entity ID. Both hold the text.
#[derive(Clone, Debug, PartialEq, Eq)]
pub enum EntityIdError {
    /// The text starts with the prefix of a category, but what follows is
    /// not twelve bytes long.
    InvalidLength(String),
    /// The text starts with the prefix of no category.
    InvalidPrefix(String),
}

impl EntityIdError {
    /// The text of the error.
    pub open spec fn text(self) -> Seq<char> {
        match self {
            EntityIdError::InvalidLength(input) => "invalid entity ID length "@ + input@,
            EntityIdError::InvalidPrefix(input) => "invalid entity prefix "@ + input@,
        }
    }

    /// Render the error as text.
    pub fn to_string(&self) -> (text: String)
        ensures
            text@ == self.text(),
    {
        match self {
            EntityIdError::InvalidLength(input) => "invalid entity ID length ".to_owned().concat(
                input.as_str(),
            ),
            EntityIdError::InvalidPrefix(input) => "invalid entity prefix ".to_owned().concat(
                input.as_str(),
            ),
        }
    }
}

/// `Rng::gen_range` of the rand crate on the generator of the thread, with
/// the range from zero up to, and without, the bound: a number in that range.
/// Which one is left open.
#[verifier::external_body]
fn random_below(bound: usize) -> (pick: usize)
    requires
        bound > 0,
    ensures
        pick < bound,
{
    rand::thread_rng().gen_range(0..bound)
}

/// The characters that generated IDs are made of: digits and lowercase
/// letters, as bytes.
pub open spec fn is_id_char(byte: u8) -> bool {
    (0x30 <= byte <= 0x39) || (0x61 <= byte <= 0x7a)
}

/// Character `index` of the 36 that generated IDs are made of: the digits
/// first, then the lowercase letters.
pub fn id_char(index: usize) -> (byte: u8)
    requires
        index < 36,
    ensures
        is_id_char(byte),
        byte == if index < 10 {
            0x30 + index
        } else {
            0x61 + (index - 10)
        },
{
    if index < 10 {
        0x30 + index as u8
    } else {
        0x61 + (index - 10) as u8
    }
}

/// Bytes below 128 are text as they stand.
pub proof fn lemma_ascii_is_utf8(bytes: Seq<u8>)
    requires
        forall|i: int| 0 <= i < bytes.len() ==> #[trigger] bytes[i] < 128,
    ensures
        valid_utf8(bytes),
        decode_utf8(bytes) == Seq::new(bytes.len(), |i: int| bytes[i] as char),
{
    let chars = Seq::new(bytes.len(), |i: int| bytes[i] as char);
    assert(is_ascii_chars(chars)) by {
        assert forall|i: int| 0 <= i < chars.len() implies '\0' <= #[trigger] chars[i]
            <= '\u{7f}' by {
            assert(bytes[i] < 128);
        }
    }
    is_ascii_chars_encode_utf8(chars);
    assert(encode_utf8(chars) =~= bytes) by {
        assert forall|i: int| 0 <= i < bytes.len() implies encode_utf8(chars)[i] == bytes[i] by {
            assert(chars[i] as u8 == encode_utf8(chars)[i]);
            assert(bytes[i] < 128);
        }
    }
    encode_utf8_valid_utf8(chars);
    encode_utf8_decode_utf8(chars);
}

impl EntityId {
    /// The length of the random portion of the ID in characters.
    pub const ID_LENGTH: usize = 12;

    /// The kind of entity that the ID represents.
    pub closed spec fn entity(self) -> Entity {
        self.kind
    }

    /// The twelve bytes behind the prefix.
    pub closed spec fn bytes(self) -> Seq<u8> {
        self.id@
    }

    /// The bytes behind the prefix are text. This holds of every ID that
    /// was generated or parsed.
    pub open spec fn wf(self) -> bool {
        self.bytes().len() == 12 && valid_utf8(self.bytes())
    }

    /// The ID written out: the prefix of its kind, then its bytes as text.
    pub open spec fn text(self) -> Seq<char> {
        self.entity().prefix() + decode_utf8(self.bytes())
    }

    /// Which kind of entity the ID represents.
    pub fn kind(&self) -> (kind: Entity)
        ensures
            kind == self.entity(),
    {
        self.kind
    }

    /// Generate a new ID of the given kind: twelve characters, each drawn at
    /// random from the digits and the lowercase letters.
    pub fn new(kind: Entity) -> (id: Self)
        ensures
            id.entity() == kind,
            id.wf(),
            forall|i: int| 0 <= i < 12 ==> is_id_char(#[trigger] id.bytes()[i]),
    {
        let mut id: [u8; 12] = [0x30; 12];
        let mut i: usize = 0;
        while i < 12
            invariant
                i <= 12,
                id@.len() == 12,
                forall|k: int| 0 <= k < i ==> is_id_char(#[trigger] id@[k]),
            decreases 12 - i,
        {
            id[i] = id_char(random_below(36));
            i += 1;
        }
        proof {
            lemma_ascii_is_utf8(id@);
        }
        EntityId { kind, id }
    }

    /// Get the ID as a string: its prefix, then its bytes as text.
    pub fn to_string(&self) -> (text: String)
        ensures
            self.wf() ==> text@ == self.text(),
    {
        let tail = string_from_utf8_lossy(self.id.as_slice());
        self.kind.id_prefix().to_owned().concat(tail.as_str())
    }

    /// What reading a text as an ID gives.
    ///
    /// The text must start with the prefix of a category, and what follows
    /// must be twelve bytes long; the ID then holds those bytes.
    pub open spec fn parsed(text: Seq<char>, outcome: Result<EntityId, EntityIdError>) -> bool {
        let prefix = Entity::Venv.prefix();
        if text.len() >= prefix.len() && text.subrange(0, prefix.len() as int) == prefix {
            let tail = encode_utf8(text.skip(prefix.len() as int));
            if tail.len() == 12 {
                &&& outcome matches Ok(id)
                &&& id.entity() == Entity::Venv
                &&& id.bytes() == tail
                &&& id.wf()
            } else {
                outcome matches Err(EntityIdError::InvalidLength(input)) && input@ == text
            }
        } else {
            outcome matches Err(EntityIdError::InvalidPrefix(input)) && input@ == text
        }
    }

    /// Read an ID from its text.
    pub fn parse(s: &str) -> (outcome: Result<EntityId, EntityIdError>)
        ensures
            Self::parsed(s@, outcome),
    {
        let kind = Entity::Venv;
        let prefix = kind.id_prefix();
        proof {
            reveal_strlit("ve-");
        }
        let length: usize = s.unicode_len();
        if length < 3 || !str_eq(s.substring_char(0, 3), prefix) {
            return Err(EntityIdError::InvalidPrefix(s.to_owned()));
        }
        let tail = s.substring_char(3, length);
        assert(tail@ =~= s@.skip(3));
        let bytes = tail.as_bytes();
        if bytes.len() != 12 {
            return Err(EntityIdError::InvalidLength(s.to_owned()));
        }
        let mut id: [u8; 12] = [0; 12];
        let mut i: usize = 0;
        while i < 12
            invariant
                i <= 12,
                bytes@.len() == 12,
                id@.len() == 12,
                forall|k: int| 0 <= k < i ==> id@[k] == bytes@[k],
            decreases 12 - i,
        {
            id[i] = bytes[i];
            i += 1;
        }
        proof {
            assert(id@ =~= bytes@);
            encode_utf8_valid_utf8(tail@);
        }
        Ok(EntityId { kind, id })
    }
}

impl FromStr for EntityId {
    type Err = EntityIdError;

    /// Read an ID from its text, as [`EntityId::parse`] does.
    fn from_str(s: &str) -> (outcome: Result<Self, Self::Err>)
        ensures
            EntityId::parsed(s@, outcome),
    {
        EntityId::parse(s)
    }
}

/// Writing an ID out and reading it back gives the same bytes under the
/// same kind.
pub proof fn lemma_entity_id_round_trip(id: EntityId, outcome: Result<EntityId, EntityIdError>)
    requires
        id.wf(),
        EntityId::parsed(id.text(), outcome),
    ensures
        outcome matches Ok(back) && back.entity() == id.entity() && back.bytes() == id.bytes(),
{
    reveal_strlit("ve-");
    let prefix = Entity::Venv.prefix();
    let text = id.text();
    assert(text.subrange(0, prefix.len() as int) =~= prefix);
    assert(text.skip(prefix.len() as int) =~= decode_utf8(id.bytes()));
    decode_utf8_encode_utf8(id.bytes());
}

} // verus!
