//! Messages exchanged between instances, and their identifiers.

use vstd::prelude::*;
use rand::Rng;
use crate::json::{JsonValue, is_json_text, is_json_text_array};
use crate::text::{hex_pair, hex_digit, is_lower_hex, push_hex_pair};

verus! {

/// Message structure for communication.
#[derive(Debug, PartialEq)]
pub struct CommunicationMessage {
    /// Unique identifier for this message
    pub id: String,
    /// Message type (e.g., "command", "event", "query")
    pub message_type: String,
    /// Message payload
    pub payload: JsonValue,
    /// Timestamp in milliseconds
    pub timestamp: u64,
    /// Source identifier
    pub source_id: String,
    /// ID of the message this is replying to (for Request-Response)
    pub reply_to: Option<String>,
    /// Protocol-specific or custom metadata
    pub metadata: JsonValue,
}

// ---------------------------------------------------------------------------
// Identifiers
// ---------------------------------------------------------------------------

/// The byte that the identifier text shows at position `i` of the random
/// bytes: the version nibble (4) is forced into byte 6 and the variant bits
/// (`10`) into byte 8, as a version-4 UUID has them.
pub open spec fn uuid_byte(b: Seq<u8>, i: int) -> u8 {
    if i == 6 {
        (b[6] & 0x0f) | 0x40
    } else if i == 8 {
        (b[8] & 0x3f) | 0x80
    } else {
        b[i]
    }
}

/// Whether a hyphen comes before byte `i` in the identifier text.
pub open spec fn hyphen_before(i: int) -> bool {
    i == 4 || i == 6 || i == 8 || i == 10
}

/// The text that byte `i` contributes: an optional hyphen, then two hex digits.
pub open spec fn uuid_piece(b: Seq<u8>, i: int) -> Seq<char> {
    (if hyphen_before(i) { seq!['-'] } else { Seq::<char>::empty() }) + hex_pair(uuid_byte(b, i))
}

/// The identifier text of the first `k` bytes.
pub open spec fn uuid_prefix(b: Seq<u8>, k: int) -> Seq<char>
    decreases k,
{
    if k <= 0 {
        Seq::<char>::empty()
    } else {
        uuid_prefix(b, k - 1) + uuid_piece(b, k - 1)
    }
}

/// The identifier text of sixteen random bytes, in the 8-4-4-4-12 layout.
pub open spec fn uuid_text(b: Seq<u8>) -> Seq<char> {
    uuid_prefix(b, 16)
}

/// The shape every message identifier has: 36 characters, hyphens at
/// positions 8, 13, 18 and 23, lowercase hex digits elsewhere, a `4` at
/// position 14 (the version) and one of `8`, `9`, `a`, `b` at position 19
/// (the variant).
pub open spec fn is_uuid_shape(s: Seq<char>) -> bool {
    &&& s.len() == 36
    &&& forall|j: int|
        0 <= j < 36 ==> if j == 8 || j == 13 || j == 18 || j == 23 {
            s[j] == '-'
        } else {
            is_lower_hex(#[trigger] s[j])
        }
    &&& s[14] == '4'
    &&& (s[19] == '8' || s[19] == '9' || s[19] == 'a' || s[19] == 'b')
}

/// Length of the text of the first `k` bytes.
proof fn lemma_uuid_prefix_len(b: Seq<u8>, k: int)
    requires
        0 <= k <= 16,
    ensures
        uuid_prefix(b, k).len() == 2 * k + (if k > 10 {
            4int
        } else if k > 8 {
            3int
        } else if k > 6 {
            2int
        } else if k > 4 {
            1int
        } else {
            0int
        }),
    decreases k,
{
    if k > 0 {
        lemma_uuid_prefix_len(b, k - 1);
    }
}

/// Extending the prefix keeps the characters already there.
proof fn lemma_uuid_prefix_stable(b: Seq<u8>, k: int, m: int, j: int)
    requires
        0 <= k <= m <= 16,
        0 <= j < uuid_prefix(b, k).len(),
    ensures
        uuid_prefix(b, m)[j] == uuid_prefix(b, k)[j],
    decreases m - k,
{
    if m > k {
        lemma_uuid_prefix_stable(b, k, m - 1, j);
        lemma_uuid_prefix_len(b, m - 1);
        lemma_uuid_prefix_len(b, k);
        assert(uuid_prefix(b, m) == uuid_prefix(b, m - 1) + uuid_piece(b, m - 1));
    }
}

proof fn lemma_hex_digit_is_lower_hex(n: int)
    requires
        0 <= n < 16,
    ensures
        is_lower_hex(hex_digit(n)),
{
}

/// Where the hyphens of the identifier text stand.
pub open spec fn is_hyphen_position(j: int) -> bool {
    j == 8 || j == 13 || j == 18 || j == 23
}

/// The first `k` bytes already give text of the identifier's shape.
proof fn lemma_uuid_prefix_shape(b: Seq<u8>, k: int)
    requires
        b.len() == 16,
        0 <= k <= 16,
    ensures
        forall|j: int|
            0 <= j < uuid_prefix(b, k).len() ==> if is_hyphen_position(j) {
                uuid_prefix(b, k)[j] == '-'
            } else {
                is_lower_hex(#[trigger] uuid_prefix(b, k)[j])
            },
    decreases k,
{
    if k > 0 {
        lemma_uuid_prefix_shape(b, k - 1);
        lemma_uuid_prefix_len(b, k - 1);
        lemma_uuid_prefix_len(b, k);
        let p = uuid_prefix(b, k - 1);
        let piece = uuid_piece(b, k - 1);
        let byte = uuid_byte(b, k - 1);
        assert(uuid_prefix(b, k) == p + piece);
        lemma_hex_digit_is_lower_hex(byte as int / 16);
        lemma_hex_digit_is_lower_hex(byte as int % 16);
        assert forall|j: int| 0 <= j < uuid_prefix(b, k).len() implies if is_hyphen_position(j) {
            uuid_prefix(b, k)[j] == '-'
        } else {
            is_lower_hex(#[trigger] uuid_prefix(b, k)[j])
        } by {
            if j < p.len() {
                assert(uuid_prefix(b, k)[j] == p[j]);
            } else {
                assert(uuid_prefix(b, k)[j] == piece[j - p.len()]);
            }
        }
    }
}

/// Every identifier text has the identifier shape.
pub proof fn lemma_uuid_text_shape(b: Seq<u8>)
    requires
        b.len() == 16,
    ensures
        is_uuid_shape(uuid_text(b)),
{
    let s = uuid_text(b);
    lemma_uuid_prefix_len(b, 16);
    lemma_uuid_prefix_shape(b, 16);
    assert forall|j: int| 0 <= j < 36 implies if j == 8 || j == 13 || j == 18 || j == 23 {
        s[j] == '-'
    } else {
        is_lower_hex(#[trigger] s[j])
    } by {
        assert(is_hyphen_position(j) == (j == 8 || j == 13 || j == 18 || j == 23));
    }
    // position 14: high digit of byte 6; position 19: high digit of byte 8
    lemma_uuid_prefix_len(b, 6);
    lemma_uuid_prefix_len(b, 7);
    lemma_uuid_prefix_len(b, 8);
    lemma_uuid_prefix_len(b, 9);
    lemma_uuid_prefix_stable(b, 7, 16, 14);
    lemma_uuid_prefix_stable(b, 9, 16, 19);
    let b6 = b[6];
    let b8 = b[8];
    assert(((b6 & 0x0f) | 0x40) / 16 == 4) by (bit_vector);
    assert(8 <= ((b8 & 0x3f) | 0x80) / 16 <= 11) by (bit_vector);
    assert(uuid_prefix(b, 7) == uuid_prefix(b, 6) + uuid_piece(b, 6));
    assert(uuid_prefix(b, 9) == uuid_prefix(b, 8) + uuid_piece(b, 8));
    assert(uuid_prefix(b, 7)[14] == uuid_piece(b, 6)[1]);
    assert(uuid_prefix(b, 9)[19] == uuid_piece(b, 8)[1]);
}

/// Formats sixteen bytes as a version-4 identifier text.
pub fn format_uuid_v4(bytes: [u8; 16]) -> (s: String)
    ensures
        s@ == uuid_text(bytes@),
{
    let mut s = String::new();
    let mut i: usize = 0;
    while i < 16
        invariant
            i <= 16,
            bytes@.len() == 16,
            s@ == uuid_prefix(bytes@, i as int),
        decreases 16 - i,
    {
        if i == 4 || i == 6 || i == 8 || i == 10 {
            s.append("-");
            proof {
                reveal_strlit("-");
            }
        }
        let b = if i == 6 {
            (bytes[6] & 0x0f) | 0x40
        } else if i == 8 {
            (bytes[8] & 0x3f) | 0x80
        } else {
            bytes[i]
        };
        push_hex_pair(&mut s, b);
        assert(s@ =~= uuid_prefix(bytes@, i + 1));
        i = i + 1;
    }
    s
}

/// Sixteen bytes from the thread-local random number generator.
///
/// Calls `rand::thread_rng().gen::<[u8; 16]>()`.  The bytes are random, so
/// nothing is stated of them.
#[verifier::external_body]
fn random_bytes() -> (bytes: [u8; 16]) {
    rand::thread_rng().gen()
}

/// A fresh random identifier for a message.
pub fn uuid_v4() -> (s: String)
    ensures
        is_uuid_shape(s@),
        exists|b: Seq<u8>| b.len() == 16 && s@ == #[trigger] uuid_text(b),
{
    let bytes = random_bytes();
    let s = format_uuid_v4(bytes);
    proof {
        lemma_uuid_text_shape(bytes@);
    }
    s
}

// ---------------------------------------------------------------------------
// Timestamps
// ---------------------------------------------------------------------------

/// Milliseconds from the Unix epoch to now, per the system clock.
///
/// Calls `std::time::SystemTime::now()`, then `duration_since(UNIX_EPOCH)`
/// and `as_millis()`; `None` when the clock is set before the epoch.  The
/// clock is outside the program, so nothing is stated of the result.
#[verifier::external_body]
fn system_clock_millis() -> (ms: Option<u128>) {
    match std::time::SystemTime::now().duration_since(std::time::UNIX_EPOCH) {
        Ok(d) => Some(d.as_millis()),
        Err(_) => None,
    }
}

/// Get current timestamp in milliseconds.
pub fn current_timestamp() -> (t: u64) {
    let reading = system_clock_millis();
    timestamp_of_reading(reading)
}

/// The timestamp of a clock reading: the low 64 bits of the milliseconds
/// since the epoch, or 0 for a clock set before the epoch.
pub open spec fn reading_timestamp(reading: Option<u128>) -> u64 {
    match reading {
        Some(ms) => ms as u64,
        None => 0u64,
    }
}

/// The timestamp of a clock reading: the low 64 bits of the milliseconds
/// since the epoch, or 0 for a clock set before the epoch.
pub fn timestamp_of_reading(reading: Option<u128>) -> (t: u64)
    ensures
        t == reading_timestamp(reading),
{
    match reading {
        Some(ms) => timestamp_from_millis(ms),
        None => 0,
    }
}

/// The timestamp of a clock reading of `ms` milliseconds since the epoch:
/// its low 64 bits.
pub fn timestamp_from_millis(ms: u128) -> (t: u64)
    ensures
        t == ms as u64,
{
    #[verifier::truncate]
    (ms as u64)
}

// ---------------------------------------------------------------------------
// Construction
// ---------------------------------------------------------------------------

impl CommunicationMessage {
    /// The fields that every freshly made message has: a fresh identifier,
    /// the given type and payload, source "unknown", no reply link, and null
    /// metadata.
    pub open spec fn is_fresh(self, message_type: Seq<char>, payload: JsonValue) -> bool {
        &&& is_uuid_shape(self.id@)
        &&& self.message_type@ == message_type
        &&& self.payload == payload
        &&& self.source_id@ == "unknown"@
        &&& self.reply_to is None
        &&& self.metadata is Null
    }

    /// Create a new generic message.
    pub fn new(message_type: &str, payload: JsonValue) -> (m: Self)
        ensures
            m.is_fresh(message_type@, payload),
            exists|b: Seq<u8>, reading: Option<u128>|
                b.len() == 16 && m.id@ == #[trigger] uuid_text(b) && m.timestamp
                    == #[trigger] reading_timestamp(reading),
    {
        let bytes = random_bytes();
        let reading = system_clock_millis();
        Self::new_from(message_type, payload, bytes, reading)
    }

    /// The message that [`CommunicationMessage::new`] makes from the random
    /// bytes `id_bytes` and the clock reading `reading`: its identifier is
    /// the text of the bytes and its timestamp that of the reading.
    pub fn new_from(message_type: &str, payload: JsonValue, id_bytes: [u8; 16], reading: Option<u128>) -> (m: Self)
        ensures
            m.is_fresh(message_type@, payload),
            m.id@ == uuid_text(id_bytes@),
            m.timestamp == reading_timestamp(reading),
    {
        let id = format_uuid_v4(id_bytes);
        proof {
            lemma_uuid_text_shape(id_bytes@);
        }
        CommunicationMessage {
            id,
            message_type: String::from_str(message_type),
            payload,
            timestamp: timestamp_of_reading(reading),
            source_id: String::from_str("unknown"),
            reply_to: None,
            metadata: JsonValue::Null,
        }
    }

    /// Create a response to a specific message.
    pub fn create_reply(&self, payload: JsonValue) -> (reply: Self)
        ensures
            is_uuid_shape(reply.id@),
            reply.message_type@ == "response"@,
            reply.payload == payload,
            reply.source_id@ == "unknown"@,
            reply.reply_to == Some(self.id),
            reply.metadata is Null,
    {
        let mut reply = Self::new("response", payload);
        reply.reply_to = Some(self.id.clone());
        reply
    }

    /// Set the source ID.
    pub fn with_source(self, source_id: &str) -> (m: Self)
        ensures
            m.source_id@ == source_id@,
            m.id == self.id,
            m.message_type == self.message_type,
            m.payload == self.payload,
            m.timestamp == self.timestamp,
            m.reply_to == self.reply_to,
            m.metadata == self.metadata,
    {
        let mut m = self;
        m.source_id = String::from_str(source_id);
        m
    }

    /// Legacy helper for command line args.
    pub fn command_line_args(args: Vec<String>) -> (m: Self)
        ensures
            is_uuid_shape(m.id@),
            m.message_type@ == "command_line_args"@,
            is_json_text_array(m.payload, args@),
            m.source_id@ == "client"@,
            m.reply_to is None,
            m.metadata is Null,
    {
        Self::new("command_line_args", JsonValue::text_array(&args)).with_source("client")
    }

    /// Legacy helper for simple responses.
    pub fn response(content: String) -> (m: Self)
        ensures
            is_uuid_shape(m.id@),
            m.message_type@ == "response"@,
            is_json_text(m.payload, content@),
            m.source_id@ == "server"@,
            m.reply_to is None,
            m.metadata is Null,
    {
        Self::new("response", JsonValue::text(content.as_str())).with_source("server")
    }

    /// Legacy helper for simple errors.
    pub fn error(error: String) -> (m: Self)
        ensures
            is_uuid_shape(m.id@),
            m.message_type@ == "error"@,
            is_json_text(m.payload, error@),
            m.source_id@ == "server"@,
            m.reply_to is None,
            m.metadata is Null,
    {
        Self::new("error", JsonValue::text(error.as_str())).with_source("server")
    }
}

} // verus!
