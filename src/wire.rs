use vstd::prelude::*;
use vstd::slice::slice_subrange;
use vstd::string::*;
use vstd::utf8::encode_utf8;

use crate::encoding::{base64_encode, base64_of, hex_encode, hex_of, lemma_hex_of_len, lower_of, lowercase};
use crate::encryption::EncryptedData;
use crate::sync_error::SyncError;
use crate::text::{chars_of, contains, has_text};

verus! {

/// Length in bytes of the authentication tag that ends each ciphertext.
pub const TAG_LEN: usize = 16;

/// How far ahead of the local clock, in milliseconds, an event may be dated.
pub const CLOCK_SKEW_MILLIS: i64 = 60000;

/// An event as the local store holds it. `timestamp` is in milliseconds
/// since the Unix epoch; `duration` is reserved and stays 0.
#[derive(Debug, Clone)]
pub struct StoredEvent {
    pub id: String,
    pub event_type: String,
    pub timestamp: i64,
    pub duration: i32,
    pub app_name: String,
    pub window_title: Option<String>,
}

/// The encrypted, network-ready form of a `StoredEvent`.
#[derive(Debug, Clone)]
pub struct SyncEvent {
    pub id: String,
    pub event_type: String,
    pub timestamp: i64,
    pub duration: i32,
    /// Base64 of the ciphertext without its tag.
    pub encrypted_data: String,
    /// Hexadecimal of the 12-byte nonce.
    pub nonce: String,
    /// Padded base64 of the 16-byte tag.
    pub tag: String,
    pub app_name: String,
    pub category: Option<String>,
}

/// Body of an upload: the device and its batch.
#[derive(Debug, Clone)]
pub struct SyncRequest {
    pub device_id: String,
    pub events: Vec<SyncEvent>,
}

/// The bytes that are encrypted for an event: its window title when it has
/// one, its application name otherwise, as UTF-8.
pub open spec fn plaintext_of(e: StoredEvent) -> Seq<u8> {
    match e.window_title {
        Some(t) => encode_utf8(t@),
        None => encode_utf8(e.app_name@),
    }
}

/// A coarse label for an application, from its lowercased name.
pub open spec fn category_of(lower: Seq<char>) -> Seq<char> {
    if contains(lower, "chrome"@) || contains(lower, "firefox"@) || contains(lower, "edge"@) {
        "work"@
    } else if contains(lower, "code"@) || contains(lower, "idea"@) || contains(lower, "visual"@) {
        "development"@
    } else if contains(lower, "slack"@) || contains(lower, "teams"@) || contains(lower, "zoom"@) {
        "communication"@
    } else if contains(lower, "spotify"@) || contains(lower, "netflix"@) || contains(lower, "vlc"@) {
        "entertainment"@
    } else if contains(lower, "word"@) || contains(lower, "excel"@) || contains(lower, "powerpoint"@) {
        "productivity"@
    } else if contains(lower, "steam"@) || contains(lower, "game"@) {
        "gaming"@
    } else {
        "other"@
    }
}

/// The timestamp sent for an event: its own, unless it lies more than the
/// allowed skew ahead of `now`, in which case `now`.
pub open spec fn clamped_timestamp(timestamp: i64, now: i64) -> i64 {
    if timestamp > now + CLOCK_SKEW_MILLIS {
        now
    } else {
        timestamp
    }
}

/// `w` is the wire form of `e`, sealed as `d`, built at time `now`.
pub open spec fn is_wire_form(e: StoredEvent, d: EncryptedData, now: i64, w: SyncEvent) -> bool {
    let c = d.ciphertext@;
    let n = c.len() - TAG_LEN;
    &&& c.len() >= TAG_LEN
    &&& w.id@ == e.id@
    &&& w.event_type@ == e.event_type@
    &&& w.timestamp == clamped_timestamp(e.timestamp, now)
    &&& w.duration == e.duration
    &&& w.encrypted_data@ == base64_of(c.subrange(0, n))
    &&& w.nonce@ == hex_of(d.nonce@)
    &&& w.tag@ == base64_of(c.subrange(n, c.len() as int))
    &&& w.tag@.len() == 24
    &&& w.nonce@.len() == 2 * d.nonce@.len()
    &&& w.app_name@ == e.app_name@
    &&& w.category matches Some(k) && k@ == category_of(lower_of(e.app_name@))
}

/// The category label for an already lowercased application name.
pub fn category_of_lowercase(lower: &str) -> (r: String)
    ensures
        r@ == category_of(lower@),
{
    let s = chars_of(lower);
    let label = if has_text(&s, "chrome") || has_text(&s, "firefox") || has_text(&s, "edge") {
        "work"
    } else if has_text(&s, "code") || has_text(&s, "idea") || has_text(&s, "visual") {
        "development"
    } else if has_text(&s, "slack") || has_text(&s, "teams") || has_text(&s, "zoom") {
        "communication"
    } else if has_text(&s, "spotify") || has_text(&s, "netflix") || has_text(&s, "vlc") {
        "entertainment"
    } else if has_text(&s, "word") || has_text(&s, "excel") || has_text(&s, "powerpoint") {
        "productivity"
    } else if has_text(&s, "steam") || has_text(&s, "game") {
        "gaming"
    } else {
        "other"
    };
    String::from_str(label)
}

/// The category label for an application, matched case-insensitively.
pub fn category_for_app(app_name: &str) -> (r: Option<String>)
    ensures
        r matches Some(k) && k@ == category_of(lower_of(app_name@)),
{
    let lower = lowercase(app_name);
    Some(category_of_lowercase(lower.as_str()))
}

/// The timestamp to send for an event dated `timestamp`, given the time `now`.
pub fn clamp_timestamp(timestamp: i64, now: i64) -> (r: i64)
    ensures
        r == clamped_timestamp(timestamp, now),
{
    if now <= i64::MAX - CLOCK_SKEW_MILLIS && timestamp > now + CLOCK_SKEW_MILLIS {
        now
    } else {
        timestamp
    }
}

/// The bytes to encrypt for `e`.
pub fn plaintext_bytes(e: &StoredEvent) -> (r: &[u8])
    ensures
        r@ == plaintext_of(*e),
{
    match &e.window_title {
        Some(t) => t.as_str().as_bytes(),
        None => e.app_name.as_str().as_bytes(),
    }
}

/// Builds the wire form of `e` from its sealing `d` at time `now`: the tag is
/// split off the ciphertext and each part is encoded on its own.
pub fn wire_event(e: &StoredEvent, d: &EncryptedData, now: i64) -> (r: Result<SyncEvent, SyncError>)
    ensures
        d.ciphertext@.len() < TAG_LEN <==> r is Err,
        r matches Err(err) ==> err is Encryption && err.detail() == "Invalid ciphertext length"@,
        r matches Ok(w) ==> is_wire_form(*e, *d, now, w),
{
    let c = d.ciphertext.as_slice();
    let n = c.len();
    if n < TAG_LEN {
        return Err(SyncError::Encryption(String::from_str("Invalid ciphertext length")));
    }
    let nonce = hex_encode(d.nonce.as_slice());
    proof {
        lemma_hex_of_len(d.nonce@);
    }
    let tag = base64_encode(slice_subrange(c, n - TAG_LEN, n));
    let encrypted_data = base64_encode(slice_subrange(c, 0, n - TAG_LEN));
    let category = category_for_app(e.app_name.as_str());
    let timestamp = clamp_timestamp(e.timestamp, now);
    Ok(SyncEvent {
        id: e.id.clone(),
        event_type: e.event_type.clone(),
        timestamp,
        duration: e.duration,
        encrypted_data,
        nonce,
        tag,
        app_name: e.app_name.clone(),
        category,
    })
}

} // verus!
