use vstd::prelude::*;
use vstd::string::*;

use crate::clock::now_millis;
use crate::encoding::lower_of;
use crate::encryption::{CryptoManager, EncryptedData, MAX_PLAINTEXT};
use crate::sync_error::{prefixed, SyncError, SyncResult};
use crate::text::chars_of;
use crate::wire::{
    category_for_app, category_of, is_wire_form, plaintext_bytes, plaintext_of, wire_event, StoredEvent,
    SyncEvent, SyncRequest,
};

verus! {

/// Most events sent in one upload.
pub const MAX_BATCH: usize = 100;

/// Where and as whom to upload.
#[derive(Debug, Clone)]
pub struct ServerConfig {
    pub server_url: String,
    pub jwt_token: String,
    pub device_id: String,
}

impl ServerConfig {
    /// A field-by-field copy.
    pub fn duplicate(&self) -> (r: ServerConfig)
        ensures
            r == *self,
    {
        ServerConfig {
            server_url: self.server_url.clone(),
            jwt_token: self.jwt_token.clone(),
            device_id: self.device_id.clone(),
        }
    }
}

/// A point-in-time view of the sync engine.
#[derive(Debug, Clone)]
pub struct SyncStatus {
    pub is_syncing: bool,
    pub last_sync_at: Option<String>,
    pub pending_events: i64,
    pub last_error: Option<String>,
}

/// Settings of the periodic sync.
#[derive(Debug, Clone, Copy)]
pub struct SyncConfig {
    pub auto_sync_interval_secs: u64,
    pub auto_sync_batch_size: usize,
    pub auto_sync_enabled: bool,
}

impl Default for SyncConfig {
    fn default() -> (r: SyncConfig)
        ensures
            r.auto_sync_interval_secs == 300,
            r.auto_sync_batch_size == MAX_BATCH,
            r.auto_sync_enabled,
    {
        SyncConfig { auto_sync_interval_secs: 300, auto_sync_batch_size: MAX_BATCH, auto_sync_enabled: true }
    }
}

/// What the local store must do once a run has ended.
#[derive(Debug)]
pub enum SyncCompletion {
    /// Mark these events synced, record the sync time and clear the last error.
    MarkSynced(Vec<String>),
    /// Record this text as the last error.
    RecordError(String),
}

/// `w` is an encrypted wire form of `e` under `m`, for some sealing and some
/// time of building; its nonce and tag are 24 characters each.
pub open spec fn encodes(m: CryptoManager, e: StoredEvent, w: SyncEvent) -> bool {
    &&& w.nonce@.len() == 24
    &&& w.tag@.len() == 24
    &&& exists|d: EncryptedData, now: i64| m.seals(plaintext_of(e), d) && #[trigger] is_wire_form(e, d, now, w)
}

/// The identifiers of `events`, in order.
pub open spec fn ids_of(events: Seq<StoredEvent>) -> Seq<Seq<char>> {
    events.map_values(|e: StoredEvent| e.id@)
}

/// The first `MAX_BATCH` events, or all of them if fewer.
pub open spec fn batch_of(events: Seq<StoredEvent>) -> Seq<StoredEvent> {
    if events.len() <= MAX_BATCH {
        events
    } else {
        events.take(MAX_BATCH as int)
    }
}

/// The `pending` count as reported: saturated at `i64::MAX`.
pub open spec fn pending_count(pending: usize) -> i64 {
    if pending <= i64::MAX {
        pending as i64
    } else {
        i64::MAX
    }
}

/// The decisions of the sync engine: the cipher, the cached server
/// configuration and the single-flight flag. The store and the network are
/// driven by the caller.
pub struct SyncClient {
    crypto: Option<CryptoManager>,
    config: Option<ServerConfig>,
    is_syncing: bool,
}

impl SyncClient {
    /// Whether a sync is running.
    pub closed spec fn syncing(&self) -> bool {
        self.is_syncing
    }

    /// The installed cipher, if any.
    pub closed spec fn cipher(&self) -> Option<CryptoManager> {
        self.crypto
    }

    /// The configuration cached in memory, if any.
    pub closed spec fn cached_config(&self) -> Option<ServerConfig> {
        self.config
    }

    pub fn new() -> (r: SyncClient)
        ensures
            !r.syncing(),
            r.cipher() is None,
            r.cached_config() is None,
    {
        SyncClient { crypto: None, config: None, is_syncing: false }
    }

    /// Installs the key used for every later encryption.
    pub fn set_crypto_key(&mut self, key: [u8; 32]) -> (r: Result<(), crate::encryption::CryptoError>)
        ensures
            r is Ok,
            final(self).cipher() matches Some(m) && m.key() == key@,
            final(self).syncing() == old(self).syncing(),
            final(self).cached_config() == old(self).cached_config(),
    {
        match CryptoManager::new(&key) {
            Ok(m) => {
                self.crypto = Some(m);
                Ok(())
            },
            Err(e) => Err(e),
        }
    }

    /// Caches `config` in memory; the caller persists it first.
    pub fn set_config(&mut self, config: ServerConfig)
        ensures
            final(self).cached_config() == Some(config),
            final(self).syncing() == old(self).syncing(),
            final(self).cipher() == old(self).cipher(),
    {
        self.config = Some(config);
    }

    /// The configuration in force: the one read back from the store when
    /// there is one, else the one cached in memory.
    pub fn get_config(&self, stored: Option<ServerConfig>) -> (r: Option<ServerConfig>)
        ensures
            r == (if stored is Some { stored } else { self.cached_config() }),
    {
        match stored {
            Some(c) => Some(c),
            None => match &self.config {
                Some(c) => Some(c.duplicate()),
                None => None,
            },
        }
    }

    /// Assembles the status from the store's facts: the last sync time, the
    /// number of unsynced events and the last recorded error, where an empty
    /// record means that the error was cleared.
    pub fn get_status(&self, last_sync_at: Option<String>, pending: usize, last_error: Option<String>) -> (r:
        SyncStatus)
        ensures
            r.is_syncing == self.syncing(),
            r.last_sync_at == last_sync_at,
            r.pending_events == pending_count(pending),
            r.last_error == (match last_error {
                Some(t) => if t@.len() == 0 { None } else { Some(t) },
                None => None,
            }),
    {
        let pending_events: i64 = if (pending as u64) <= (i64::MAX as u64) {
            pending as i64
        } else {
            i64::MAX
        };
        let last_error = match last_error {
            Some(t) => if t.as_str().unicode_len() == 0 {
                None
            } else {
                Some(t)
            },
            None => None,
        };
        SyncStatus { is_syncing: self.is_syncing, last_sync_at, pending_events, last_error }
    }

    /// Whether enough events wait for a sync to be worth starting.
    pub fn check_and_sync_if_needed(&self, pending: usize, threshold: usize) -> (r: bool)
        ensures
            r == (pending >= threshold),
    {
        pending >= threshold
    }

    /// Whether a tick of the periodic sync has work to report: none while a
    /// run is in flight, none when nothing waits.
    pub fn auto_sync_due(&self, pending: usize) -> (r: bool)
        ensures
            r == (!self.syncing() && pending > 0),
    {
        !self.is_syncing && pending > 0
    }

    /// The category label of an application.
    pub fn categorize_app(&self, app_name: &str) -> (r: Option<String>)
        ensures
            r matches Some(k) && k@ == category_of(lower_of(app_name@)),
    {
        category_for_app(app_name)
    }

    /// Starts a run by taking the single-flight flag. Refused while another
    /// run is in flight, leaving the engine as it was. Needs nothing from the
    /// store, so a refused run touches neither the store nor the network.
    pub fn begin_sync(&mut self) -> (r: SyncResult)
        ensures
            final(self).syncing(),
            final(self).cipher() == old(self).cipher(),
            final(self).cached_config() == old(self).cached_config(),
            r is Ok <==> !old(self).syncing(),
            r matches Err(e) ==> e is Unknown && e.detail() == "Sync already in progress"@,
    {
        if self.is_syncing {
            return Err(SyncError::Unknown(String::from_str("Sync already in progress")));
        }
        self.is_syncing = true;
        Ok(())
    }

    /// The configuration for a started run: the one read back from the
    /// store when there is one, else the cached one. With neither the run
    /// ends, releasing the flag.
    pub fn resolve_config(&mut self, stored: Option<ServerConfig>) -> (r: Result<ServerConfig, SyncError>)
        ensures
            final(self).cipher() == old(self).cipher(),
            final(self).cached_config() == old(self).cached_config(),
            stored is None && old(self).cached_config() is None ==> (r matches Err(e) && e is Unknown
                && e.detail() == "Server not configured"@) && !final(self).syncing(),
            stored is Some || old(self).cached_config() is Some ==> r == Ok::<ServerConfig, SyncError>(
                (if stored is Some { stored } else { old(self).cached_config() })->0,
            ) && final(self).syncing() == old(self).syncing(),
    {
        match self.get_config(stored) {
            Some(c) => Ok(c),
            None => {
                self.is_syncing = false;
                Err(SyncError::Unknown(String::from_str("Server not configured")))
            },
        }
    }

    /// The batch of a started run from the unsynced events, oldest first.
    /// With none waiting the run ends at once with success, releasing the
    /// flag, and nothing is sent.
    pub fn plan_batch(&mut self, events: Vec<StoredEvent>) -> (r: Option<Vec<StoredEvent>>)
        ensures
            final(self).cipher() == old(self).cipher(),
            final(self).cached_config() == old(self).cached_config(),
            events@.len() == 0 ==> r is None && !final(self).syncing(),
            events@.len() > 0 ==> (r matches Some(b) && b@ == batch_of(events@)) && final(self).syncing()
                == old(self).syncing(),
    {
        if events.len() == 0 {
            self.is_syncing = false;
            return None;
        }
        Some(Self::select_batch(events))
    }

    /// Releases the single-flight flag.
    pub fn end_sync(&mut self)
        ensures
            !final(self).syncing(),
            final(self).cipher() == old(self).cipher(),
            final(self).cached_config() == old(self).cached_config(),
    {
        self.is_syncing = false;
    }

    /// The events of one upload: the oldest `MAX_BATCH`, in the order given.
    pub fn select_batch(events: Vec<StoredEvent>) -> (r: Vec<StoredEvent>)
        ensures
            r@ == batch_of(events@),
    {
        let mut events = events;
        if events.len() > MAX_BATCH {
            events.truncate(MAX_BATCH);
        }
        events
    }

    /// The identifiers of `events`, in order.
    pub fn batch_ids(events: &Vec<StoredEvent>) -> (r: Vec<String>)
        ensures
            r@.map_values(|s: String| s@) == ids_of(events@),
    {
        let mut ids: Vec<String> = Vec::new();
        let mut i: usize = 0;
        while i < events.len()
            invariant
                i <= events@.len(),
                ids@.len() == i,
                forall|j: int| 0 <= j < i ==> (#[trigger] ids@[j])@ == events@[j].id@,
            decreases events@.len() - i,
        {
            ids.push(events[i].id.clone());
            i += 1;
        }
        assert(ids@.map_values(|s: String| s@) =~= ids_of(events@));
        ids
    }

    /// Encrypts each event on its own under a fresh nonce and builds its wire
    /// form. Fails when no key is installed, or when an event cannot be
    /// encrypted.
    pub fn build_sync_events(&self, events: &Vec<StoredEvent>) -> (r: Result<Vec<SyncEvent>, SyncError>)
        ensures
            self.cipher() is None ==> (r matches Err(e) && e is Encryption && e.detail()
                == "Crypto manager not initialized"@),
            r matches Ok(ws) ==> ws@.len() == events@.len() && forall|i: int|
                0 <= i < events@.len() ==> encodes(self.cipher()->0, events@[i], #[trigger] ws@[i]),
            r is Ok ==> self.cipher() is Some,
            self.cipher() is Some && (forall|i: int|
                0 <= i < events@.len() ==> (#[trigger] plaintext_of(events@[i])).len() <= MAX_PLAINTEXT)
                ==> r is Ok,
            r matches Err(e) ==> e is Encryption,
    {
        let crypto = match &self.crypto {
            Some(m) => m,
            None => {
                return Err(SyncError::Encryption(String::from_str("Crypto manager not initialized")));
            },
        };
        let mut out: Vec<SyncEvent> = Vec::with_capacity(events.len());
        let mut i: usize = 0;
        while i < events.len()
            invariant
                self.crypto == Some(*crypto),
                i <= events@.len(),
                out@.len() == i,
                forall|j: int| 0 <= j < i ==> encodes(*crypto, events@[j], #[trigger] out@[j]),
            decreases events@.len() - i,
        {
            let e = &events[i];
            let sealed = match crypto.encrypt(plaintext_bytes(e)) {
                Ok(d) => d,
                Err(_) => {
                    return Err(SyncError::Encryption(String::from_str("Failed to encrypt: Encryption failed")));
                },
            };
            let now = now_millis();
            let w = match wire_event(e, &sealed, now) {
                Ok(w) => w,
                Err(err) => {
                    return Err(err);
                },
            };
            assert(is_wire_form(*e, sealed, now, w));
            out.push(w);
            i += 1;
        }
        Ok(out)
    }

    /// The request body for `events` under `config`.
    pub fn build_request(&self, config: &ServerConfig, events: &Vec<StoredEvent>) -> (r: Result<
        SyncRequest,
        SyncError,
    >)
        ensures
            self.cipher() is None ==> r is Err,
            r matches Ok(q) ==> q.device_id == config.device_id && q.events@.len() == events@.len() && forall|
                i: int,
            | 0 <= i < events@.len() ==> encodes(self.cipher()->0, events@[i], #[trigger] q.events@[i]),
            self.cipher() is Some && (forall|i: int|
                0 <= i < events@.len() ==> (#[trigger] plaintext_of(events@[i])).len() <= MAX_PLAINTEXT)
                ==> r is Ok,
            r matches Err(e) ==> e is Encryption,
    {
        match self.build_sync_events(events) {
            Ok(ws) => Ok(SyncRequest { device_id: config.device_id.clone(), events: ws }),
            Err(e) => Err(e),
        }
    }

    /// Ends a run that reached the network: on success the sent events are
    /// to be marked synced, on failure the error text is to be recorded. The
    /// single-flight flag is released either way.
    pub fn finish_sync(&mut self, batch: &Vec<StoredEvent>, result: &SyncResult) -> (r: SyncCompletion)
        ensures
            !final(self).syncing(),
            final(self).cipher() == old(self).cipher(),
            final(self).cached_config() == old(self).cached_config(),
            result is Ok ==> (r matches SyncCompletion::MarkSynced(ids) && ids@.map_values(|s: String| s@)
                == ids_of(batch@)),
            result matches Err(e) ==> (r matches SyncCompletion::RecordError(t) && t@ == e.text()),
    {
        self.is_syncing = false;
        match result {
            Ok(_) => SyncCompletion::MarkSynced(Self::batch_ids(batch)),
            Err(e) => SyncCompletion::RecordError(e.to_string()),
        }
    }
}

/// The upload endpoint under `server_url`, trailing slashes removed.
pub open spec fn trimmed(s: Seq<char>) -> Seq<char>
    decreases s.len(),
{
    if s.len() > 0 && s.last() == '/' {
        trimmed(s.drop_last())
    } else {
        s
    }
}

pub open spec fn endpoint_of(server_url: Seq<char>) -> Seq<char> {
    trimmed(server_url) + "/api/v1/sync/events"@
}

/// The upload endpoint for a server base URL.
pub fn sync_url(server_url: &str) -> (r: String)
    ensures
        r@ == endpoint_of(server_url@),
{
    let s = chars_of(server_url);
    let mut k: usize = s.len();
    assert(s@.take(k as int) =~= s@);
    while k > 0 && s[k - 1] == '/'
        invariant
            k <= s@.len(),
            s@ == server_url@,
            trimmed(s@.take(k as int)) == trimmed(s@),
        decreases k,
    {
        assert(s@.take(k as int).drop_last() =~= s@.take(k - 1));
        k -= 1;
    }
    assert(trimmed(s@.take(k as int)) == s@.take(k as int));
    let mut r = String::from_str(server_url.substring_char(0, k));
    r.append("/api/v1/sync/events");
    r
}

/// The value of the authorization header for `token`.
pub fn bearer(token: &str) -> (r: String)
    ensures
        r@ == "Bearer "@ + token@,
{
    prefixed("Bearer ", token)
}

} // verus!
