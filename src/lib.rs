//! Activity capture and encrypted batch upload: the verified core.

mod clock;
mod encoding;
mod encryption;
mod event_queue;
mod idle_detector;
mod monitor;
mod retry;
mod sync;
mod sync_error;
mod text;
mod window_tracker;
mod wire;

pub use text::{chars_of, contains, occurs_at, seq_contains};
pub use window_tracker::{sanitized, WindowInfo, WindowTracker, WindowTrackerError};
pub use encryption::{gcm_seal, CryptoError, CryptoManager, EncryptedData, MAX_PLAINTEXT};
pub use encoding::{base64_of, decimal_of, hex_of, lower_of};
pub use sync_error::{prefixed, SyncError, SyncResult};
pub use wire::{
    category_for_app, category_of, category_of_lowercase, clamp_timestamp, clamped_timestamp, is_wire_form,
    plaintext_bytes, plaintext_of, wire_event, StoredEvent, SyncEvent, SyncRequest, CLOCK_SKEW_MILLIS, TAG_LEN,
};
pub use retry::{
    doubled, judges, send_result, RetryState, RetryStep, SendOutcome, INITIAL_DELAY_MILLIS, MAX_ATTEMPTS,
};
pub use sync::{
    batch_of, bearer, encodes, endpoint_of, ids_of, pending_count, sync_url, trimmed, ServerConfig, SyncClient,
    SyncCompletion, SyncConfig, SyncStatus, MAX_BATCH,
};
pub use event_queue::{accept, accept_all, lemma_fill_then_drain, EventQueue, QueueError, QueuedEvent};
pub use idle_detector::{idle_millis, IdleDetector, IdleDetectorError};
pub use monitor::{
    active_label, bumped, is_change, kept_names, lemma_repeats_collapse, Collector, CollectorStatus, TickStart,
    IDLE_THRESHOLD_MILLIS, IDLE_WAIT_MILLIS, POLL_INTERVAL_MILLIS, QUEUE_CAPACITY,
};
