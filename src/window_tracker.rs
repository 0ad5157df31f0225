use vstd::prelude::*;
use vstd::string::*;

use crate::text::{chars_of, contains, has_text};

verus! {

/// Failures of the foreground-window probe.
#[derive(Debug, Clone, PartialEq, Eq)]
pub enum WindowTrackerError {
    NoActiveWindow,
    ProcessQueryFailed(String),
}

/// One observation of the foreground activity. `timestamp` is in
/// milliseconds since the Unix epoch.
#[derive(Debug, Clone)]
pub struct WindowInfo {
    pub process_name: String,
    pub window_title: String,
    pub timestamp: i64,
}

impl WindowInfo {
    /// A field-by-field copy.
    pub fn duplicate(&self) -> (r: WindowInfo)
        ensures
            r == *self,
    {
        WindowInfo {
            process_name: self.process_name.clone(),
            window_title: self.window_title.clone(),
            timestamp: self.timestamp,
        }
    }
}

/// Reads the foreground window and turns what it reads into a `WindowInfo`.
#[derive(Debug, Clone)]
pub struct WindowTracker;

/// Window titles that mask a typed password (bullets or asterisks).
pub open spec fn masks_secret(title: Seq<char>) -> bool {
    contains(title, "•••"@) || contains(title, "***"@)
}

/// Words that mark a banking, password-manager or login window.
pub open spec fn sensitive_keywords() -> Seq<Seq<char>> {
    seq![
        "Bank"@,
        "Finance"@,
        "Password"@,
        "Login"@,
        "1Password"@,
        "Bitwarden"@,
        "KeePass"@,
    ]
}

pub open spec fn names_sensitive_app(title: Seq<char>) -> bool {
    exists|k: int| 0 <= k < sensitive_keywords().len() && contains(title, #[trigger] sensitive_keywords()[k])
}

/// The title as it may be stored: replaced wholesale when it shows a masked
/// secret or names a sensitive application, unchanged otherwise.
pub open spec fn sanitized(title: Seq<char>) -> Seq<char> {
    if masks_secret(title) {
        "[Sensitive Content]"@
    } else if names_sensitive_app(title) {
        "[Protected App]"@
    } else {
        title
    }
}

impl WindowTracker {
    pub fn new() -> (r: Result<WindowTracker, WindowTrackerError>)
        ensures
            r is Ok,
    {
        Ok(WindowTracker)
    }

    /// Privacy filter applied to every window title before it is kept.
    pub fn sanitize_title(title: &str) -> (r: String)
        ensures
            r@ == sanitized(title@),
    {
        let t = chars_of(title);
        if has_text(&t, "•••") || has_text(&t, "***") {
            return String::from_str("[Sensitive Content]");
        }
        let b0 = has_text(&t, "Bank");
        let b1 = has_text(&t, "Finance");
        let b2 = has_text(&t, "Password");
        let b3 = has_text(&t, "Login");
        let b4 = has_text(&t, "1Password");
        let b5 = has_text(&t, "Bitwarden");
        let b6 = has_text(&t, "KeePass");
        proof {
            let ks = sensitive_keywords();
            assert(ks[0] == "Bank"@ && ks[1] == "Finance"@ && ks[2] == "Password"@);
            assert(ks[3] == "Login"@ && ks[4] == "1Password"@ && ks[5] == "Bitwarden"@);
            assert(ks[6] == "KeePass"@);
            if names_sensitive_app(title@) {
                let k = choose|k: int| 0 <= k < ks.len() && contains(title@, #[trigger] ks[k]);
                assert(b0 || b1 || b2 || b3 || b4 || b5 || b6);
            }
        }
        if b0 || b1 || b2 || b3 || b4 || b5 || b6 {
            proof {
                let ks = sensitive_keywords();
                if b0 { assert(contains(title@, ks[0])); }
                if b1 { assert(contains(title@, ks[1])); }
                if b2 { assert(contains(title@, ks[2])); }
                if b3 { assert(contains(title@, ks[3])); }
                if b4 { assert(contains(title@, ks[4])); }
                if b5 { assert(contains(title@, ks[5])); }
                if b6 { assert(contains(title@, ks[6])); }
            }
            return String::from_str("[Protected App]");
        }
        String::from_str(title)
    }

    /// The observation kept for what the OS probe read: the title goes through
    /// `sanitize_title`, the rest is kept as read.
    pub fn get_active_window_info(&self, process_name: String, raw_title: &str, timestamp: i64) -> (r: WindowInfo)
        ensures
            r.process_name@ == process_name@,
            r.window_title@ == sanitized(raw_title@),
            r.timestamp == timestamp,
    {
        WindowInfo { process_name, window_title: Self::sanitize_title(raw_title), timestamp }
    }
}

} // verus!
