//! Per-frame bookkeeping of the overlay application: the settings panel, the
//! back-off after failing updates, read-call statistics, the launch token
//! checks and the watermark labels.

use vstd::prelude::*;
use vstd::string::*;
use crate::settings::KeyToggleMode;
use serde_json::Value;

verus! {

/// A sink for usage records.
pub trait MetricsClient {
    fn add_metrics_record(&self, record_type: &str, record_payload: &str);
}

/// Whether the settings panel is open, and whether the settings changed since
/// they were last saved.
pub struct SettingsPanel {
    pub visible: bool,
    pub dirty: bool,
}

impl SettingsPanel {
    /// A closed panel with nothing to save.
    pub fn new() -> (r: Self)
        ensures
            !r.visible,
            !r.dirty,
    {
        SettingsPanel { visible: false, dirty: false }
    }

    /// Opens or closes the panel on the settings key; closing it schedules a
    /// save. Returns the new visibility, which is also the edit mode of the
    /// movable overlay elements.
    pub fn toggle(&mut self) -> (r: bool)
        ensures
            (*final(self), r) == panel_toggle(*old(self)),
    {
        self.visible = !self.visible;
        if !self.visible {
            self.dirty = true;
        }
        self.visible
    }

    /// Schedules a save when a feature changed the settings.
    pub fn note_change(&mut self, changed: bool)
        ensures
            final(self).visible == old(self).visible,
            final(self).dirty == (old(self).dirty || changed),
    {
        if changed {
            self.dirty = true;
        }
    }

    /// Whether the settings are to be saved now; clears the request.
    pub fn take_dirty(&mut self) -> (r: bool)
        ensures
            (*final(self), r) == panel_take_dirty(*old(self)),
    {
        let r = self.dirty;
        self.dirty = false;
        r
    }
}

/// The panel after the settings key was pressed, and the new visibility.
pub open spec fn panel_toggle(p: SettingsPanel) -> (SettingsPanel, bool) {
    (SettingsPanel { visible: !p.visible, dirty: p.dirty || p.visible }, !p.visible)
}

/// The panel after a save check, and whether to save.
pub open spec fn panel_take_dirty(p: SettingsPanel) -> (SettingsPanel, bool) {
    (SettingsPanel { visible: p.visible, dirty: false }, p.dirty)
}

/// Closing the settings panel makes the next save check save, and the one
/// after it not; pressing the key twice restores the visibility.
pub proof fn law_closing_panel_saves_once(p: SettingsPanel)
    ensures
        ({
            let (closed, _) = panel_toggle(p);
            let (checked, first) = panel_take_dirty(closed);
            let (_, second) = panel_take_dirty(checked);
            p.visible ==> first && !second
        }),
        panel_toggle(panel_toggle(p).0).0.visible == p.visible,
{
}

/// The number of failed updates after which updating pauses.
pub const MAX_UPDATE_FAILURES: u32 = 10;

/// How long updating pauses, in milliseconds.
pub const UPDATE_PAUSE_MILLIS: u64 = 1000;

/// What an update guard holds: the failed updates counted since the last
/// pause, and when the current pause started.
#[derive(Clone, Copy, Debug, PartialEq, Eq, Structural)]
pub struct GuardState {
    pub fail_count: u32,
    pub pause_started: Option<u64>,
}

/// Counts failed updates and pauses updating after too many of them. The
/// count never exceeds `MAX_UPDATE_FAILURES`.
pub struct UpdateGuard {
    fail_count: u32,
    pause_started: Option<u64>,
}

impl View for UpdateGuard {
    type V = GuardState;

    closed spec fn view(&self) -> GuardState {
        GuardState { fail_count: self.fail_count, pause_started: self.pause_started }
    }
}

/// What one frame does once the guard was asked.
pub open spec fn guard_before(g: GuardState, now: u64) -> (GuardState, bool) {
    match g.pause_started {
        Some(t) => if now >= t && now - t > UPDATE_PAUSE_MILLIS {
            (GuardState { pause_started: None, ..g }, true)
        } else {
            (g, false)
        },
        None => (g, true),
    }
}

/// The guard after an update, and whether the frame is still rendered.
pub open spec fn guard_after(g: GuardState, failed: bool, now: u64) -> (GuardState, bool) {
    if !failed {
        (g, true)
    } else if g.fail_count >= MAX_UPDATE_FAILURES {
        (GuardState { fail_count: 0, pause_started: Some(now) }, false)
    } else {
        (GuardState { fail_count: (g.fail_count + 1) as u32, ..g }, true)
    }
}

impl UpdateGuard {
    #[verifier::type_invariant]
    spec fn count_within_limit(self) -> bool {
        self.fail_count <= MAX_UPDATE_FAILURES
    }

    /// No failure seen, no pause.
    pub fn new() -> (r: Self)
        ensures
            r@ == (GuardState { fail_count: 0, pause_started: None }),
    {
        UpdateGuard { fail_count: 0, pause_started: None }
    }

    /// The failed updates counted since the last pause.
    pub fn fail_count(&self) -> (r: u32)
        ensures
            r == self@.fail_count,
            r <= MAX_UPDATE_FAILURES,
    {
        proof {
            use_type_invariant(self);
        }
        self.fail_count
    }

    /// When the current pause started, if updating is paused.
    pub fn pause_started(&self) -> (r: Option<u64>)
        ensures
            r == self@.pause_started,
    {
        self.pause_started
    }

    /// Whether the frame runs its update; ends a pause that lasted more than a second.
    pub fn before_update(&mut self, now: u64) -> (r: bool)
        ensures
            (final(self)@, r) == guard_before(old(self)@, now),
            final(self)@.fail_count <= MAX_UPDATE_FAILURES,
    {
        proof {
            use_type_invariant(&*self);
        }
        match self.pause_started {
            Some(t) => {
                if now >= t && now - t > UPDATE_PAUSE_MILLIS {
                    self.pause_started = None;
                    true
                } else {
                    false
                }
            },
            None => true,
        }
    }

    /// Records the result of an update; the frame after the failure that
    /// exceeds the limit is not rendered and starts a pause.
    pub fn after_update(&mut self, failed: bool, now: u64) -> (r: bool)
        ensures
            (final(self)@, r) == guard_after(old(self)@, failed, now),
            final(self)@.fail_count <= MAX_UPDATE_FAILURES,
    {
        proof {
            use_type_invariant(&*self);
        }
        if !failed {
            return true;
        }
        if self.fail_count >= MAX_UPDATE_FAILURES {
            self.fail_count = 0;
            self.pause_started = Some(now);
            false
        } else {
            self.fail_count = self.fail_count + 1;
            true
        }
    }
}

/// The failure count never exceeds the limit, and a pause starts exactly on
/// the failure after the limit was reached.
pub proof fn law_update_guard_bounded(g: GuardState, failed: bool, now: u64)
    requires
        g.fail_count <= MAX_UPDATE_FAILURES,
    ensures
        guard_after(g, failed, now).0.fail_count <= MAX_UPDATE_FAILURES,
        guard_before(g, now).0.fail_count == g.fail_count,
        guard_after(g, failed, now).0.pause_started == (if failed && g.fail_count
            == MAX_UPDATE_FAILURES {
            Some(now)
        } else {
            g.pause_started
        }),
{
}

/// Memory reads per frame, from the interface's running total.
pub struct ReadCallCounter {
    pub frame_read_calls: usize,
    pub last_total_read_calls: usize,
}

impl ReadCallCounter {
    /// No reads counted yet.
    pub fn new() -> (r: Self)
        ensures
            r.frame_read_calls == 0,
            r.last_total_read_calls == 0,
    {
        ReadCallCounter { frame_read_calls: 0, last_total_read_calls: 0 }
    }

    /// Records the running total at the end of a frame.
    pub fn record(&mut self, total_read_calls: usize)
        requires
            total_read_calls >= old(self).last_total_read_calls,
        ensures
            final(self).frame_read_calls == total_read_calls - old(self).last_total_read_calls,
            final(self).last_total_read_calls == total_read_calls,
    {
        self.frame_read_calls = total_read_calls - self.last_total_read_calls;
        self.last_total_read_calls = total_read_calls;
    }
}

/// Whether a character is a hexadecimal digit.
pub open spec fn is_hex_char(c: char) -> bool {
    ('0' <= c <= '9') || ('A' <= c <= 'F') || ('a' <= c <= 'f')
}

/// Whether a launch nonce is well formed: 64 hexadecimal digits.
pub open spec fn nonce_well_formed(nonce: Seq<char>) -> bool {
    nonce.len() == 64 && forall|i: int| 0 <= i < nonce.len() ==> is_hex_char(#[trigger] nonce[i])
}

/// A launch nonce is 64 hexadecimal digits.
pub fn launch_nonce_valid(nonce: &str) -> (r: bool)
    ensures
        r == nonce_well_formed(nonce@),
{
    let n = nonce.unicode_len();
    if n != 64 {
        return false;
    }
    let mut i: usize = 0;
    while i < n
        invariant
            n == nonce@.len(),
            i <= n,
            forall|k: int| 0 <= k < i ==> is_hex_char(#[trigger] nonce@[k]),
        decreases n - i,
    {
        let c = nonce.get_char(i);
        if !(('0' <= c && c <= '9') || ('A' <= c && c <= 'F') || ('a' <= c && c <= 'f')) {
            return false;
        }
        i = i + 1;
    }
    true
}

/// A launch token has expired once its expiry time, in milliseconds since the
/// epoch, is not after the current time.
pub fn launch_token_expired(expires_at: i64, now: i64) -> (r: bool)
    ensures
        r == (expires_at <= now),
{
    expires_at <= now
}

/// The launch token counts as verified only when the server says so.
pub fn launch_token_accepted(verified: Option<bool>) -> (r: bool)
    ensures
        r == (verified == Some(true)),
{
    match verified {
        Some(v) => v,
        None => false,
    }
}

/// Why a launch token is refused.
#[derive(Debug, Clone, Copy, PartialEq, Eq, Structural)]
pub enum LaunchTokenError {
    /// The token file is not JSON.
    Invalid,
    /// The token has no server credential (`token`).
    NoCredential,
    /// The token has no verification endpoint (`endpoint`).
    NoEndpoint,
    /// The token has no hardware id (`hwid`).
    NoHwid,
    /// The token has no API key (`anonKey`).
    NoApiKey,
    /// The token has no expiry (`expiresAt`).
    NoExpiry,
    /// The token has no nonce (`nonce`).
    NoNonce,
    /// The nonce is not 64 hexadecimal digits.
    NonceInvalid,
    /// The token's expiry time has come.
    Expired,
    /// The verification server's answer is not JSON.
    ResponseInvalid,
    /// The verification server did not confirm the token.
    Rejected,
}

impl LaunchTokenError {
    /// The message shown to the user.
    pub fn message(&self) -> (r: &'static str)
        ensures
            r@ == match *self {
                LaunchTokenError::Invalid => "The launcher token is invalid"@,
                LaunchTokenError::NoCredential => "The launcher token has no server credential"@,
                LaunchTokenError::NoEndpoint => "The launcher token has no verification endpoint"@,
                LaunchTokenError::NoHwid => "The launcher token has no HWID"@,
                LaunchTokenError::NoApiKey => "The launcher token has no API key"@,
                LaunchTokenError::NoExpiry => "The launcher token has no expiry"@,
                LaunchTokenError::NoNonce => "The launcher token has no nonce"@,
                LaunchTokenError::NonceInvalid => "The launcher token nonce is invalid"@,
                LaunchTokenError::Expired => "The launcher token has expired"@,
                LaunchTokenError::ResponseInvalid => "The launcher token response is invalid"@,
                LaunchTokenError::Rejected => "The launcher token was rejected"@,
            },
    {
        match self {
            LaunchTokenError::Invalid => "The launcher token is invalid",
            LaunchTokenError::NoCredential => "The launcher token has no server credential",
            LaunchTokenError::NoEndpoint => "The launcher token has no verification endpoint",
            LaunchTokenError::NoHwid => "The launcher token has no HWID",
            LaunchTokenError::NoApiKey => "The launcher token has no API key",
            LaunchTokenError::NoExpiry => "The launcher token has no expiry",
            LaunchTokenError::NoNonce => "The launcher token has no nonce",
            LaunchTokenError::NonceInvalid => "The launcher token nonce is invalid",
            LaunchTokenError::Expired => "The launcher token has expired",
            LaunchTokenError::ResponseInvalid => "The launcher token response is invalid",
            LaunchTokenError::Rejected => "The launcher token was rejected",
        }
    }
}

/// The fields of a launch token file's JSON object; each is `None` where the
/// object lacks it or holds a value of another type there.
pub struct LaunchTokenFields {
    pub token: Option<String>,
    pub endpoint: Option<String>,
    pub hwid: Option<String>,
    pub anon_key: Option<String>,
    pub expires_at: Option<i64>,
    pub nonce: Option<String>,
}

/// The text of an optional string.
pub open spec fn opt_text(o: Option<String>) -> Option<Seq<char>> {
    match o {
        Some(s) => Some(s@),
        None => None,
    }
}

impl LaunchTokenFields {
    /// The fields as plain values, in the order of the struct.
    pub open spec fn plain(self) -> (
        Option<Seq<char>>,
        Option<Seq<char>>,
        Option<Seq<char>>,
        Option<Seq<char>>,
        Option<i64>,
        Option<Seq<char>>,
    ) {
        (
            opt_text(self.token),
            opt_text(self.endpoint),
            opt_text(self.hwid),
            opt_text(self.anon_key),
            self.expires_at,
            opt_text(self.nonce),
        )
    }
}

/// The fields read from a launch token file as plain values; `None` where the
/// file is not JSON.
pub open spec fn fields_plain(fields: Option<LaunchTokenFields>) -> Option<
    (Option<Seq<char>>, Option<Seq<char>>, Option<Seq<char>>, Option<Seq<char>>, Option<i64>, Option<Seq<char>>),
> {
    match fields {
        Some(f) => Some(f.plain()),
        None => None,
    }
}

/// What serde_json reads from a launch token file: `None` where it refuses the
/// text as JSON, else the string fields `token`, `endpoint`, `hwid`, `anonKey`,
/// `nonce` and the `i64` field `expiresAt` of the value.
pub uninterp spec fn launch_token_json(text: Seq<char>) -> Option<
    (Option<Seq<char>>, Option<Seq<char>>, Option<Seq<char>>, Option<Seq<char>>, Option<i64>, Option<Seq<char>>),
>;

/// Parses a launch token file with `serde_json::from_str::<serde_json::Value>`
/// and picks its fields with `Value::get` and `Value::as_str` (`as_i64` for
/// `expiresAt`). Trusted: the result is `launch_token_json` of the text; what
/// serde_json accepts as JSON is not stated.
#[verifier::external_body]
fn parse_launch_token_json(text: &str) -> (r: Option<LaunchTokenFields>)
    ensures
        match r {
            Some(f) => launch_token_json(text@) == Some(f.plain()),
            None => launch_token_json(text@) is None,
        },
{
    let value: Value = serde_json::from_str(text).ok()?;
    Some(LaunchTokenFields {
        token: value.get("token").and_then(Value::as_str).map(String::from),
        endpoint: value.get("endpoint").and_then(Value::as_str).map(String::from),
        hwid: value.get("hwid").and_then(Value::as_str).map(String::from),
        anon_key: value.get("anonKey").and_then(Value::as_str).map(String::from),
        expires_at: value.get("expiresAt").and_then(Value::as_i64),
        nonce: value.get("nonce").and_then(Value::as_str).map(String::from),
    })
}

/// What a launch token is used for: the credential, the verification
/// endpoint, the hardware id, the API key and the expiry time.
pub struct LaunchToken {
    pub token: String,
    pub endpoint: String,
    pub hwid: String,
    pub anon_key: String,
    pub expires_at: i64,
}

impl LaunchToken {
    /// The token as plain values, in the order of the struct.
    pub open spec fn plain(self) -> (Seq<char>, Seq<char>, Seq<char>, Seq<char>, i64) {
        (self.token@, self.endpoint@, self.hwid@, self.anon_key@, self.expires_at)
    }
}

/// What a launch token file's fields give: the first missing field, in the
/// order credential, endpoint, hardware id, API key, expiry, nonce, refuses
/// the token; so does a malformed nonce; else the token is used.
pub open spec fn launch_token_outcome(
    fields: Option<
        (Option<Seq<char>>, Option<Seq<char>>, Option<Seq<char>>, Option<Seq<char>>, Option<i64>, Option<Seq<char>>),
    >,
) -> Result<(Seq<char>, Seq<char>, Seq<char>, Seq<char>, i64), LaunchTokenError> {
    match fields {
        None => Err(LaunchTokenError::Invalid),
        Some((token, endpoint, hwid, anon_key, expires_at, nonce)) => {
            if token is None {
                Err(LaunchTokenError::NoCredential)
            } else if endpoint is None {
                Err(LaunchTokenError::NoEndpoint)
            } else if hwid is None {
                Err(LaunchTokenError::NoHwid)
            } else if anon_key is None {
                Err(LaunchTokenError::NoApiKey)
            } else if expires_at is None {
                Err(LaunchTokenError::NoExpiry)
            } else if nonce is None {
                Err(LaunchTokenError::NoNonce)
            } else if !nonce_well_formed(nonce->0) {
                Err(LaunchTokenError::NonceInvalid)
            } else {
                Ok((token->0, endpoint->0, hwid->0, anon_key->0, expires_at->0))
            }
        },
    }
}

/// Checks the fields read from a launch token file (`None`: the file is not
/// JSON) and keeps what the launch needs.
pub fn check_launch_token_fields(fields: Option<LaunchTokenFields>) -> (r: Result<LaunchToken, LaunchTokenError>)
    ensures
        match r {
            Ok(t) => launch_token_outcome(fields_plain(fields)) == Ok::<
                (Seq<char>, Seq<char>, Seq<char>, Seq<char>, i64),
                LaunchTokenError,
            >(t.plain()),
            Err(e) => launch_token_outcome(fields_plain(fields)) == Err::<
                (Seq<char>, Seq<char>, Seq<char>, Seq<char>, i64),
                LaunchTokenError,
            >(e),
        },
{
    let f = match fields {
        Some(f) => f,
        None => return Err(LaunchTokenError::Invalid),
    };
    let token = match f.token {
        Some(v) => v,
        None => return Err(LaunchTokenError::NoCredential),
    };
    let endpoint = match f.endpoint {
        Some(v) => v,
        None => return Err(LaunchTokenError::NoEndpoint),
    };
    let hwid = match f.hwid {
        Some(v) => v,
        None => return Err(LaunchTokenError::NoHwid),
    };
    let anon_key = match f.anon_key {
        Some(v) => v,
        None => return Err(LaunchTokenError::NoApiKey),
    };
    let expires_at = match f.expires_at {
        Some(v) => v,
        None => return Err(LaunchTokenError::NoExpiry),
    };
    let nonce = match f.nonce {
        Some(v) => v,
        None => return Err(LaunchTokenError::NoNonce),
    };
    if !launch_nonce_valid(nonce.as_str()) {
        return Err(LaunchTokenError::NonceInvalid);
    }
    Ok(LaunchToken { token, endpoint, hwid, anon_key, expires_at })
}

/// Reads a launch token file's text: the token, or why it is refused.
pub fn check_launch_token(text: &str) -> (r: Result<LaunchToken, LaunchTokenError>)
    ensures
        match r {
            Ok(t) => launch_token_outcome(launch_token_json(text@)) == Ok::<
                (Seq<char>, Seq<char>, Seq<char>, Seq<char>, i64),
                LaunchTokenError,
            >(t.plain()),
            Err(e) => launch_token_outcome(launch_token_json(text@)) == Err::<
                (Seq<char>, Seq<char>, Seq<char>, Seq<char>, i64),
                LaunchTokenError,
            >(e),
        },
{
    let fields = parse_launch_token_json(text);
    check_launch_token_fields(fields)
}

/// What serde_json reads from the verification server's answer: `None` where
/// it refuses the bytes as JSON, else the boolean field `verified` of the
/// value (`None` where that field is missing or not a boolean).
pub uninterp spec fn launch_verification_json(body: Seq<u8>) -> Option<Option<bool>>;

/// Parses the verification server's answer with
/// `serde_json::from_slice::<serde_json::Value>` and picks `verified` with
/// `Value::get` and `Value::as_bool`. Trusted: the result is
/// `launch_verification_json` of the bytes; what serde_json accepts as JSON is
/// not stated.
#[verifier::external_body]
fn parse_launch_verification_json(body: &[u8]) -> (r: Option<Option<bool>>)
    ensures
        r == launch_verification_json(body@),
{
    let value: Value = serde_json::from_slice(body).ok()?;
    Some(value.get("verified").and_then(Value::as_bool))
}

/// What the verification server's answer gives (`None`: it is not JSON): the
/// launch goes on only where the answer confirms the token.
pub fn check_launch_verification_field(verified: Option<Option<bool>>) -> (r: Result<(), LaunchTokenError>)
    ensures
        r == match verified {
            None => Err::<(), LaunchTokenError>(LaunchTokenError::ResponseInvalid),
            Some(Some(true)) => Ok(()),
            Some(_) => Err(LaunchTokenError::Rejected),
        },
{
    match verified {
        None => Err(LaunchTokenError::ResponseInvalid),
        Some(v) => if launch_token_accepted(v) {
            Ok(())
        } else {
            Err(LaunchTokenError::Rejected)
        },
    }
}

/// Reads the verification server's answer: whether the launch goes on.
pub fn check_launch_verification(body: &[u8]) -> (r: Result<(), LaunchTokenError>)
    ensures
        r == match launch_verification_json(body@) {
            None => Err::<(), LaunchTokenError>(LaunchTokenError::ResponseInvalid),
            Some(Some(true)) => Ok(()),
            Some(_) => Err(LaunchTokenError::Rejected),
        },
{
    check_launch_verification_field(parse_launch_verification_json(body))
}

/// The expiry check of a launch token at the time `now`, in milliseconds
/// since the epoch.
pub fn check_launch_expiry(expires_at: i64, now: i64) -> (r: Result<(), LaunchTokenError>)
    ensures
        r == (if expires_at <= now {
            Err::<(), LaunchTokenError>(LaunchTokenError::Expired)
        } else {
            Ok(())
        }),
{
    if launch_token_expired(expires_at, now) {
        Err(LaunchTokenError::Expired)
    } else {
        Ok(())
    }
}

/// An item of the watermark.
#[derive(Clone, Copy, Debug, PartialEq, Eq, Structural)]
pub enum WatermarkItem {
    Title,
    Fps,
    TriggerBot,
    Rcs,
    MapName,
    Esp,
}

/// The items of the watermark, in the order they are shown: the title, then
/// each item that is switched on, in the order frames per second, trigger
/// bot, recoil control, map, ESP.
pub open spec fn watermark_spec(fps: bool, trigger: bool, rcs: bool, map: bool, esp: bool) -> Seq<WatermarkItem> {
    seq![WatermarkItem::Title]
        + (if fps { seq![WatermarkItem::Fps] } else { Seq::empty() })
        + (if trigger { seq![WatermarkItem::TriggerBot] } else { Seq::empty() })
        + (if rcs { seq![WatermarkItem::Rcs] } else { Seq::empty() })
        + (if map { seq![WatermarkItem::MapName] } else { Seq::empty() })
        + (if esp { seq![WatermarkItem::Esp] } else { Seq::empty() })
}

/// The items of the watermark for the switches of the settings.
pub fn watermark_items(fps: bool, trigger: bool, rcs: bool, map: bool, esp: bool) -> (r: Vec<WatermarkItem>)
    ensures
        r@ == watermark_spec(fps, trigger, rcs, map, esp),
{
    let mut r: Vec<WatermarkItem> = Vec::new();
    r.push(WatermarkItem::Title);
    if fps {
        r.push(WatermarkItem::Fps);
    }
    if trigger {
        r.push(WatermarkItem::TriggerBot);
    }
    if rcs {
        r.push(WatermarkItem::Rcs);
    }
    if map {
        r.push(WatermarkItem::MapName);
    }
    if esp {
        r.push(WatermarkItem::Esp);
    }
    r
}

/// A watermark label such as `TRG ON / H`.
pub fn toggle_label(prefix: &str, active: bool, mode: KeyToggleMode) -> (r: String)
    ensures
        r@ == prefix@ + " "@ + (if active {
            "ON"@
        } else {
            "OFF"@
        }) + " / "@ + match mode {
            KeyToggleMode::AlwaysOn => "ON"@,
            KeyToggleMode::Toggle => "T"@,
            KeyToggleMode::Trigger => "H"@,
            KeyToggleMode::TriggerInverted => "HI"@,
            KeyToggleMode::Off => "OFF"@,
        },
{
    let mut r = String::from_str(prefix);
    r.append(" ");
    r.append(
        if active {
            "ON"
        } else {
            "OFF"
        },
    );
    r.append(" / ");
    r.append(mode.short_name());
    r
}

/// The map name shown in the watermark.
pub fn map_label(current_map: Option<String>) -> (r: String)
    ensures
        match current_map {
            Some(m) => r@ == m@,
            None => r@ == "Unknown"@,
        },
{
    match current_map {
        Some(m) => m,
        None => String::from_str("Unknown"),
    }
}

} // verus!
