//! Data model: upload records and history, auth sessions, watcher state,
//! and the plain data types the host exchanges with this library.

use vstd::prelude::*;

verus! {

/// Visibility of an uploaded replay on the remote service.
#[derive(Debug, Clone, Copy, PartialEq, Eq, Structural)]
pub enum Visibility {
    Public,
    Unlisted,
}

impl Visibility {
    /// The wire value sent in the upload form's `visibility` field.
    pub fn as_str(&self) -> (r: &'static str)
        ensures
            *self is Public ==> r@ == "public"@,
            *self is Unlisted ==> r@ == "unlisted"@,
    {
        match self {
            Visibility::Public => "public",
            Visibility::Unlisted => "unlisted",
        }
    }
}

impl Default for Visibility {
    fn default() -> (r: Self)
        ensures
            r is Public,
    {
        Visibility::Public
    }
}

/// Application configuration, persisted by the host's config store.
#[derive(Debug, Clone)]
pub struct AppConfig {
    pub replay_folder: String,
    pub default_visibility: Visibility,
    pub auto_start: bool,
    pub notifications_enabled: bool,
    pub setup_complete: bool,
}

impl Default for AppConfig {
    fn default() -> (r: Self)
        ensures
            r.replay_folder@.len() == 0,
            r.default_visibility is Public,
            !r.auto_start,
            r.notifications_enabled,
            !r.setup_complete,
    {
        AppConfig {
            replay_folder: String::new(),
            default_visibility: Visibility::Public,
            auto_start: false,
            notifications_enabled: true,
            setup_complete: false,
        }
    }
}

/// Profile snapshot of the logged-in user.
#[derive(Debug, Clone)]
pub struct User {
    pub id: String,
    pub username: String,
    pub email: String,
    pub email_verified: bool,
    pub avatar_url: Option<String>,
}

impl User {
    /// An exact copy; unlike the derived `Clone`, this carries a proof of
    /// equality.
    pub fn duplicate(&self) -> (r: User)
        ensures
            r == *self,
    {
        User {
            id: self.id.clone(),
            username: self.username.clone(),
            email: self.email.clone(),
            email_verified: self.email_verified,
            avatar_url: dup_opt_string(&self.avatar_url),
        }
    }
}

/// An exact copy of an optional string, with a proof of equality.
pub fn dup_opt_string(o: &Option<String>) -> (r: Option<String>)
    ensures
        r == *o,
{
    match o {
        Some(s) => Some(s.clone()),
        None => None,
    }
}

/// Credential material for the remote service.
///
/// A session with an empty `refresh_token` was obtained through the device
/// flow and cannot be refreshed via the cookie-refresh path.
#[derive(Debug, Clone)]
pub struct AuthSession {
    pub access_token: String,
    pub refresh_token: String,
    pub access_token_expiry: String,
    pub refresh_token_expiry: String,
    pub user: User,
    pub device_id: Option<String>,
}

impl AuthSession {
    /// An exact copy; unlike the derived `Clone`, this carries a proof of
    /// equality.
    pub fn duplicate(&self) -> (r: AuthSession)
        ensures
            r == *self,
    {
        AuthSession {
            access_token: self.access_token.clone(),
            refresh_token: self.refresh_token.clone(),
            access_token_expiry: self.access_token_expiry.clone(),
            refresh_token_expiry: self.refresh_token_expiry.clone(),
            user: self.user.duplicate(),
            device_id: dup_opt_string(&self.device_id),
        }
    }
}

/// Response to a device-code request.
#[derive(Debug, Clone)]
pub struct DeviceCodeResponse {
    pub device_code: String,
    pub user_code: String,
    pub verification_url: String,
    pub expires_in: u32,
    pub interval: u32,
}

/// Successful response to a device-token poll.
#[derive(Debug, Clone)]
pub struct DeviceTokenResponse {
    pub access_token: String,
    pub token_type: String,
    pub expires_in: u32,
    pub device_id: String,
    pub user: User,
}

/// Error payload returned by the device-flow endpoints.
#[derive(Debug, Clone)]
pub struct DeviceFlowError {
    pub error: String,
    pub error_description: String,
}

/// Outcome of one poll for a device token.
#[derive(Debug, Clone)]
pub enum DevicePollResult {
    Pending,
    Success(DeviceTokenResponse),
    SlowDown,
    Expired,
    Denied,
}

/// Lifecycle stage of one upload; progression is strictly forward.
#[derive(Debug, Clone, Copy, PartialEq, Eq, Structural)]
pub enum UploadStatus {
    Pending,
    Uploading,
    Processing,
    Completed,
    Failed,
}

impl UploadStatus {
    /// Position in the forward progression; a record's rank never decreases.
    pub open spec fn rank(self) -> int {
        match self {
            UploadStatus::Pending => 0,
            UploadStatus::Uploading => 1,
            UploadStatus::Processing => 2,
            UploadStatus::Completed => 3,
            UploadStatus::Failed => 3,
        }
    }

    /// Completed and Failed are terminal: no further attempts occur.
    pub open spec fn is_terminal(self) -> bool {
        self is Completed || self is Failed
    }
}

impl Default for UploadStatus {
    fn default() -> (r: Self)
        ensures
            r is Pending,
    {
        UploadStatus::Pending
    }
}

/// One attempt lifecycle for one file.
#[derive(Debug, Clone)]
pub struct UploadRecord {
    pub id: String,
    pub filename: String,
    pub file_path: String,
    pub status: UploadStatus,
    pub replay_id: Option<String>,
    pub replay_url: Option<String>,
    pub error_message: Option<String>,
    pub attempts: u32,
    pub created_at: String,
    pub completed_at: Option<String>,
    pub file_size: Option<u64>,
}

impl UploadRecord {
    /// An exact copy; unlike the derived `Clone`, this carries a proof of
    /// equality.
    pub fn duplicate(&self) -> (r: UploadRecord)
        ensures
            r == *self,
    {
        UploadRecord {
            id: self.id.clone(),
            filename: self.filename.clone(),
            file_path: self.file_path.clone(),
            status: self.status,
            replay_id: dup_opt_string(&self.replay_id),
            replay_url: dup_opt_string(&self.replay_url),
            error_message: dup_opt_string(&self.error_message),
            attempts: self.attempts,
            created_at: self.created_at.clone(),
            completed_at: dup_opt_string(&self.completed_at),
            file_size: self.file_size,
        }
    }
}

/// Upload history, newest record first.
#[derive(Debug, Clone)]
pub struct UploadHistory {
    pub records: Vec<UploadRecord>,
}

/// Most records `add_record` retains.
pub const MAX_RECORDS: usize = 100;

impl UploadHistory {
    /// Prepend a record, keeping at most `MAX_RECORDS` entries.
    pub fn add_record(&mut self, record: UploadRecord)
        ensures
            final(self).records@.len() <= MAX_RECORDS,
            final(self).records@.len()
                == if old(self).records@.len() < MAX_RECORDS {
                    old(self).records@.len() as int + 1
                } else {
                    MAX_RECORDS as int
                },
            final(self).records@
                == old(self).records@.insert(0, record).take(final(self).records@.len() as int),
    {
        self.records.insert(0, record);
        if self.records.len() > MAX_RECORDS {
            self.records.truncate(MAX_RECORDS);
        }
    }
}

impl Default for UploadHistory {
    fn default() -> (r: Self)
        ensures
            r.records@.len() == 0,
    {
        UploadHistory { records: Vec::new() }
    }
}

/// Snapshot of the watcher for external callers; not persisted.
#[derive(Debug, Clone)]
pub struct WatcherState {
    pub is_watching: bool,
    pub is_paused: bool,
    pub last_event_at: Option<String>,
    pub pending_files: Vec<String>,
}

/// Real-time progress of one transfer.
#[derive(Debug, Clone)]
pub struct UploadProgress {
    pub id: String,
    pub filename: String,
    pub bytes_uploaded: u64,
    pub total_bytes: u64,
    pub percentage: u8,
    pub speed: u64,
    pub estimated_remaining: Option<u64>,
}

/// Display information about the watched folder.
#[derive(Debug, Clone)]
pub struct FolderInfo {
    pub path: String,
    pub display_path: String,
    pub platform: String,
    pub exists: bool,
}

/// A replay folder found on this machine, with its game platform.
#[derive(Debug, Clone)]
pub struct DetectedFolder {
    pub path: String,
    pub platform: String,
}

} // verus!
