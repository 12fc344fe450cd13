//! The plain records the command layer exchanges with the library.
//!
//! The surrounding application serializes these for its frontend; here they
//! are bare data, built and inspected by verified code.

use vstd::prelude::*;

verus! {

/// A chat-completion result with token usage.
pub struct LlmCompletionResponse {
    pub content: String,
    pub model: String,
    pub input_tokens: u64,
    pub output_tokens: u64,
}

/// Availability and authentication state of the GitHub CLI.
pub struct GitHubCliStatusResponse {
    pub installed: bool,
    pub version: Option<String>,
    /// One of `ok`, `not_logged_in`, `unknown`.
    pub auth: String,
    pub auth_output: Option<String>,
}

/// What a successful engine start hands back.
pub struct EngineStartResponse {
    pub url: String,
    pub token: String,
    pub default_project_path: String,
}

/// An image upload to be saved under the attachments directory.
pub struct AttachmentSaveRequest {
    pub name: String,
    pub mime: String,
    pub data_base64: String,
}

/// The probe-only installation status of the engine CLI.
pub struct SnailerCliStatus {
    pub installed: bool,
    pub cli_path: Option<String>,
    pub npm_available: bool,
    pub using_bundled_node: bool,
    pub bundled_node_path: Option<String>,
    pub prefix_dir: String,
}

/// One entry of a file-tree listing.
pub struct FileNode {
    pub name: String,
    pub path: String,
    /// `file` or `dir`.
    pub kind: String,
}

/// The outcome of the ordered search for an environment file.
pub struct EnvFindResponse {
    pub found: bool,
    pub demonstrate_order: Vec<String>,
    pub selected_path: Option<String>,
    pub all_found_paths: Vec<String>,
}

/// A device-authorization session as returned by the auth service.
pub struct DeviceCodeResponse {
    pub device_code: String,
    pub user_code: String,
    pub verification_uri: String,
    pub verification_uri_complete: String,
    pub expires_in: i32,
    pub interval: i32,
}

impl Clone for DeviceCodeResponse {
    fn clone(&self) -> (r: Self)
        ensures
            r == *self,
    {
        DeviceCodeResponse {
            device_code: self.device_code.clone(),
            user_code: self.user_code.clone(),
            verification_uri: self.verification_uri.clone(),
            verification_uri_complete: self.verification_uri_complete.clone(),
            expires_in: self.expires_in,
            interval: self.interval,
        }
    }
}

/// The tokens and account identity a completed login hands back.
pub struct TokenResponse {
    pub access_token: String,
    pub refresh_token: String,
    pub account_id: String,
    pub email: String,
    pub name: String,
    /// Remaining lifetime in seconds; 0 when no expiry is known.
    pub expires_in: i32,
}

/// A created GitHub issue.
pub struct GhIssueResponse {
    pub number: i64,
    pub url: String,
}

/// One row of an issue listing.
pub struct GhIssueItem {
    pub number: i64,
    pub title: String,
    pub state: String,
    pub url: String,
    pub author: String,
}

/// The outcome of creating or switching to a branch.
pub struct GitBranchResponse {
    pub success: bool,
    pub branch: String,
}

/// The outcome of staging, committing and pushing.
pub struct GitCommitPushResponse {
    pub success: bool,
    pub sha: String,
    pub message: Option<String>,
}

/// A created pull request.
pub struct GhPrResponse {
    pub number: i64,
    pub url: String,
}

/// One row of a pull-request listing.
pub struct GhPrItem {
    pub number: i64,
    pub title: String,
    pub state: String,
    pub url: String,
    pub head_branch: String,
    pub author: String,
}

/// One check of a pull request.
pub struct GhPrCheckItem {
    pub name: String,
    pub status: String,
    pub conclusion: String,
}

/// The aggregated check state of a pull request.
pub struct GhPrChecksResponse {
    /// One of `success`, `failure`, `pending`, `no_checks`.
    pub status: String,
    pub checks: Vec<GhPrCheckItem>,
}

/// A posted pull-request comment.
pub struct GhCommentResponse {
    pub id: String,
}

/// The outcome of merging a pull request.
pub struct GhMergeResponse {
    pub success: bool,
}

/// A textual diff between two refs.
pub struct GitDiffResponse {
    pub patch: String,
}

} // verus!
