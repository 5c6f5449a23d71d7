//! Typed payloads exchanged with the surrounding command layer.
//!
//! The host application's command handlers marshal these shapes in and out
//! as JSON-like values. They carry no behaviour of their own; the store's
//! record kinds live in `records`, and these are the remaining payload
//! shapes of the callable boundary: authentication results, chat exchanges
//! with the assistant, and acknowledgements for remotely kept health
//! records.

use vstd::prelude::*;

verus! {

/// A signed-in user as the authentication service reports it.
#[derive(Debug, PartialEq)]
pub struct UserData {
    pub id: String,
    pub user_name: String,
    pub email: String,
    pub phone_number: Option<String>,
}

/// What a successful login or registration hands back: the token pair and
/// the user it belongs to.
#[derive(Debug, PartialEq)]
pub struct AuthResponse {
    pub token: String,
    pub refresh_token: String,
    pub user: UserData,
}

/// One turn of a chat exchange with the assistant.
#[derive(Debug, PartialEq)]
pub struct ChatMessage {
    pub role: String,
    pub content: String,
}

/// A chat request: the message, an optional health record it refers to, and
/// whether prior history should be sent along.
#[derive(Debug, PartialEq)]
pub struct ChatRequest {
    pub message: String,
    pub health_record_id: Option<String>,
    pub include_history: bool,
}

/// One structured suggestion attached to an assistant reply.
#[derive(Debug, PartialEq)]
pub struct Suggestion {
    pub kind: String,
    pub title: String,
    pub description: String,
}

/// The assistant's reply with its suggestions.
#[derive(Debug, PartialEq)]
pub struct ChatResponse {
    pub response: String,
    pub suggestions: Vec<Suggestion>,
}

/// The acknowledgement a remote health-record service returns for a newly
/// created record.
#[derive(Debug, PartialEq)]
pub struct HealthRecordResponse {
    pub id: String,
    pub created_at: String,
}

/// A blood-pressure record as sent to the remote health-record service.
#[derive(Debug, PartialEq)]
pub struct BloodPressureRecordRequest {
    pub systolic: i32,
    pub diastolic: i32,
    pub heart_rate: i32,
    pub position: Option<String>,
    pub comment: Option<String>,
}

/// A captured image as the camera hands it over.
#[derive(Debug, PartialEq)]
pub struct ImageData {
    pub base64: String,
    pub mime_type: String,
    pub width: u32,
    pub height: u32,
}

/// A saved file as the file-storage handlers report it.
#[derive(Debug, PartialEq)]
pub struct FileResult {
    pub path: String,
    pub name: String,
    pub size: u64,
}

} // verus!
