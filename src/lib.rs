//! Client library for a transactional-email service.
//!
//! The library builds validated email-send requests, holds the client
//! configuration that a transport needs to deliver them, and verifies the
//! HMAC signatures of inbound webhook callbacks.

pub mod builder;
pub mod client;
pub mod error;
pub mod models;
pub mod webhook;

pub use builder::BuilderView;
pub use builder::EmailBuilder;
pub use builder::Violation;
pub use client::is_success_status;
pub use client::LanefulClient;
pub use error::LanefulError;
pub use error::Result;
pub use models::AddressView;
pub use models::ApiErrorResponse;
pub use models::Attachment;
pub use models::AttachmentView;
pub use models::Email;
pub use models::EmailAddress;
pub use models::EmailView;
pub use models::SendEmailRequest;
pub use models::SendEmailResponse;
pub use models::Tracking;
pub use webhook::signature_matches;
pub use webhook::verify_webhook_signature;
