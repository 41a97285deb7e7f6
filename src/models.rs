//! Data models of the email API.

use vstd::prelude::*;

verus! {

/// A JSON value, carried through a request untouched.
#[verifier::external_type_specification]
#[verifier::external_body]
pub struct ExJsonValue(serde_json::Value);

/// The model of an optional string argument.
pub open spec fn opt_str_view(s: Option<&str>) -> Option<Seq<char>> {
    match s {
        Some(t) => Some(t@),
        None => None,
    }
}

/// Mathematical model of an [`EmailAddress`].
pub struct AddressView {
    pub email: Seq<char>,
    pub name: Option<Seq<char>>,
}

/// An email address with an optional display name.
#[derive(Debug, Clone)]
pub struct EmailAddress {
    /// The email address.
    pub email: String,
    /// Optional display name.
    pub name: Option<String>,
}

impl View for EmailAddress {
    type V = AddressView;

    open spec fn view(&self) -> AddressView {
        AddressView { email: self.email@, name: self.name.deep_view() }
    }
}

impl DeepView for EmailAddress {
    type V = AddressView;

    open spec fn deep_view(&self) -> AddressView {
        self@
    }
}

impl EmailAddress {
    /// Create a new email address.
    pub fn new(email: &str) -> (r: Self)
        ensures
            r@ == (AddressView { email: email@, name: None }),
    {
        EmailAddress { email: email.to_owned(), name: None }
    }

    /// Create a new email address with a display name.
    pub fn with_name(email: &str, name: &str) -> (r: Self)
        ensures
            r@ == (AddressView { email: email@, name: Some(name@) }),
    {
        EmailAddress { email: email.to_owned(), name: Some(name.to_owned()) }
    }

    /// Create an address from an email and an optional display name.
    pub fn from_parts(email: &str, name: Option<&str>) -> (r: Self)
        ensures
            r@ == (AddressView { email: email@, name: opt_str_view(name) }),
    {
        match name {
            Some(n) => EmailAddress::with_name(email, n),
            None => EmailAddress::new(email),
        }
    }
}

impl From<String> for EmailAddress {
    fn from(email: String) -> (r: Self) {
        EmailAddress { email, name: None }
    }
}

impl vstd::std_specs::convert::FromSpecImpl<String> for EmailAddress {
    open spec fn obeys_from_spec() -> bool {
        true
    }

    open spec fn from_spec(email: String) -> EmailAddress {
        EmailAddress { email, name: None }
    }
}

/// Mathematical model of an [`Attachment`].
pub struct AttachmentView {
    pub file_name: Seq<char>,
    pub content: Seq<char>,
    pub content_type: Seq<char>,
}

/// An email attachment.
#[derive(Debug, Clone)]
pub struct Attachment {
    /// The filename of the attachment.
    pub file_name: String,
    /// Base64-encoded content of the attachment.
    pub content: String,
    /// MIME type of the attachment.
    pub content_type: String,
}

impl View for Attachment {
    type V = AttachmentView;

    open spec fn view(&self) -> AttachmentView {
        AttachmentView {
            file_name: self.file_name@,
            content: self.content@,
            content_type: self.content_type@,
        }
    }
}

impl DeepView for Attachment {
    type V = AttachmentView;

    open spec fn deep_view(&self) -> AttachmentView {
        self@
    }
}

impl Attachment {
    /// Create a new attachment.
    pub fn new(file_name: &str, content: &str, content_type: &str) -> (r: Self)
        ensures
            r@ == (AttachmentView {
                file_name: file_name@,
                content: content@,
                content_type: content_type@,
            }),
    {
        Attachment {
            file_name: file_name.to_owned(),
            content: content.to_owned(),
            content_type: content_type.to_owned(),
        }
    }
}

/// Email tracking settings. Each unset field leaves the service's default.
#[derive(Debug, Clone, Copy, PartialEq, Eq, Structural)]
pub struct Tracking {
    /// Track when recipients open emails.
    pub opens: Option<bool>,
    /// Track when recipients click links.
    pub clicks: Option<bool>,
    /// Track unsubscribe events.
    pub unsubscribes: Option<bool>,
    /// Optional unsubscribe group ID.
    pub unsubscribe_group_id: Option<u64>,
}

impl Default for Tracking {
    fn default() -> (r: Self)
        ensures
            r.opens is None,
            r.clicks is None,
            r.unsubscribes is None,
            r.unsubscribe_group_id is None,
    {
        Tracking { opens: None, clicks: None, unsubscribes: None, unsubscribe_group_id: None }
    }
}

/// A sequence of key/value pairs of strings, as the model sees it.
pub type Entries = Seq<(Seq<char>, Seq<char>)>;

/// No key occurs twice among the entries.
pub open spec fn keys_unique(entries: Entries) -> bool {
    forall|i: int, j: int|
        0 <= i < entries.len() && 0 <= j < entries.len() && i != j ==> entries[i].0
            != entries[j].0
}

/// Mathematical model of an [`Email`].
pub struct EmailView {
    pub from: AddressView,
    pub to: Seq<AddressView>,
    pub subject: Seq<char>,
    pub text_content: Option<Seq<char>>,
    pub html_content: Option<Seq<char>>,
    pub reply_to: Option<AddressView>,
    pub cc: Option<Seq<AddressView>>,
    pub bcc: Option<Seq<AddressView>>,
    pub attachments: Option<Seq<AttachmentView>>,
    pub headers: Option<Entries>,
    pub template_id: Option<Seq<char>>,
    pub template_data: Option<serde_json::Value>,
    pub send_time: Option<u64>,
    pub webhook_data: Option<Entries>,
    pub tag: Option<Seq<char>>,
    pub tracking: Option<Tracking>,
}

/// A single email to be sent.
///
/// A map-valued field (`headers`, `webhook_data`) holds its pairs in the
/// order in which they were first set, each key once.
#[derive(Debug, Clone)]
pub struct Email {
    /// Sender email address.
    pub from: EmailAddress,
    /// Primary recipients.
    pub to: Vec<EmailAddress>,
    /// Email subject line.
    pub subject: String,
    /// Plain text email content.
    pub text_content: Option<String>,
    /// HTML email content.
    pub html_content: Option<String>,
    /// Reply-to address.
    pub reply_to: Option<EmailAddress>,
    /// Carbon copy recipients.
    pub cc: Option<Vec<EmailAddress>>,
    /// Blind carbon copy recipients.
    pub bcc: Option<Vec<EmailAddress>>,
    /// File attachments.
    pub attachments: Option<Vec<Attachment>>,
    /// Custom email headers.
    pub headers: Option<Vec<(String, String)>>,
    /// Template ID for pre-built templates.
    pub template_id: Option<String>,
    /// Template data for variable substitution.
    pub template_data: Option<serde_json::Value>,
    /// Unix timestamp for scheduled sending.
    pub send_time: Option<u64>,
    /// Custom data sent to webhook endpoints.
    pub webhook_data: Option<Vec<(String, String)>>,
    /// Label for organizing and tracking emails.
    pub tag: Option<String>,
    /// Email tracking settings.
    pub tracking: Option<Tracking>,
}

impl View for Email {
    type V = EmailView;

    open spec fn view(&self) -> EmailView {
        EmailView {
            from: self.from@,
            to: self.to.deep_view(),
            subject: self.subject@,
            text_content: self.text_content.deep_view(),
            html_content: self.html_content.deep_view(),
            reply_to: self.reply_to.deep_view(),
            cc: self.cc.deep_view(),
            bcc: self.bcc.deep_view(),
            attachments: self.attachments.deep_view(),
            headers: self.headers.deep_view(),
            template_id: self.template_id.deep_view(),
            template_data: self.template_data,
            send_time: self.send_time,
            webhook_data: self.webhook_data.deep_view(),
            tag: self.tag.deep_view(),
            tracking: self.tracking,
        }
    }
}

/// Request body for sending emails.
#[derive(Debug, Clone)]
pub struct SendEmailRequest {
    /// List of emails to send.
    pub emails: Vec<Email>,
}

/// Response from the send email endpoint.
#[derive(Debug, Clone)]
pub struct SendEmailResponse {
    /// Status of the request (e.g., "accepted").
    pub status: String,
}

/// Error response from the API.
#[derive(Debug, Clone)]
pub struct ApiErrorResponse {
    /// Error message.
    pub error: String,
}

} // verus!
