//! Builder for constructing validated [`Email`] values.

use crate::error::LanefulError;
use crate::error::Result;
use crate::models::keys_unique;
use crate::models::AddressView;
use crate::models::Attachment;
use crate::models::AttachmentView;
use crate::models::Email;
use crate::models::EmailAddress;
use crate::models::EmailView;
use crate::models::Entries;
use crate::models::opt_str_view;
use crate::models::Tracking;
use vstd::string::StrSliceExecFns;
use vstd::prelude::*;

verus! {

/// Largest number of recipients across `to`, `cc` and `bcc`.
pub const MAX_RECIPIENTS: usize = 1000;

/// Largest length of a tag, in characters.
pub const MAX_TAG_LENGTH: usize = 100;

/// Largest number of webhook data keys.
pub const MAX_WEBHOOK_DATA_KEYS: usize = 20;

/// Largest length of a webhook data key, in characters.
pub const MAX_WEBHOOK_DATA_KEY_LENGTH: usize = 50;

/// Largest length of a webhook data value, in characters.
pub const MAX_WEBHOOK_DATA_VALUE_LENGTH: usize = 100;

/// The rules that [`EmailBuilder::build`] enforces, in the order it checks them.
#[derive(Debug, Clone, Copy, PartialEq, Eq, Structural)]
pub enum Violation {
    /// No sender address was set.
    MissingFrom,
    /// There is no recipient in `to`, `cc` or `bcc`.
    NoRecipients,
    /// There are more than `MAX_RECIPIENTS` recipients in all.
    TooManyRecipients,
    /// No subject was set.
    MissingSubject,
    /// None of `text_content`, `html_content` and `template_id` was set.
    MissingContent,
    /// The tag is longer than `MAX_TAG_LENGTH` characters.
    TagTooLong,
    /// There are more than `MAX_WEBHOOK_DATA_KEYS` webhook data keys.
    TooManyWebhookKeys,
    /// A webhook data key is longer than `MAX_WEBHOOK_DATA_KEY_LENGTH` characters.
    WebhookKeyTooLong,
    /// A webhook data value is longer than `MAX_WEBHOOK_DATA_VALUE_LENGTH` characters.
    WebhookValueTooLong,
}

impl Violation {
    /// The message reported for this violation.
    pub open spec fn spec_message(self) -> Seq<char> {
        match self {
            Violation::MissingFrom => "from address is required"@,
            Violation::NoRecipients => "at least one recipient (to, cc, or bcc) is required"@,
            Violation::TooManyRecipients => "recipient limit exceeded (max 1000 across to/cc/bcc)"@,
            Violation::MissingSubject => "subject is required"@,
            Violation::MissingContent => "either text_content, html_content, or template_id is required"@,
            Violation::TagTooLong => "tag length exceeds 100 characters"@,
            Violation::TooManyWebhookKeys => "webhook_data exceeds 20 keys"@,
            Violation::WebhookKeyTooLong => "webhook_data key length exceeds 50 characters"@,
            Violation::WebhookValueTooLong => "webhook_data value length exceeds 100 characters"@,
        }
    }

    /// The message reported for this violation.
    pub fn message(&self) -> (r: String)
        ensures
            r@ == self.spec_message(),
    {
        let m = match self {
            Violation::MissingFrom => "from address is required",
            Violation::NoRecipients => "at least one recipient (to, cc, or bcc) is required",
            Violation::TooManyRecipients => "recipient limit exceeded (max 1000 across to/cc/bcc)",
            Violation::MissingSubject => "subject is required",
            Violation::MissingContent => "either text_content, html_content, or template_id is required",
            Violation::TagTooLong => "tag length exceeds 100 characters",
            Violation::TooManyWebhookKeys => "webhook_data exceeds 20 keys",
            Violation::WebhookKeyTooLong => "webhook_data key length exceeds 50 characters",
            Violation::WebhookValueTooLong => "webhook_data value length exceeds 100 characters",
        };
        m.to_owned()
    }

    /// The error that `build` returns for this violation.
    pub open spec fn is_reported_by(self, e: LanefulError) -> bool {
        &&& e is ValidationError
        &&& e->ValidationError_0@ == self.spec_message()
    }
}

/// Mathematical model of an [`EmailBuilder`]: the fields staged so far.
pub struct BuilderView {
    pub from: Option<AddressView>,
    pub to: Seq<AddressView>,
    pub subject: Option<Seq<char>>,
    pub text_content: Option<Seq<char>>,
    pub html_content: Option<Seq<char>>,
    pub reply_to: Option<AddressView>,
    pub cc: Seq<AddressView>,
    pub bcc: Seq<AddressView>,
    pub attachments: Seq<AttachmentView>,
    pub headers: Entries,
    pub template_id: Option<Seq<char>>,
    pub template_data: Option<serde_json::Value>,
    pub send_time: Option<u64>,
    pub webhook_data: Entries,
    pub tag: Option<Seq<char>>,
    pub tracking: Option<Tracking>,
}

/// The entries with `key` bound to `value`: an existing binding of `key` is
/// replaced in place, otherwise the pair is appended.
pub open spec fn upsert(entries: Entries, key: Seq<char>, value: Seq<char>) -> Entries {
    if exists|i: int| 0 <= i < entries.len() && entries[i].0 == key {
        let i = choose|i: int| 0 <= i < entries.len() && entries[i].0 == key;
        entries.update(i, (key, value))
    } else {
        entries.push((key, value))
    }
}

/// `None` for an empty sequence, the sequence itself otherwise.
pub open spec fn absent_if_empty<T>(s: Seq<T>) -> Option<Seq<T>> {
    if s.len() == 0 {
        None
    } else {
        Some(s)
    }
}

/// Number of recipients across `to`, `cc` and `bcc`.
pub open spec fn recipient_count(b: BuilderView) -> nat {
    b.to.len() + b.cc.len() + b.bcc.len()
}

/// The first webhook entry, from index `i` on, whose key or value is too long.
pub open spec fn entry_violation_from(entries: Entries, i: int) -> Option<Violation>
    decreases entries.len() - i,
{
    if i < 0 || i >= entries.len() {
        None
    } else if entries[i].0.len() > MAX_WEBHOOK_DATA_KEY_LENGTH {
        Some(Violation::WebhookKeyTooLong)
    } else if entries[i].1.len() > MAX_WEBHOOK_DATA_VALUE_LENGTH {
        Some(Violation::WebhookValueTooLong)
    } else {
        entry_violation_from(entries, i + 1)
    }
}

/// The first rule, in the order of checking, that the staged fields break.
pub open spec fn first_violation(b: BuilderView) -> Option<Violation> {
    if b.from is None {
        Some(Violation::MissingFrom)
    } else if recipient_count(b) == 0 {
        Some(Violation::NoRecipients)
    } else if recipient_count(b) > MAX_RECIPIENTS {
        Some(Violation::TooManyRecipients)
    } else if b.subject is None {
        Some(Violation::MissingSubject)
    } else if b.text_content is None && b.html_content is None && b.template_id is None {
        Some(Violation::MissingContent)
    } else if b.tag is Some && b.tag->0.len() > MAX_TAG_LENGTH {
        Some(Violation::TagTooLong)
    } else if b.webhook_data.len() > MAX_WEBHOOK_DATA_KEYS {
        Some(Violation::TooManyWebhookKeys)
    } else {
        entry_violation_from(b.webhook_data, 0)
    }
}

/// The email that staged fields free of violations freeze into: empty
/// collections become absent.
pub open spec fn frozen(b: BuilderView) -> EmailView {
    EmailView {
        from: b.from->0,
        to: b.to,
        subject: b.subject->0,
        text_content: b.text_content,
        html_content: b.html_content,
        reply_to: b.reply_to,
        cc: absent_if_empty(b.cc),
        bcc: absent_if_empty(b.bcc),
        attachments: absent_if_empty(b.attachments),
        headers: absent_if_empty(b.headers),
        template_id: b.template_id,
        template_data: b.template_data,
        send_time: b.send_time,
        webhook_data: absent_if_empty(b.webhook_data),
        tag: b.tag,
        tracking: b.tracking,
    }
}

/// The outcome of building from the staged fields `b`.
pub open spec fn spec_build(b: BuilderView) -> core::result::Result<EmailView, Violation> {
    match first_violation(b) {
        Some(v) => Err(v),
        None => Ok(frozen(b)),
    }
}

/// Each header key and each webhook data key occurs once among the staged
/// fields; every builder keeps this.
pub open spec fn staged_keys_unique(b: BuilderView) -> bool {
    keys_unique(b.headers) && keys_unique(b.webhook_data)
}

/// The staged fields of a fresh builder: nothing set, every collection empty.
pub open spec fn empty_builder() -> BuilderView {
    BuilderView {
        from: None,
        to: Seq::empty(),
        subject: None,
        text_content: None,
        html_content: None,
        reply_to: None,
        cc: Seq::empty(),
        bcc: Seq::empty(),
        attachments: Seq::empty(),
        headers: Seq::empty(),
        template_id: None,
        template_data: None,
        send_time: None,
        webhook_data: Seq::empty(),
        tag: None,
        tracking: None,
    }
}

/// `r` is what building from the staged fields `b` gives: the frozen email
/// when no rule is broken, else the error of the first broken rule.
pub open spec fn build_outcome(b: BuilderView, r: Result<Email>) -> bool {
    match spec_build(b) {
        Ok(e) => r is Ok && r->Ok_0@ == e,
        Err(v) => r is Err && v.is_reported_by(r->Err_0),
    }
}

/// The staged fields meet every rule that `build` checks, stated directly.
pub open spec fn staged_valid(b: BuilderView) -> bool {
    &&& b.from is Some
    &&& 1 <= recipient_count(b) <= MAX_RECIPIENTS
    &&& b.subject is Some
    &&& (b.text_content is Some || b.html_content is Some || b.template_id is Some)
    &&& (b.tag is Some ==> b.tag->0.len() <= MAX_TAG_LENGTH)
    &&& b.webhook_data.len() <= MAX_WEBHOOK_DATA_KEYS
    &&& forall|i: int|
        0 <= i < b.webhook_data.len() ==> {
            &&& (#[trigger] b.webhook_data[i]).0.len() <= MAX_WEBHOOK_DATA_KEY_LENGTH
            &&& b.webhook_data[i].1.len() <= MAX_WEBHOOK_DATA_VALUE_LENGTH
        }
}

/// What every built email satisfies: at least one and at most the maximum
/// number of recipients, a content channel, the tag and webhook data bounds,
/// and no optional collection present but empty.
pub open spec fn email_valid(e: EmailView) -> bool {
    let cc_len = if e.cc is Some { e.cc->0.len() } else { 0 };
    let bcc_len = if e.bcc is Some { e.bcc->0.len() } else { 0 };
    &&& 1 <= e.to.len() + cc_len + bcc_len <= MAX_RECIPIENTS
    &&& (e.text_content is Some || e.html_content is Some || e.template_id is Some)
    &&& (e.tag is Some ==> e.tag->0.len() <= MAX_TAG_LENGTH)
    &&& (e.cc is Some ==> e.cc->0.len() > 0)
    &&& (e.bcc is Some ==> e.bcc->0.len() > 0)
    &&& (e.attachments is Some ==> e.attachments->0.len() > 0)
    &&& (e.headers is Some ==> e.headers->0.len() > 0)
    &&& (e.webhook_data is Some ==> {
        let w = e.webhook_data->0;
        &&& 0 < w.len() <= MAX_WEBHOOK_DATA_KEYS
        &&& forall|i: int|
            0 <= i < w.len() ==> {
                &&& (#[trigger] w[i]).0.len() <= MAX_WEBHOOK_DATA_KEY_LENGTH
                &&& w[i].1.len() <= MAX_WEBHOOK_DATA_VALUE_LENGTH
            }
    })
}

proof fn lemma_entry_violation_none(entries: Entries, i: int)
    requires
        0 <= i <= entries.len(),
    ensures
        entry_violation_from(entries, i) is None <==> forall|j: int|
            i <= j < entries.len() ==> {
                &&& (#[trigger] entries[j]).0.len() <= MAX_WEBHOOK_DATA_KEY_LENGTH
                &&& entries[j].1.len() <= MAX_WEBHOOK_DATA_VALUE_LENGTH
            },
    decreases entries.len() - i,
{
    if i < entries.len() {
        lemma_entry_violation_none(entries, i + 1);
    }
}

/// Building fails, with a validation error, when `from` or `subject` is
/// missing, when there is no recipient in `to`, `cc` or `bcc`, or when none of
/// `text_content`, `html_content` and `template_id` is set.
pub proof fn lemma_required_fields(b: BuilderView)
    ensures
        b.from is None ==> spec_build(b) is Err,
        b.subject is None ==> spec_build(b) is Err,
        b.to.len() == 0 && b.cc.len() == 0 && b.bcc.len() == 0 ==> spec_build(b) is Err,
        b.text_content is None && b.html_content is None && b.template_id is None
            ==> spec_build(b) is Err,
{
}

/// Building succeeds exactly when the staged fields meet every rule: from and
/// subject set, between one and the maximum number of recipients, a content
/// channel, a tag within bounds, and webhook data within its key count and
/// its key and value lengths.
pub proof fn lemma_build_ok_iff_valid(b: BuilderView)
    ensures
        spec_build(b) is Ok <==> staged_valid(b),
{
    lemma_entry_violation_none(b.webhook_data, 0);
}

/// A built email is valid, and a collection that was staged empty is absent
/// from it rather than present and empty.
pub proof fn lemma_built_email_valid(b: BuilderView)
    requires
        spec_build(b) is Ok,
    ensures
        email_valid(spec_build(b)->Ok_0),
        b.cc.len() == 0 <==> spec_build(b)->Ok_0.cc is None,
        b.bcc.len() == 0 <==> spec_build(b)->Ok_0.bcc is None,
        b.attachments.len() == 0 <==> spec_build(b)->Ok_0.attachments is None,
        b.headers.len() == 0 <==> spec_build(b)->Ok_0.headers is None,
        b.webhook_data.len() == 0 <==> spec_build(b)->Ok_0.webhook_data is None,
{
    lemma_entry_violation_none(b.webhook_data, 0);
}

/// Building from equal staged fields gives structurally identical outcomes:
/// equal emails, or the same validation error.
pub proof fn lemma_build_deterministic(
    b1: BuilderView,
    b2: BuilderView,
    r1: Result<Email>,
    r2: Result<Email>,
)
    requires
        b1 == b2,
        build_outcome(b1, r1),
        build_outcome(b2, r2),
    ensures
        r1 is Ok <==> r2 is Ok,
        r1 is Ok ==> r1->Ok_0@ == r2->Ok_0@,
        r1 is Err ==> r1->Err_0 is ValidationError && r2->Err_0 is ValidationError
            && r1->Err_0->ValidationError_0@ == r2->Err_0->ValidationError_0@,
{
}

/// Builder for constructing [`Email`] instances.
#[derive(Debug)]
pub struct EmailBuilder {
    from: Option<EmailAddress>,
    to: Vec<EmailAddress>,
    subject: Option<String>,
    text_content: Option<String>,
    html_content: Option<String>,
    reply_to: Option<EmailAddress>,
    cc: Vec<EmailAddress>,
    bcc: Vec<EmailAddress>,
    attachments: Vec<Attachment>,
    headers: Vec<(String, String)>,
    template_id: Option<String>,
    template_data: Option<serde_json::Value>,
    send_time: Option<u64>,
    webhook_data: Vec<(String, String)>,
    tag: Option<String>,
    tracking: Option<Tracking>,
}

impl View for EmailBuilder {
    type V = BuilderView;

    closed spec fn view(&self) -> BuilderView {
        BuilderView {
            from: self.from.deep_view(),
            to: self.to.deep_view(),
            subject: self.subject.deep_view(),
            text_content: self.text_content.deep_view(),
            html_content: self.html_content.deep_view(),
            reply_to: self.reply_to.deep_view(),
            cc: self.cc.deep_view(),
            bcc: self.bcc.deep_view(),
            attachments: self.attachments.deep_view(),
            headers: self.headers.deep_view(),
            template_id: self.template_id.deep_view(),
            template_data: self.template_data,
            send_time: self.send_time,
            webhook_data: self.webhook_data.deep_view(),
            tag: self.tag.deep_view(),
            tracking: self.tracking,
        }
    }
}

/// Binds `key` to `value` among the entries, keeping each key once.
fn upsert_entry(entries: &mut Vec<(String, String)>, key: String, value: String)
    requires
        keys_unique(old(entries).deep_view()),
    ensures
        final(entries).deep_view() == upsert(old(entries).deep_view(), key@, value@),
        keys_unique(final(entries).deep_view()),
{
    let ghost e0 = entries.deep_view();
    let mut i: usize = 0;
    while i < entries.len()
        invariant
            i <= entries.len(),
            entries.deep_view() == e0,
            e0 == old(entries).deep_view(),
            keys_unique(e0),
            forall|j: int| 0 <= j < i ==> e0[j].0 != key@,
        decreases entries.len() - i,
    {
        if entries[i].0 == key {
            proof {
                assert(e0[i as int].0 == key@);
                let j = choose|j: int| 0 <= j < e0.len() && e0[j].0 == key@;
                assert(keys_unique(e0));
                assert(e0[j].0 == e0[i as int].0);
                assert(j == i as int);
                assert(upsert(e0, key@, value@) == e0.update(i as int, (key@, value@)));
            }
            entries.set(i, (key, value));
            proof {
                assert(entries.deep_view() =~= e0.update(i as int, (key@, value@)));
            }
            return;
        }
        i = i + 1;
    }
    entries.push((key, value));
    proof {
        assert(entries.deep_view() =~= e0.push((key@, value@)));
    }
}

impl EmailBuilder {
    #[verifier::type_invariant]
    spec fn keys_are_unique(&self) -> bool {
        staged_keys_unique(self@)
    }

    /// Create a new email builder with nothing staged.
    pub fn new() -> (r: Self)
        ensures
            staged_keys_unique(r@),
            r@ == empty_builder(),
    {
        let r = EmailBuilder {
            from: None,
            to: Vec::new(),
            subject: None,
            text_content: None,
            html_content: None,
            reply_to: None,
            cc: Vec::new(),
            bcc: Vec::new(),
            attachments: Vec::new(),
            headers: Vec::new(),
            template_id: None,
            template_data: None,
            send_time: None,
            webhook_data: Vec::new(),
            tag: None,
            tracking: None,
        };
        proof {
            assert(r@.to =~= Seq::empty());
            assert(r@.cc =~= Seq::empty());
            assert(r@.bcc =~= Seq::empty());
            assert(r@.attachments =~= Seq::empty());
            assert(r@.headers =~= Seq::empty());
            assert(r@.webhook_data =~= Seq::empty());
        }
        r
    }


    /// Set the sender email address.
    pub fn from(self, email: &str, name: Option<&str>) -> (r: Self)
        ensures
            staged_keys_unique(r@),
            r@ == (BuilderView {
                from: Some(AddressView { email: email@, name: opt_str_view(name) }),
                ..self@
            }),
    {
        proof {
            use_type_invariant(&self);
        }
        EmailBuilder { from: Some(EmailAddress::from_parts(email, name)), ..self }
    }

    /// Add a primary recipient.
    pub fn to(self, email: &str, name: Option<&str>) -> (r: Self)
        ensures
            staged_keys_unique(r@),
            r@ == (BuilderView {
                to: self@.to.push(AddressView { email: email@, name: opt_str_view(name) }),
                ..self@
            }),
    {
        proof {
            use_type_invariant(&self);
        }
        let ghost old_view = self@;
        let mut to = self.to;
        to.push(EmailAddress::from_parts(email, name));
        let r = EmailBuilder { to, ..self };
        proof {
            assert(r@.to =~= old_view.to.push(
                AddressView { email: email@, name: opt_str_view(name) },
            ));
        }
        r
    }

    /// Add several primary recipients, in order.
    pub fn to_many(self, recipients: Vec<EmailAddress>) -> (r: Self)
        ensures
            staged_keys_unique(r@),
            r@ == (BuilderView { to: self@.to + recipients.deep_view(), ..self@ }),
    {
        proof {
            use_type_invariant(&self);
        }
        let ghost old_view = self@;
        let mut to = self.to;
        let mut recipients = recipients;
        let ghost added = recipients.deep_view();
        to.append(&mut recipients);
        let r = EmailBuilder { to, ..self };
        proof {
            assert(r@.to =~= old_view.to + added);
        }
        r
    }

    /// Set the email subject.
    pub fn subject(self, subject: &str) -> (r: Self)
        ensures
            staged_keys_unique(r@),
            r@ == (BuilderView { subject: Some(subject@), ..self@ }),
    {
        proof {
            use_type_invariant(&self);
        }
        EmailBuilder { subject: Some(subject.to_owned()), ..self }
    }

    /// Set the plain text content.
    pub fn text_content(self, content: &str) -> (r: Self)
        ensures
            staged_keys_unique(r@),
            r@ == (BuilderView { text_content: Some(content@), ..self@ }),
    {
        proof {
            use_type_invariant(&self);
        }
        EmailBuilder { text_content: Some(content.to_owned()), ..self }
    }

    /// Set the HTML content.
    pub fn html_content(self, content: &str) -> (r: Self)
        ensures
            staged_keys_unique(r@),
            r@ == (BuilderView { html_content: Some(content@), ..self@ }),
    {
        proof {
            use_type_invariant(&self);
        }
        EmailBuilder { html_content: Some(content.to_owned()), ..self }
    }

    /// Set the reply-to address.
    pub fn reply_to(self, email: &str, name: Option<&str>) -> (r: Self)
        ensures
            staged_keys_unique(r@),
            r@ == (BuilderView {
                reply_to: Some(AddressView { email: email@, name: opt_str_view(name) }),
                ..self@
            }),
    {
        proof {
            use_type_invariant(&self);
        }
        EmailBuilder { reply_to: Some(EmailAddress::from_parts(email, name)), ..self }
    }

    /// Add a CC recipient.
    pub fn cc(self, email: &str, name: Option<&str>) -> (r: Self)
        ensures
            staged_keys_unique(r@),
            r@ == (BuilderView {
                cc: self@.cc.push(AddressView { email: email@, name: opt_str_view(name) }),
                ..self@
            }),
    {
        proof {
            use_type_invariant(&self);
        }
        let ghost old_view = self@;
        let mut cc = self.cc;
        cc.push(EmailAddress::from_parts(email, name));
        let r = EmailBuilder { cc, ..self };
        proof {
            assert(r@.cc =~= old_view.cc.push(
                AddressView { email: email@, name: opt_str_view(name) },
            ));
        }
        r
    }

    /// Add a BCC recipient.
    pub fn bcc(self, email: &str, name: Option<&str>) -> (r: Self)
        ensures
            staged_keys_unique(r@),
            r@ == (BuilderView {
                bcc: self@.bcc.push(AddressView { email: email@, name: opt_str_view(name) }),
                ..self@
            }),
    {
        proof {
            use_type_invariant(&self);
        }
        let ghost old_view = self@;
        let mut bcc = self.bcc;
        bcc.push(EmailAddress::from_parts(email, name));
        let r = EmailBuilder { bcc, ..self };
        proof {
            assert(r@.bcc =~= old_view.bcc.push(
                AddressView { email: email@, name: opt_str_view(name) },
            ));
        }
        r
    }

    /// Add an attachment.
    pub fn attachment(self, attachment: Attachment) -> (r: Self)
        ensures
            staged_keys_unique(r@),
            r@ == (BuilderView { attachments: self@.attachments.push(attachment@), ..self@ }),
    {
        proof {
            use_type_invariant(&self);
        }
        let ghost old_view = self@;
        let ghost added = attachment@;
        let mut attachments = self.attachments;
        attachments.push(attachment);
        let r = EmailBuilder { attachments, ..self };
        proof {
            assert(r@.attachments =~= old_view.attachments.push(added));
        }
        r
    }
    /// Add a custom header; a later value for the same key replaces the earlier one.
    pub fn header(self, key: &str, value: &str) -> (r: Self)
        ensures
            staged_keys_unique(r@),
            r@ == (BuilderView { headers: upsert(self@.headers, key@, value@), ..self@ }),
    {
        proof {
            use_type_invariant(&self);
        }
        let mut headers = self.headers;
        upsert_entry(&mut headers, key.to_owned(), value.to_owned());
        EmailBuilder { headers, ..self }
    }
    /// Set the template ID.
    pub fn template_id(self, id: &str) -> (r: Self)
        ensures
            staged_keys_unique(r@),
            r@ == (BuilderView { template_id: Some(id@), ..self@ }),
    {
        proof {
            use_type_invariant(&self);
        }
        EmailBuilder { template_id: Some(id.to_owned()), ..self }
    }

    /// Set the template data.
    pub fn template_data(self, data: serde_json::Value) -> (r: Self)
        ensures
            staged_keys_unique(r@),
            r@ == (BuilderView { template_data: Some(data), ..self@ }),
    {
        proof {
            use_type_invariant(&self);
        }
        EmailBuilder { template_data: Some(data), ..self }
    }

    /// Set the scheduled send time (Unix timestamp).
    pub fn send_time(self, timestamp: u64) -> (r: Self)
        ensures
            staged_keys_unique(r@),
            r@ == (BuilderView { send_time: Some(timestamp), ..self@ }),
    {
        proof {
            use_type_invariant(&self);
        }
        EmailBuilder { send_time: Some(timestamp), ..self }
    }

    /// Add webhook data; a later value for the same key replaces the earlier one.
    pub fn webhook_data(self, key: &str, value: &str) -> (r: Self)
        ensures
            staged_keys_unique(r@),
            r@ == (BuilderView { webhook_data: upsert(self@.webhook_data, key@, value@), ..self@ }),
    {
        proof {
            use_type_invariant(&self);
        }
        let mut webhook_data = self.webhook_data;
        upsert_entry(&mut webhook_data, key.to_owned(), value.to_owned());
        EmailBuilder { webhook_data, ..self }
    }

    /// Set the email tag.
    pub fn tag(self, tag: &str) -> (r: Self)
        ensures
            staged_keys_unique(r@),
            r@ == (BuilderView { tag: Some(tag@), ..self@ }),
    {
        proof {
            use_type_invariant(&self);
        }
        EmailBuilder { tag: Some(tag.to_owned()), ..self }
    }

    /// Set tracking settings.
    pub fn tracking(self, tracking: Tracking) -> (r: Self)
        ensures
            staged_keys_unique(r@),
            r@ == (BuilderView { tracking: Some(tracking), ..self@ }),
    {
        proof {
            use_type_invariant(&self);
        }
        EmailBuilder { tracking: Some(tracking), ..self }
    }
    /// Validate the staged fields and freeze them into an [`Email`].
    ///
    /// The rules are checked in a fixed order and the first one broken is
    /// reported. Empty collections become absent fields.
    pub fn build(self) -> (r: Result<Email>)
        ensures
            build_outcome(self@, r),
            r is Ok && r->Ok_0@.headers is Some ==> keys_unique(r->Ok_0@.headers->0),
            r is Ok && r->Ok_0@.webhook_data is Some ==> keys_unique(r->Ok_0@.webhook_data->0),
    {
        proof {
            use_type_invariant(&self);
        }
        let ghost b = self@;
        let from = match self.from {
            Some(f) => f,
            None => {
                return Err(LanefulError::ValidationError(Violation::MissingFrom.message()));
            },
        };
        let recipient_count: u128 = self.to.len() as u128 + self.cc.len() as u128
            + self.bcc.len() as u128;
        if recipient_count == 0 {
            return Err(LanefulError::ValidationError(Violation::NoRecipients.message()));
        }
        if recipient_count > MAX_RECIPIENTS as u128 {
            return Err(LanefulError::ValidationError(Violation::TooManyRecipients.message()));
        }
        let subject = match self.subject {
            Some(s) => s,
            None => {
                return Err(LanefulError::ValidationError(Violation::MissingSubject.message()));
            },
        };
        if self.text_content.is_none() && self.html_content.is_none()
            && self.template_id.is_none() {
            return Err(LanefulError::ValidationError(Violation::MissingContent.message()));
        }
        if let Some(tag) = &self.tag {
            if tag.as_str().unicode_len() > MAX_TAG_LENGTH {
                return Err(LanefulError::ValidationError(Violation::TagTooLong.message()));
            }
        }
        if self.webhook_data.len() > MAX_WEBHOOK_DATA_KEYS {
            return Err(LanefulError::ValidationError(Violation::TooManyWebhookKeys.message()));
        }
        assert(first_violation(b) == entry_violation_from(b.webhook_data, 0));
        let mut i: usize = 0;
        while i < self.webhook_data.len()
            invariant
                i <= self.webhook_data.len(),
                b == self@,
                first_violation(b) == entry_violation_from(b.webhook_data, 0),
                b.webhook_data == self.webhook_data.deep_view(),
                entry_violation_from(b.webhook_data, 0) == entry_violation_from(
                    b.webhook_data,
                    i as int,
                ),
            decreases self.webhook_data.len() - i,
        {
            let entry = &self.webhook_data[i];
            assert(b.webhook_data[i as int] == (entry.0@, entry.1@));
            if entry.0.as_str().unicode_len() > MAX_WEBHOOK_DATA_KEY_LENGTH {
                return Err(LanefulError::ValidationError(Violation::WebhookKeyTooLong.message()));
            }
            if entry.1.as_str().unicode_len() > MAX_WEBHOOK_DATA_VALUE_LENGTH {
                return Err(
                    LanefulError::ValidationError(Violation::WebhookValueTooLong.message()),
                );
            }
            i = i + 1;
        }
        let cc = if self.cc.is_empty() {
            None
        } else {
            Some(self.cc)
        };
        let bcc = if self.bcc.is_empty() {
            None
        } else {
            Some(self.bcc)
        };
        let attachments = if self.attachments.is_empty() {
            None
        } else {
            Some(self.attachments)
        };
        let headers = if self.headers.is_empty() {
            None
        } else {
            Some(self.headers)
        };
        let webhook_data = if self.webhook_data.is_empty() {
            None
        } else {
            Some(self.webhook_data)
        };
        let email = Email {
            from,
            to: self.to,
            subject,
            text_content: self.text_content,
            html_content: self.html_content,
            reply_to: self.reply_to,
            cc,
            bcc,
            attachments,
            headers,
            template_id: self.template_id,
            template_data: self.template_data,
            send_time: self.send_time,
            webhook_data,
            tag: self.tag,
            tracking: self.tracking,
        };
        proof {
            assert(email@ == frozen(b));
        }
        Ok(email)
    }
}

impl Default for EmailBuilder {
    fn default() -> (r: Self)
        ensures
            staged_keys_unique(r@),
            r@ == empty_builder(),
    {
        EmailBuilder::new()
    }
}

impl Email {
    /// Create a new email builder.
    pub fn builder() -> (r: EmailBuilder)
        ensures
            staged_keys_unique(r@),
            r@ == empty_builder(),
    {
        EmailBuilder::new()
    }
}

} // verus!
