use laneful_rs::Attachment;
use laneful_rs::Email;
use laneful_rs::EmailAddress;
use laneful_rs::EmailBuilder;
use laneful_rs::LanefulError;
use laneful_rs::Tracking;
use laneful_rs::Violation;

fn base() -> EmailBuilder {
    Email::builder()
        .from("a@x.com", None)
        .to("b@x.com", None)
        .subject("Hi")
        .text_content("Hello")
}

fn validation_message(r: laneful_rs::Result<Email>) -> String {
    match r {
        Err(LanefulError::ValidationError(m)) => m,
        Err(e) => panic!("unexpected error {:?}", e),
        Ok(e) => panic!("unexpected success {:?}", e),
    }
}

#[test]
fn example_scenario_builds_with_only_set_fields() {
    let email = base().build().unwrap();
    assert_eq!(email.from.email, "a@x.com");
    assert!(email.from.name.is_none());
    assert_eq!(email.to.len(), 1);
    assert_eq!(email.to[0].email, "b@x.com");
    assert_eq!(email.subject, "Hi");
    assert_eq!(email.text_content.as_deref(), Some("Hello"));
    assert!(email.html_content.is_none());
    assert!(email.reply_to.is_none());
    assert!(email.cc.is_none());
    assert!(email.bcc.is_none());
    assert!(email.attachments.is_none());
    assert!(email.headers.is_none());
    assert!(email.template_id.is_none());
    assert!(email.template_data.is_none());
    assert!(email.send_time.is_none());
    assert!(email.webhook_data.is_none());
    assert!(email.tag.is_none());
    assert!(email.tracking.is_none());
}

#[test]
fn missing_from_fails() {
    let r = Email::builder().to("b@x.com", None).subject("Hi").text_content("Hello").build();
    assert_eq!(validation_message(r), "from address is required");
}

#[test]
fn missing_subject_fails() {
    let r = Email::builder().from("a@x.com", None).to("b@x.com", None).text_content("Hello").build();
    assert_eq!(validation_message(r), "subject is required");
}

#[test]
fn missing_recipients_fails() {
    let r = Email::builder().from("a@x.com", None).subject("Hi").text_content("Hello").build();
    assert_eq!(validation_message(r), "at least one recipient (to, cc, or bcc) is required");
}

#[test]
fn missing_content_fails() {
    let r = Email::builder().from("a@x.com", None).to("b@x.com", None).subject("Hi").build();
    assert_eq!(
        validation_message(r),
        "either text_content, html_content, or template_id is required"
    );
}

#[test]
fn first_broken_rule_is_reported() {
    let r = Email::builder().build();
    assert_eq!(validation_message(r), "from address is required");
    let r = Email::builder().from("a@x.com", None).build();
    assert_eq!(validation_message(r), "at least one recipient (to, cc, or bcc) is required");
}

#[test]
fn html_content_or_template_id_alone_is_enough() {
    let html = Email::builder()
        .from("a@x.com", None)
        .to("b@x.com", None)
        .subject("Hi")
        .html_content("<p>Hello</p>")
        .build()
        .unwrap();
    assert_eq!(html.html_content.as_deref(), Some("<p>Hello</p>"));
    let templ = Email::builder()
        .from("a@x.com", None)
        .to("b@x.com", None)
        .subject("Hi")
        .template_id("welcome")
        .build()
        .unwrap();
    assert_eq!(templ.template_id.as_deref(), Some("welcome"));
}

#[test]
fn cc_or_bcc_alone_count_as_recipients() {
    let cc_only = Email::builder()
        .from("a@x.com", None)
        .cc("c@x.com", Some("C"))
        .subject("Hi")
        .text_content("Hello")
        .build()
        .unwrap();
    assert!(cc_only.to.is_empty());
    assert_eq!(cc_only.cc.as_ref().unwrap()[0].name.as_deref(), Some("C"));
    let bcc_only = Email::builder()
        .from("a@x.com", None)
        .bcc("d@x.com", None)
        .subject("Hi")
        .text_content("Hello")
        .build()
        .unwrap();
    assert_eq!(bcc_only.bcc.unwrap().len(), 1);
}

fn with_recipients(to: usize, cc: usize, bcc: usize) -> EmailBuilder {
    let mut b = Email::builder().from("a@x.com", None).subject("Hi").text_content("Hello");
    for i in 0..to {
        b = b.to(&format!("to{}@x.com", i), None);
    }
    for i in 0..cc {
        b = b.cc(&format!("cc{}@x.com", i), None);
    }
    for i in 0..bcc {
        b = b.bcc(&format!("bcc{}@x.com", i), None);
    }
    b
}

#[test]
fn exactly_1000_recipients_builds() {
    let email = with_recipients(400, 300, 300).build().unwrap();
    assert_eq!(email.to.len(), 400);
    assert_eq!(email.cc.unwrap().len(), 300);
    assert_eq!(email.bcc.unwrap().len(), 300);
}

#[test]
fn recipients_1001_fails() {
    let r = with_recipients(400, 300, 301).build();
    assert_eq!(validation_message(r), "recipient limit exceeded (max 1000 across to/cc/bcc)");
    let r = with_recipients(1001, 0, 0).build();
    assert_eq!(validation_message(r), "recipient limit exceeded (max 1000 across to/cc/bcc)");
}

#[test]
fn tag_of_100_characters_builds() {
    let tag = "t".repeat(100);
    let email = base().tag(&tag).build().unwrap();
    assert_eq!(email.tag.unwrap(), tag);
}

#[test]
fn tag_of_101_characters_fails() {
    let r = base().tag(&"t".repeat(101)).build();
    assert_eq!(validation_message(r), "tag length exceeds 100 characters");
}

#[test]
fn tag_length_counts_characters() {
    let email = base().tag(&"é".repeat(100)).build();
    assert!(email.is_ok());
    let r = base().tag(&"é".repeat(101)).build();
    assert_eq!(validation_message(r), "tag length exceeds 100 characters");
}

#[test]
fn webhook_data_20_keys_builds() {
    let mut b = base();
    for i in 0..20 {
        b = b.webhook_data(&format!("k{}", i), "v");
    }
    let email = b.build().unwrap();
    assert_eq!(email.webhook_data.unwrap().len(), 20);
}

#[test]
fn webhook_data_21_keys_fails() {
    let mut b = base();
    for i in 0..21 {
        b = b.webhook_data(&format!("k{}", i), "v");
    }
    assert_eq!(validation_message(b.build()), "webhook_data exceeds 20 keys");
}

#[test]
fn webhook_data_key_length_bound() {
    assert!(base().webhook_data(&"k".repeat(50), "v").build().is_ok());
    let r = base().webhook_data(&"k".repeat(51), "v").build();
    assert_eq!(validation_message(r), "webhook_data key length exceeds 50 characters");
}

#[test]
fn webhook_data_value_length_bound() {
    assert!(base().webhook_data("k", &"v".repeat(100)).build().is_ok());
    let r = base().webhook_data("k", &"v".repeat(101)).build();
    assert_eq!(validation_message(r), "webhook_data value length exceeds 100 characters");
}

#[test]
fn webhook_data_key_checked_before_value_of_same_entry() {
    let r = base().webhook_data(&"k".repeat(51), &"v".repeat(101)).build();
    assert_eq!(validation_message(r), "webhook_data key length exceeds 50 characters");
}

#[test]
fn webhook_data_last_write_wins() {
    let email = base().webhook_data("a", "1").webhook_data("b", "2").webhook_data("a", "3").build().unwrap();
    let data = email.webhook_data.unwrap();
    assert_eq!(data, vec![("a".to_string(), "3".to_string()), ("b".to_string(), "2".to_string())]);
}

#[test]
fn header_last_write_wins() {
    let email = base().header("X-A", "1").header("X-A", "2").build().unwrap();
    assert_eq!(email.headers.unwrap(), vec![("X-A".to_string(), "2".to_string())]);
}

#[test]
fn empty_collections_are_absent() {
    let email = base().build().unwrap();
    assert!(email.cc.is_none());
    assert!(email.bcc.is_none());
    assert!(email.attachments.is_none());
    assert!(email.headers.is_none());
    assert!(email.webhook_data.is_none());
}

#[test]
fn build_twice_gives_identical_emails() {
    let make = || {
        base()
            .cc("c@x.com", Some("C"))
            .header("X-A", "1")
            .webhook_data("k", "v")
            .tag("t")
            .send_time(1_700_000_000)
            .build()
            .unwrap()
    };
    assert_eq!(format!("{:?}", make()), format!("{:?}", make()));
}

#[test]
fn every_field_carries_through() {
    let tracking = Tracking { opens: Some(true), clicks: Some(false), unsubscribes: None, unsubscribe_group_id: Some(7) };
    let email = base()
        .from("s@x.com", Some("Sender"))
        .to_many(vec![EmailAddress::new("m@x.com"), EmailAddress::with_name("n@x.com", "N")])
        .reply_to("r@x.com", Some("R"))
        .attachment(Attachment::new("a.txt", "aGk=", "text/plain"))
        .template_id("tpl")
        .template_data(serde_json::Value::String("data".to_string()))
        .send_time(42)
        .tracking(tracking)
        .build()
        .unwrap();
    assert_eq!(email.from.email, "s@x.com");
    assert_eq!(email.from.name.as_deref(), Some("Sender"));
    let to: Vec<&str> = email.to.iter().map(|a| a.email.as_str()).collect();
    assert_eq!(to, vec!["b@x.com", "m@x.com", "n@x.com"]);
    assert_eq!(email.to[2].name.as_deref(), Some("N"));
    assert_eq!(email.reply_to.unwrap().name.as_deref(), Some("R"));
    let attachments = email.attachments.unwrap();
    assert_eq!(attachments[0].file_name, "a.txt");
    assert_eq!(attachments[0].content, "aGk=");
    assert_eq!(attachments[0].content_type, "text/plain");
    assert_eq!(email.template_id.as_deref(), Some("tpl"));
    assert_eq!(email.template_data, Some(serde_json::Value::String("data".to_string())));
    assert_eq!(email.send_time, Some(42));
    assert_eq!(email.tracking, Some(tracking));
}

#[test]
fn default_builder_is_empty() {
    let r = EmailBuilder::default().build();
    assert_eq!(validation_message(r), "from address is required");
}

#[test]
fn violation_messages() {
    assert_eq!(Violation::MissingFrom.message(), "from address is required");
    assert_eq!(Violation::TooManyWebhookKeys.message(), "webhook_data exceeds 20 keys");
    assert_eq!(Violation::WebhookValueTooLong.message(), "webhook_data value length exceeds 100 characters");
}
