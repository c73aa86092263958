//! Holds the rendered documents against an independent JSON parser: the
//! output must be well-formed JSON with exactly the expected structure.

use sendgrid_rs::{AsmBuilder, ContactBuilder, MailSettingsBuilder, MessageBuilder,
    PersonalizationBuilder, TrackingSettingsBuilder};
use serde_json::Value;

#[test]
fn output_parses_as_json() {
    let json = MessageBuilder::new(
        ContactBuilder::new("from@example.com").name("from \"quoted\"").build(),
        "Subject\nwith newline",
    )
    .personalization(
        PersonalizationBuilder::default()
            .to(ContactBuilder::new("to@example.com").build())
            .header("X-Mark", "1")
            .build(),
    )
    .category("a")
    .category("b")
    .asm_group(AsmBuilder::new(1).group_to_display(2).group_to_display(3).build())
    .mail_settings(MailSettingsBuilder::default().sandbox_mode().spam_check(Some(7), None).build())
    .tracking_settings(TrackingSettingsBuilder::default().click_tracking(true).build())
    .build()
    .to_json();
    let v: Value = serde_json::from_str(&json).unwrap();
    assert_eq!(v["from"]["email"], Value::String(String::from("from@example.com")));
    assert_eq!(v["from"]["name"], Value::String(String::from("from \"quoted\"")));
    assert_eq!(v["subject"], Value::String(String::from("Subject\nwith newline")));
    assert_eq!(v["personalizations"][0]["to"][0]["email"],
        Value::String(String::from("to@example.com")));
    assert_eq!(v["personalizations"][0]["headers"]["X-Mark"], Value::String(String::from("1")));
    assert_eq!(v["categories"][0], Value::String(String::from("a")));
    assert_eq!(v["categories"][1], Value::String(String::from("b")));
    assert_eq!(v["asm"]["group_id"], Value::Number(serde_json::Number::from(1)));
    assert_eq!(v["asm"]["groups_to_display"][1], Value::Number(serde_json::Number::from(3)));
    assert_eq!(v["mail_settings"]["sandbox_mode"]["enable"], Value::Bool(true));
    assert_eq!(v["mail_settings"]["spam_check"]["threshold"],
        Value::Number(serde_json::Number::from(7)));
    assert_eq!(v["tracking_settings"]["click_tracking"]["enable"], Value::Bool(true));
    assert_eq!(v["tracking_settings"]["click_tracking"]["enable_text"], Value::Bool(true));
}

#[test]
fn omitted_fields_are_absent_not_null() {
    let json = MessageBuilder::new(ContactBuilder::new("f@x.io").build(), "s").build().to_json();
    let v: Value = serde_json::from_str(&json).unwrap();
    let obj = v.as_object().unwrap();
    assert_eq!(obj.len(), 2);
    assert!(obj.contains_key("from"));
    assert!(obj.contains_key("subject"));
    assert!(v["from"].as_object().unwrap().len() == 1);
}

#[test]
fn numbers_survive_a_round_trip() {
    let json = MessageBuilder::new(ContactBuilder::new("f@x.io").build(), "s")
        .send_at(-42)
        .build()
        .to_json();
    let v: Value = serde_json::from_str(&json).unwrap();
    assert_eq!(v["send_at"], Value::Number(serde_json::Number::from(-42)));
}
