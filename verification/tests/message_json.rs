use sendgrid_rs::{AsmBuilder, ContactBuilder, MailSettingsBuilder, MessageBuilder,
    PersonalizationBuilder};

#[test]
fn it_works() {
    let m = MessageBuilder::new(
        ContactBuilder::new("from@from.com").name("from").build(),
        "subject",
    )
    .build();
    println!("{}", m.to_json());
}

#[test]
fn minimal_message_renders_required_fields_only() {
    let m = MessageBuilder::new(
        ContactBuilder::new("from@from.com").name("from").build(),
        "subject",
    )
    .build();
    assert_eq!(
        m.to_json(),
        "{\"from\":{\"email\":\"from@from.com\",\"name\":\"from\"},\"subject\":\"subject\"}"
    );
}

#[test]
fn minimal_contact_omits_name() {
    let m = MessageBuilder::new(ContactBuilder::new("a@b.c").build(), "s").build();
    assert_eq!(m.to_json(), "{\"from\":{\"email\":\"a@b.c\"},\"subject\":\"s\"}");
}

#[test]
fn end_to_end_scenario() {
    let json = MessageBuilder::new(
        ContactBuilder::new("from@example.com").name("from").build(),
        "Subject Line!",
    )
    .template_id("SENDGRID-TEMPLATE-ID")
    .mail_settings(MailSettingsBuilder::default().sandbox_mode().build())
    .personalization(
        PersonalizationBuilder::default()
            .to(ContactBuilder::new("to@example.com").name("to").build())
            .build(),
    )
    .build()
    .to_json();
    assert!(json.contains("\"from\":{\"email\":\"from@example.com\",\"name\":\"from\"}"));
    assert!(json.contains("\"subject\":\"Subject Line!\""));
    assert!(json.contains(
        "\"personalizations\":[{\"to\":[{\"email\":\"to@example.com\",\"name\":\"to\"}]}]"
    ));
    assert!(json.contains("\"template_id\":\"SENDGRID-TEMPLATE-ID\""));
    assert!(json.contains("\"mail_settings\":{\"sandbox_mode\":{\"enable\":true}}"));
    assert!(!json.contains("reply_to"));
    assert!(!json.contains("\"content\""));
    assert!(!json.contains("attachments"));
    assert!(!json.contains("sections"));
    assert!(!json.contains("headers"));
    assert!(!json.contains("categories"));
    assert!(!json.contains("custom_args"));
    assert!(!json.contains("send_at"));
    assert!(!json.contains("batch_id"));
    assert!(!json.contains("\"asm\""));
    assert!(!json.contains("ip_pool_name"));
    assert!(!json.contains("tracking_settings"));
}

#[test]
fn building_twice_gives_identical_text() {
    let build = || {
        MessageBuilder::new(
            ContactBuilder::new("from@example.com").name("from").build(),
            "Subject Line!",
        )
        .category("marketing")
        .category("transactional")
        .section("%name%", "Someone")
        .send_at(1_600_000_000)
        .personalization(
            PersonalizationBuilder::default()
                .to(ContactBuilder::new("to@example.com").build())
                .build(),
        )
        .build()
        .to_json()
    };
    assert_eq!(build(), build());
}

#[test]
fn full_message_field_order_is_declaration_order() {
    let json = MessageBuilder::new(ContactBuilder::new("f@x.io").build(), "s")
        .personalization(PersonalizationBuilder::default().build())
        .reply_to(ContactBuilder::new("r@x.io").build())
        .template_id("T")
        .section("k", "v")
        .header("H", "1")
        .category("c1")
        .custom_arg("a", "b")
        .send_at(7)
        .batch_id("B")
        .asm_group(AsmBuilder::new(3).build())
        .ip_pool_name("pool")
        .build()
        .to_json();
    assert_eq!(
        json,
        "{\"personalizations\":[{}],\"from\":{\"email\":\"f@x.io\"},\"reply_to\":{\"email\":\"r@x.io\"},\"subject\":\"s\",\"template_id\":\"T\",\"sections\":{\"k\":\"v\"},\"headers\":{\"H\":\"1\"},\"categories\":[\"c1\"],\"custom_args\":{\"a\":\"b\"},\"send_at\":7,\"batch_id\":\"B\",\"asm\":{\"group_id\":3},\"ip_pool_name\":\"pool\"}"
    );
}

#[test]
fn numbers_render_as_json_numbers() {
    let json = MessageBuilder::new(ContactBuilder::new("f@x.io").build(), "s")
        .send_at(-2147483648)
        .asm_group(AsmBuilder::new(2147483647).group_to_display(-5).group_to_display(0).build())
        .build()
        .to_json();
    assert!(json.contains("\"send_at\":-2147483648"));
    assert!(json.contains("\"asm\":{\"group_id\":2147483647,\"groups_to_display\":[-5,0]}"));
}

#[test]
fn content_block_field_name_exception() {
    let json = MessageBuilder::new(ContactBuilder::new("f@x.io").build(), "s")
        .content(sendgrid_rs::Content::new("text/plain", "hello"))
        .build()
        .to_json();
    assert!(json.contains("\"content\":[{\"type\":\"text/plain\",\"value\":\"hello\"}]"));
    assert!(!json.contains("c_type"));
}

#[test]
fn content_blocks_keep_order() {
    let json = MessageBuilder::new(ContactBuilder::new("f@x.io").build(), "s")
        .content(sendgrid_rs::Content::new("text/plain", "plain body"))
        .content(sendgrid_rs::Content::new("text/html", "<p>html body</p>"))
        .build()
        .to_json();
    assert!(json.contains(
        "\"content\":[{\"type\":\"text/plain\",\"value\":\"plain body\"},{\"type\":\"text/html\",\"value\":\"<p>html body</p>\"}]"
    ));
}

#[test]
fn attachments_render_with_wire_type_key() {
    let json = MessageBuilder::new(ContactBuilder::new("f@x.io").build(), "s")
        .attachment(
            sendgrid_rs::AttachmentBuilder::new("SGVsbG8gV29ybGQh", "file.txt")
                .attachment_type("text/plain")
                .disposition("inline")
                .content_id("cid1")
                .build(),
        )
        .build()
        .to_json();
    assert!(json.contains(
        "\"attachments\":[{\"content\":\"SGVsbG8gV29ybGQh\",\"type\":\"text/plain\",\"filename\":\"file.txt\",\"disposition\":\"inline\",\"content_id\":\"cid1\"}]"
    ));
}

#[test]
fn minimal_attachment_omits_optional_fields() {
    let json = MessageBuilder::new(ContactBuilder::new("f@x.io").build(), "s")
        .attachment(sendgrid_rs::AttachmentBuilder::new("QUJD", "a.bin").build())
        .build()
        .to_json();
    assert!(json.contains("\"attachments\":[{\"content\":\"QUJD\",\"filename\":\"a.bin\"}]"));
    assert!(!json.contains("\"type\""));
    assert!(!json.contains("disposition"));
    assert!(!json.contains("content_id"));
}

#[test]
fn personalizations_replaces_the_list() {
    let first = PersonalizationBuilder::default()
        .to(ContactBuilder::new("one@x.io").build())
        .build();
    let json = MessageBuilder::new(ContactBuilder::new("f@x.io").build(), "s")
        .personalization(first)
        .personalizations(vec![
            PersonalizationBuilder::default().to(ContactBuilder::new("two@x.io").build()).build(),
        ])
        .build()
        .to_json();
    assert!(!json.contains("one@x.io"));
    assert!(json.contains("\"personalizations\":[{\"to\":[{\"email\":\"two@x.io\"}]}]"));
}
