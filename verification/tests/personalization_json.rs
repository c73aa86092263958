use sendgrid_rs::kv::KvPairs;
use sendgrid_rs::{ContactBuilder, MessageBuilder, PersonalizationBuilder};

fn wrap(p: sendgrid_rs::personalization::Personalization) -> String {
    MessageBuilder::new(ContactBuilder::new("f@x.io").build(), "s")
        .personalization(p)
        .build()
        .to_json()
}

#[test]
fn default_personalization_renders_empty() {
    let json = wrap(PersonalizationBuilder::default().build());
    assert!(json.contains("\"personalizations\":[{}]"));
}

#[test]
fn to_contacts_keep_insertion_order() {
    let json = wrap(
        PersonalizationBuilder::default()
            .to(ContactBuilder::new("a@x.io").name("A").build())
            .to(ContactBuilder::new("b@x.io").name("B").build())
            .to(ContactBuilder::new("c@x.io").name("C").build())
            .build(),
    );
    assert!(json.contains(
        "\"to\":[{\"email\":\"a@x.io\",\"name\":\"A\"},{\"email\":\"b@x.io\",\"name\":\"B\"},{\"email\":\"c@x.io\",\"name\":\"C\"}]"
    ));
}

#[test]
fn recipient_lists_render_in_declaration_order() {
    let json = wrap(
        PersonalizationBuilder::default()
            .bcc(ContactBuilder::new("hidden@x.io").build())
            .cc(ContactBuilder::new("copy@x.io").build())
            .to(ContactBuilder::new("main@x.io").build())
            .build(),
    );
    assert!(json.contains(
        "\"to\":[{\"email\":\"main@x.io\"}],\"cc\":[{\"email\":\"copy@x.io\"}],\"bcc\":[{\"email\":\"hidden@x.io\"}]"
    ));
}

#[test]
fn subject_override_and_send_at() {
    let json = wrap(
        PersonalizationBuilder::default().subject("Per-recipient subject").send_at(3600).build(),
    );
    assert!(json.contains("\"subject\":\"Per-recipient subject\""));
    assert!(json.contains("\"send_at\":3600"));
}

#[test]
fn single_entry_mappings() {
    let json = wrap(
        PersonalizationBuilder::default()
            .header("X-Mark", "1")
            .substitution("%name%", "Someone")
            .dynamic_template_datum("city", "Paris")
            .custom_arg("arg_name", "arg_value")
            .build(),
    );
    assert!(json.contains("\"headers\":{\"X-Mark\":\"1\"}"));
    assert!(json.contains("\"substitutions\":{\"%name%\":\"Someone\"}"));
    assert!(json.contains("\"dynamic_template_data\":{\"city\":\"Paris\"}"));
    assert!(json.contains("\"custom_args\":{\"arg_name\":\"arg_value\"}"));
}

#[test]
fn headers_replaces_the_mapping_wholesale() {
    let mut data = KvPairs::new();
    data.insert("X-New", "yes");
    let json = wrap(
        PersonalizationBuilder::default().header("X-Old", "gone").headers(data).build(),
    );
    assert!(!json.contains("X-Old"));
    assert!(json.contains("\"headers\":{\"X-New\":\"yes\"}"));
}

#[test]
fn dynamic_template_data_replaces_the_mapping_wholesale() {
    let mut data = KvPairs::new();
    data.insert("a", "1");
    data.insert("b", "2");
    let json = wrap(
        PersonalizationBuilder::default()
            .dynamic_template_datum("old", "x")
            .dynamic_template_data(data)
            .build(),
    );
    assert!(!json.contains("\"old\""));
    assert!(json.contains("\"dynamic_template_data\":{\"a\":\"1\",\"b\":\"2\"}"));
}

#[test]
fn inserting_a_key_twice_keeps_one_entry_with_the_last_value() {
    let json = wrap(
        PersonalizationBuilder::default()
            .header("K", "first")
            .header("Other", "kept")
            .header("K", "second")
            .build(),
    );
    assert!(json.contains("\"headers\":{\"K\":\"second\",\"Other\":\"kept\"}"));
    assert!(!json.contains("first"));
}

#[test]
fn kv_len_counts_keys_not_inserts() {
    let mut data = KvPairs::new();
    assert_eq!(data.len(), 0);
    data.insert("k", "1");
    data.insert("k", "2");
    data.insert("j", "3");
    assert_eq!(data.len(), 2);
}
