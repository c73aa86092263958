use sendgrid_rs::{ContactBuilder, MessageBuilder};

fn subject_json(subject: &str) -> String {
    MessageBuilder::new(ContactBuilder::new("f@x.io").build(), subject).build().to_json()
}

#[test]
fn quotes_and_backslashes_are_escaped() {
    let json = subject_json("say \"hi\" \\ bye");
    assert!(json.contains("\"subject\":\"say \\\"hi\\\" \\\\ bye\""));
}

#[test]
fn named_control_characters_use_short_escapes() {
    let json = subject_json("a\u{8}b\tc\nd\u{c}e\rf");
    assert!(json.contains("\"subject\":\"a\\bb\\tc\\nd\\fe\\rf\""));
}

#[test]
fn other_control_characters_use_lowercase_hex() {
    let json = subject_json("x\u{0}y\u{1f}z\u{b}");
    assert!(json.contains("\"subject\":\"x\\u0000y\\u001fz\\u000b\""));
}

#[test]
fn multibyte_characters_pass_through() {
    let json = subject_json("héllo wörld \u{1f600}");
    assert!(json.contains("\"subject\":\"héllo wörld \u{1f600}\""));
}

#[test]
fn escaping_matches_the_reference_json_encoder() {
    let tricky = "quote \" slash \\ tab \t nl \n ctl \u{1e} unicode é\u{1f680}";
    let ours = subject_json(tricky);
    let reference = serde_json::to_string(tricky).unwrap();
    assert!(ours.contains(&format!("\"subject\":{}", reference)));
}
