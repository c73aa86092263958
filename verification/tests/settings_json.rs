use sendgrid_rs::{ContactBuilder, GaTrackingSettingBuilder, MailSettingsBuilder, MessageBuilder,
    TrackingSettingsBuilder};

fn wrap_mail(settings: sendgrid_rs::mail_settings::MailSettings) -> String {
    MessageBuilder::new(ContactBuilder::new("f@x.io").build(), "s")
        .mail_settings(settings)
        .build()
        .to_json()
}

fn wrap_tracking(settings: sendgrid_rs::tracking_settings::TrackingSettings) -> String {
    MessageBuilder::new(ContactBuilder::new("f@x.io").build(), "s")
        .tracking_settings(settings)
        .build()
        .to_json()
}

#[test]
fn default_mail_settings_render_empty() {
    let json = wrap_mail(MailSettingsBuilder::default().build());
    assert!(json.contains("\"mail_settings\":{}"));
}

#[test]
fn default_tracking_settings_render_empty() {
    let json = wrap_tracking(TrackingSettingsBuilder::default().build());
    assert!(json.contains("\"tracking_settings\":{}"));
}

#[test]
fn bcc_method_always_enables() {
    let json = wrap_mail(MailSettingsBuilder::default().bcc("copy@x.io").build());
    assert!(json.contains("\"bcc\":{\"enable\":true,\"email\":\"copy@x.io\"}"));
}

#[test]
fn bypass_list_management_always_enables() {
    let json = wrap_mail(MailSettingsBuilder::default().bypass_list_management().build());
    assert!(json.contains("\"bypass_list_management\":{\"enable\":true}"));
}

#[test]
fn footer_always_enables_whatever_the_bodies() {
    let json = wrap_mail(MailSettingsBuilder::default().footer(None, None).build());
    assert!(json.contains("\"footer\":{\"enable\":true}"));
    let json = wrap_mail(
        MailSettingsBuilder::default()
            .footer(Some(String::from("text footer")), Some(String::from("<h1>HTML</h1>")))
            .build(),
    );
    assert!(json.contains(
        "\"footer\":{\"enable\":true,\"text\":\"text footer\",\"html\":\"<h1>HTML</h1>\"}"
    ));
}

#[test]
fn sandbox_mode_always_enables() {
    let json = wrap_mail(MailSettingsBuilder::default().sandbox_mode().build());
    assert!(json.contains("\"mail_settings\":{\"sandbox_mode\":{\"enable\":true}}"));
}

#[test]
fn spam_check_always_enables_whatever_the_parameters() {
    let json = wrap_mail(MailSettingsBuilder::default().spam_check(None, None).build());
    assert!(json.contains("\"spam_check\":{\"enable\":true}"));
    let json = wrap_mail(
        MailSettingsBuilder::default()
            .spam_check(Some(5), Some(String::from("http://post_url")))
            .build(),
    );
    assert!(json.contains(
        "\"spam_check\":{\"enable\":true,\"threshold\":5,\"post_to_url\":\"http://post_url\"}"
    ));
}

#[test]
fn mail_settings_keep_declaration_order() {
    let json = wrap_mail(
        MailSettingsBuilder::default()
            .spam_check(Some(1), None)
            .bcc("copy@x.io")
            .sandbox_mode()
            .build(),
    );
    assert!(json.contains(
        "\"mail_settings\":{\"bcc\":{\"enable\":true,\"email\":\"copy@x.io\"},\"sandbox_mode\":{\"enable\":true},\"spam_check\":{\"enable\":true,\"threshold\":1}}"
    ));
}

#[test]
fn click_tracking_always_enables() {
    let json = wrap_tracking(TrackingSettingsBuilder::default().click_tracking(false).build());
    assert!(json.contains("\"click_tracking\":{\"enable\":true,\"enable_text\":false}"));
    let json = wrap_tracking(TrackingSettingsBuilder::default().click_tracking(true).build());
    assert!(json.contains("\"click_tracking\":{\"enable\":true,\"enable_text\":true}"));
}

#[test]
fn open_tracking_always_enables() {
    let json = wrap_tracking(TrackingSettingsBuilder::default().open_tracking("[OPEN]").build());
    assert!(json.contains(
        "\"open_tracking\":{\"enable\":true,\"substitution_tag\":\"[OPEN]\"}"
    ));
}

#[test]
fn subscription_tracking_always_enables() {
    let json = wrap_tracking(
        TrackingSettingsBuilder::default().substitution_tag("[SUB]", None, None).build(),
    );
    assert!(json.contains(
        "\"subscription_tracking\":{\"enable\":true,\"substitution_tag\":\"[SUB]\"}"
    ));
    let json = wrap_tracking(
        TrackingSettingsBuilder::default()
            .substitution_tag("[SUB]", Some(String::from("t")), Some(String::from("h")))
            .build(),
    );
    assert!(json.contains(
        "\"subscription_tracking\":{\"enable\":true,\"text\":\"t\",\"html\":\"h\",\"substitution_tag\":\"[SUB]\"}"
    ));
}

#[test]
fn ga_tracking_builder_chains_and_ganalytics_never_renders() {
    // The analytics builder chains and builds; the tracking-settings
    // builder offers no way to attach its result, so the `ganalytics` key
    // never appears in any rendered document.
    let _setting = GaTrackingSettingBuilder::default()
        .utm_source("src")
        .utm_medium("med")
        .utm_term("term")
        .utm_content("cont")
        .utm_campaign("camp")
        .build();
    let json = wrap_tracking(
        TrackingSettingsBuilder::default().click_tracking(false).open_tracking("[O]").build(),
    );
    assert!(!json.contains("ganalytics"));
}
