//! The mail-settings node of the payload and its builder. Each sub-setting
//! carries an enable flag that the corresponding builder method always sets
//! to true: leaving the method uncalled is the only way to keep a
//! sub-setting disabled, and a sub-setting never set is omitted from the
//! rendered text.

use vstd::prelude::*;
use crate::json::{
    jbool, jobj, jstr, jint, lemma_enable_opens, lemma_obj_close, lemma_obj_field_first,
    lemma_obj_field_next, lemma_obj_open, push_char, write_jbool, write_jint, write_jstr,
    write_lit, write_sep,
};
use crate::opt_view;

verus! {

/// The bcc-forward sub-setting: enabled, with the address to copy to.
pub struct BccSetting {
    enable: bool,
    email: String,
}

/// Mathematical content of a `BccSetting`.
pub struct BccSettingView {
    pub enable: bool,
    pub email: Seq<char>,
}

impl View for BccSetting {
    type V = BccSettingView;

    closed spec fn view(&self) -> BccSettingView {
        BccSettingView { enable: self.enable, email: self.email@ }
    }
}

/// The fragments of the rendered bcc sub-setting: both fields always.
pub open spec fn bcc_setting_fields(s: BccSettingView) -> Seq<Seq<char>> {
    let fs = Seq::<Seq<char>>::empty();
    let fs = fs.push("\"enable\":"@ + jbool(s.enable));
    let fs = fs.push("\"email\":"@ + jstr(s.email));
    fs
}

/// The rendered JSON object of the bcc sub-setting.
pub open spec fn bcc_setting_json(s: BccSettingView) -> Seq<char> {
    jobj(bcc_setting_fields(s))
}

/// A bcc sub-setting renders its enable flag first, then the address, and
/// nothing else.
pub proof fn bcc_setting_json_shape(s: BccSettingView)
    ensures
        bcc_setting_json(s) == seq!['{'] + ("\"enable\":"@ + jbool(s.enable)) + seq![','] + (
        "\"email\":"@ + jstr(s.email)) + seq!['}'],
{
    let f0 = "\"enable\":"@ + jbool(s.enable);
    let f1 = "\"email\":"@ + jstr(s.email);
    let e0 = Seq::<Seq<char>>::empty();
    crate::json::lemma_joined_push(e0, f0);
    crate::json::lemma_joined_push(e0.push(f0), f1);
    assert(bcc_setting_fields(s) =~= e0.push(f0).push(f1));
    assert(bcc_setting_json(s) =~= seq!['{'] + f0 + seq![','] + f1 + seq!['}']);
}

/// Appends the rendered bcc sub-setting.
fn write_bcc_setting(out: &mut String, s: &BccSetting)
    ensures
        final(out)@ == old(out)@ + bcc_setting_json(s@),
{
    let ghost base = out@;
    let ghost mut fs: Seq<Seq<char>> = Seq::empty();
    push_char(out, '{');
    proof {
        lemma_obj_open(base);
    }
    write_lit(out, "\"enable\":");
    write_jbool(out, s.enable);
    proof {
        lemma_obj_field_first(base, fs, "\"enable\":"@, jbool(s@.enable));
        fs = fs.push("\"enable\":"@ + jbool(s@.enable));
    }
    push_char(out, ',');
    write_lit(out, "\"email\":");
    write_jstr(out, s.email.as_str());
    proof {
        lemma_obj_field_next(base, fs, "\"email\":"@, jstr(s@.email));
        fs = fs.push("\"email\":"@ + jstr(s@.email));
    }
    push_char(out, '}');
    proof {
        lemma_obj_close(base, fs);
        assert(fs == bcc_setting_fields(s@));
    }
}

/// The bypass-list-management sub-setting: the flag alone.
pub struct BypassListSetting {
    enable: bool,
}

/// Mathematical content of a `BypassListSetting`.
pub struct BypassListSettingView {
    pub enable: bool,
}

impl View for BypassListSetting {
    type V = BypassListSettingView;

    closed spec fn view(&self) -> BypassListSettingView {
        BypassListSettingView { enable: self.enable }
    }
}

/// The one fragment of the rendered bypass sub-setting.
pub open spec fn bypass_setting_fields(s: BypassListSettingView) -> Seq<Seq<char>> {
    Seq::<Seq<char>>::empty().push("\"enable\":"@ + jbool(s.enable))
}

/// The rendered JSON object of the bypass sub-setting.
pub open spec fn bypass_setting_json(s: BypassListSettingView) -> Seq<char> {
    jobj(bypass_setting_fields(s))
}

/// A bypass sub-setting renders as its enable flag and nothing else.
pub proof fn bypass_setting_json_shape(s: BypassListSettingView)
    ensures
        bypass_setting_json(s) == seq!['{'] + ("\"enable\":"@ + jbool(s.enable)) + seq!['}'],
{
    assert(bypass_setting_json(s) =~= seq!['{'] + ("\"enable\":"@ + jbool(s.enable)) + seq!['}']);
}

/// Appends the rendered bypass sub-setting.
fn write_bypass_setting(out: &mut String, s: &BypassListSetting)
    ensures
        final(out)@ == old(out)@ + bypass_setting_json(s@),
{
    let ghost base = out@;
    let ghost mut fs: Seq<Seq<char>> = Seq::empty();
    push_char(out, '{');
    proof {
        lemma_obj_open(base);
    }
    write_lit(out, "\"enable\":");
    write_jbool(out, s.enable);
    proof {
        lemma_obj_field_first(base, fs, "\"enable\":"@, jbool(s@.enable));
        fs = fs.push("\"enable\":"@ + jbool(s@.enable));
    }
    push_char(out, '}');
    proof {
        lemma_obj_close(base, fs);
        assert(fs == bypass_setting_fields(s@));
    }
}

/// The footer sub-setting: enabled, with optional text and html bodies.
pub struct FooterSetting {
    enable: bool,
    text: Option<String>,
    html: Option<String>,
}

/// Mathematical content of a `FooterSetting`.
pub struct FooterSettingView {
    pub enable: bool,
    pub text: Option<Seq<char>>,
    pub html: Option<Seq<char>>,
}

impl View for FooterSetting {
    type V = FooterSettingView;

    closed spec fn view(&self) -> FooterSettingView {
        FooterSettingView {
            enable: self.enable,
            text: opt_view(self.text),
            html: opt_view(self.html),
        }
    }
}

/// The fragments of the rendered footer sub-setting: the flag always, the
/// bodies only where present.
pub open spec fn footer_setting_fields(s: FooterSettingView) -> Seq<Seq<char>> {
    let fs = Seq::<Seq<char>>::empty();
    let fs = fs.push("\"enable\":"@ + jbool(s.enable));
    let fs = if s.text is Some { fs.push("\"text\":"@ + jstr(s.text->0)) } else { fs };
    let fs = if s.html is Some { fs.push("\"html\":"@ + jstr(s.html->0)) } else { fs };
    fs
}

/// The rendered JSON object of the footer sub-setting.
pub open spec fn footer_setting_json(s: FooterSettingView) -> Seq<char> {
    jobj(footer_setting_fields(s))
}

/// A footer sub-setting with no bodies renders as its enable flag alone.
pub proof fn footer_setting_minimal_json(s: FooterSettingView)
    requires
        s.text is None,
        s.html is None,
    ensures
        footer_setting_json(s) == seq!['{'] + ("\"enable\":"@ + jbool(s.enable)) + seq!['}'],
{
    assert(footer_setting_json(s) =~= seq!['{'] + ("\"enable\":"@ + jbool(s.enable)) + seq!['}']);
}

/// An enabled footer sub-setting opens with `enable` true, whatever bodies
/// it carries.
pub proof fn footer_setting_always_enabled(s: FooterSettingView)
    requires
        s.enable,
    ensures
        footer_setting_json(s).len() >= 14,
        footer_setting_json(s).take(14) == "{\"enable\":true"@,
{
    assert(footer_setting_fields(s)[0] == "\"enable\":"@ + jbool(true));
    lemma_enable_opens(footer_setting_fields(s));
}

/// Appends the rendered footer sub-setting.
fn write_footer_setting(out: &mut String, s: &FooterSetting)
    ensures
        final(out)@ == old(out)@ + footer_setting_json(s@),
{
    let ghost base = out@;
    let ghost mut fs: Seq<Seq<char>> = Seq::empty();
    push_char(out, '{');
    proof {
        lemma_obj_open(base);
    }
    write_lit(out, "\"enable\":");
    write_jbool(out, s.enable);
    proof {
        lemma_obj_field_first(base, fs, "\"enable\":"@, jbool(s@.enable));
        fs = fs.push("\"enable\":"@ + jbool(s@.enable));
    }
    if let Some(t) = &s.text {
        push_char(out, ',');
        write_lit(out, "\"text\":");
        write_jstr(out, t.as_str());
        proof {
            lemma_obj_field_next(base, fs, "\"text\":"@, jstr(s@.text->0));
            fs = fs.push("\"text\":"@ + jstr(s@.text->0));
        }
    }
    if let Some(h) = &s.html {
        push_char(out, ',');
        write_lit(out, "\"html\":");
        write_jstr(out, h.as_str());
        proof {
            lemma_obj_field_next(base, fs, "\"html\":"@, jstr(s@.html->0));
            fs = fs.push("\"html\":"@ + jstr(s@.html->0));
        }
    }
    push_char(out, '}');
    proof {
        lemma_obj_close(base, fs);
        assert(fs == footer_setting_fields(s@));
    }
}

/// The sandbox-mode sub-setting: the flag alone.
pub struct SandboxModeSetting {
    enable: bool,
}

/// Mathematical content of a `SandboxModeSetting`.
pub struct SandboxModeSettingView {
    pub enable: bool,
}

impl View for SandboxModeSetting {
    type V = SandboxModeSettingView;

    closed spec fn view(&self) -> SandboxModeSettingView {
        SandboxModeSettingView { enable: self.enable }
    }
}

/// The one fragment of the rendered sandbox sub-setting.
pub open spec fn sandbox_setting_fields(s: SandboxModeSettingView) -> Seq<Seq<char>> {
    Seq::<Seq<char>>::empty().push("\"enable\":"@ + jbool(s.enable))
}

/// The rendered JSON object of the sandbox sub-setting.
pub open spec fn sandbox_setting_json(s: SandboxModeSettingView) -> Seq<char> {
    jobj(sandbox_setting_fields(s))
}

/// A sandbox sub-setting renders as its enable flag and nothing else.
pub proof fn sandbox_setting_json_shape(s: SandboxModeSettingView)
    ensures
        sandbox_setting_json(s) == seq!['{'] + ("\"enable\":"@ + jbool(s.enable)) + seq!['}'],
{
    assert(sandbox_setting_json(s) =~= seq!['{'] + ("\"enable\":"@ + jbool(s.enable)) + seq!['}']);
}

/// Appends the rendered sandbox sub-setting.
fn write_sandbox_setting(out: &mut String, s: &SandboxModeSetting)
    ensures
        final(out)@ == old(out)@ + sandbox_setting_json(s@),
{
    let ghost base = out@;
    let ghost mut fs: Seq<Seq<char>> = Seq::empty();
    push_char(out, '{');
    proof {
        lemma_obj_open(base);
    }
    write_lit(out, "\"enable\":");
    write_jbool(out, s.enable);
    proof {
        lemma_obj_field_first(base, fs, "\"enable\":"@, jbool(s@.enable));
        fs = fs.push("\"enable\":"@ + jbool(s@.enable));
    }
    push_char(out, '}');
    proof {
        lemma_obj_close(base, fs);
        assert(fs == sandbox_setting_fields(s@));
    }
}

/// The spam-check sub-setting: enabled, with an optional threshold and an
/// optional url to post reports to.
pub struct SpamCheckSetting {
    enable: bool,
    threshold: Option<i32>,
    post_to_url: Option<String>,
}

/// Mathematical content of a `SpamCheckSetting`.
pub struct SpamCheckSettingView {
    pub enable: bool,
    pub threshold: Option<i32>,
    pub post_to_url: Option<Seq<char>>,
}

impl View for SpamCheckSetting {
    type V = SpamCheckSettingView;

    closed spec fn view(&self) -> SpamCheckSettingView {
        SpamCheckSettingView {
            enable: self.enable,
            threshold: self.threshold,
            post_to_url: opt_view(self.post_to_url),
        }
    }
}

/// The fragments of the rendered spam-check sub-setting: the flag always,
/// threshold and url only where present. The threshold renders as a JSON
/// number, never as a string.
pub open spec fn spam_setting_fields(s: SpamCheckSettingView) -> Seq<Seq<char>> {
    let fs = Seq::<Seq<char>>::empty();
    let fs = fs.push("\"enable\":"@ + jbool(s.enable));
    let fs = if s.threshold is Some {
        fs.push("\"threshold\":"@ + jint(s.threshold->0 as int))
    } else {
        fs
    };
    let fs = if s.post_to_url is Some {
        fs.push("\"post_to_url\":"@ + jstr(s.post_to_url->0))
    } else {
        fs
    };
    fs
}

/// The rendered JSON object of the spam-check sub-setting.
pub open spec fn spam_setting_json(s: SpamCheckSettingView) -> Seq<char> {
    jobj(spam_setting_fields(s))
}

/// A spam-check sub-setting with no threshold and no url renders as its
/// enable flag alone.
pub proof fn spam_setting_minimal_json(s: SpamCheckSettingView)
    requires
        s.threshold is None,
        s.post_to_url is None,
    ensures
        spam_setting_json(s) == seq!['{'] + ("\"enable\":"@ + jbool(s.enable)) + seq!['}'],
{
    assert(spam_setting_json(s) =~= seq!['{'] + ("\"enable\":"@ + jbool(s.enable)) + seq!['}']);
}

/// An enabled spam-check sub-setting opens with `enable` true, whatever
/// parameters it carries.
pub proof fn spam_setting_always_enabled(s: SpamCheckSettingView)
    requires
        s.enable,
    ensures
        spam_setting_json(s).len() >= 14,
        spam_setting_json(s).take(14) == "{\"enable\":true"@,
{
    assert(spam_setting_fields(s)[0] == "\"enable\":"@ + jbool(true));
    lemma_enable_opens(spam_setting_fields(s));
}

/// Appends the rendered spam-check sub-setting.
fn write_spam_setting(out: &mut String, s: &SpamCheckSetting)
    ensures
        final(out)@ == old(out)@ + spam_setting_json(s@),
{
    let ghost base = out@;
    let ghost mut fs: Seq<Seq<char>> = Seq::empty();
    push_char(out, '{');
    proof {
        lemma_obj_open(base);
    }
    write_lit(out, "\"enable\":");
    write_jbool(out, s.enable);
    proof {
        lemma_obj_field_first(base, fs, "\"enable\":"@, jbool(s@.enable));
        fs = fs.push("\"enable\":"@ + jbool(s@.enable));
    }
    if let Some(t) = s.threshold {
        push_char(out, ',');
        write_lit(out, "\"threshold\":");
        write_jint(out, t);
        proof {
            lemma_obj_field_next(base, fs, "\"threshold\":"@, jint(s@.threshold->0 as int));
            fs = fs.push("\"threshold\":"@ + jint(s@.threshold->0 as int));
        }
    }
    if let Some(u) = &s.post_to_url {
        push_char(out, ',');
        write_lit(out, "\"post_to_url\":");
        write_jstr(out, u.as_str());
        proof {
            lemma_obj_field_next(base, fs, "\"post_to_url\":"@, jstr(s@.post_to_url->0));
            fs = fs.push("\"post_to_url\":"@ + jstr(s@.post_to_url->0));
        }
    }
    push_char(out, '}');
    proof {
        lemma_obj_close(base, fs);
        assert(fs == spam_setting_fields(s@));
    }
}

/// The mail-settings node: five optional sub-settings. Use a
/// `MailSettingsBuilder` to construct it.
pub struct MailSettings {
    bcc: Option<BccSetting>,
    bypass_list_management: Option<BypassListSetting>,
    footer: Option<FooterSetting>,
    sandbox_mode: Option<SandboxModeSetting>,
    spam_check: Option<SpamCheckSetting>,
}

/// Mathematical content of a `MailSettings`.
pub struct MailSettingsView {
    pub bcc: Option<BccSettingView>,
    pub bypass_list_management: Option<BypassListSettingView>,
    pub footer: Option<FooterSettingView>,
    pub sandbox_mode: Option<SandboxModeSettingView>,
    pub spam_check: Option<SpamCheckSettingView>,
}

impl View for MailSettings {
    type V = MailSettingsView;

    closed spec fn view(&self) -> MailSettingsView {
        MailSettingsView {
            bcc: match self.bcc {
                Some(s) => Some(s@),
                None => None,
            },
            bypass_list_management: match self.bypass_list_management {
                Some(s) => Some(s@),
                None => None,
            },
            footer: match self.footer {
                Some(s) => Some(s@),
                None => None,
            },
            sandbox_mode: match self.sandbox_mode {
                Some(s) => Some(s@),
                None => None,
            },
            spam_check: match self.spam_check {
                Some(s) => Some(s@),
                None => None,
            },
        }
    }
}

/// The fragments of the rendered mail-settings node: a sub-setting never
/// configured is omitted outright.
pub open spec fn mail_settings_fields(m: MailSettingsView) -> Seq<Seq<char>> {
    let fs = Seq::<Seq<char>>::empty();
    let fs = if m.bcc is Some { fs.push("\"bcc\":"@ + bcc_setting_json(m.bcc->0)) } else { fs };
    let fs = if m.bypass_list_management is Some {
        fs.push("\"bypass_list_management\":"@ + bypass_setting_json(m.bypass_list_management->0))
    } else {
        fs
    };
    let fs = if m.footer is Some {
        fs.push("\"footer\":"@ + footer_setting_json(m.footer->0))
    } else {
        fs
    };
    let fs = if m.sandbox_mode is Some {
        fs.push("\"sandbox_mode\":"@ + sandbox_setting_json(m.sandbox_mode->0))
    } else {
        fs
    };
    let fs = if m.spam_check is Some {
        fs.push("\"spam_check\":"@ + spam_setting_json(m.spam_check->0))
    } else {
        fs
    };
    fs
}

/// The rendered JSON object of the mail-settings node.
pub open spec fn mail_settings_json(m: MailSettingsView) -> Seq<char> {
    jobj(mail_settings_fields(m))
}

/// A mail-settings node with nothing configured renders as the empty
/// object: no key appears at all.
pub proof fn mail_settings_minimal_json(m: MailSettingsView)
    requires
        m.bcc is None,
        m.bypass_list_management is None,
        m.footer is None,
        m.sandbox_mode is None,
        m.spam_check is None,
    ensures
        mail_settings_json(m) == "{}"@,
{
    reveal_strlit("{}");
    assert(mail_settings_fields(m) =~= Seq::<Seq<char>>::empty());
    assert(mail_settings_json(m) =~= "{}"@);
}

/// Appends the rendered mail-settings node.
pub(crate) fn write_mail_settings(out: &mut String, m: &MailSettings)
    ensures
        final(out)@ == old(out)@ + mail_settings_json(m@),
{
    let ghost base = out@;
    let ghost mut fs: Seq<Seq<char>> = Seq::empty();
    let mut first = true;
    push_char(out, '{');
    proof {
        lemma_obj_open(base);
    }
    if let Some(s) = &m.bcc {
        write_sep(out, &mut first);
        write_lit(out, "\"bcc\":");
        write_bcc_setting(out, s);
        proof {
            lemma_obj_field_first(base, fs, "\"bcc\":"@, bcc_setting_json(m@.bcc->0));
            fs = fs.push("\"bcc\":"@ + bcc_setting_json(m@.bcc->0));
        }
    }
    if let Some(s) = &m.bypass_list_management {
        write_sep(out, &mut first);
        write_lit(out, "\"bypass_list_management\":");
        write_bypass_setting(out, s);
        proof {
            if fs.len() == 0 {
                lemma_obj_field_first(
                    base,
                    fs,
                    "\"bypass_list_management\":"@,
                    bypass_setting_json(m@.bypass_list_management->0),
                );
            } else {
                lemma_obj_field_next(
                    base,
                    fs,
                    "\"bypass_list_management\":"@,
                    bypass_setting_json(m@.bypass_list_management->0),
                );
            }
            fs = fs.push(
                "\"bypass_list_management\":"@ + bypass_setting_json(m@.bypass_list_management->0),
            );
        }
    }
    if let Some(s) = &m.footer {
        write_sep(out, &mut first);
        write_lit(out, "\"footer\":");
        write_footer_setting(out, s);
        proof {
            if fs.len() == 0 {
                lemma_obj_field_first(base, fs, "\"footer\":"@, footer_setting_json(m@.footer->0));
            } else {
                lemma_obj_field_next(base, fs, "\"footer\":"@, footer_setting_json(m@.footer->0));
            }
            fs = fs.push("\"footer\":"@ + footer_setting_json(m@.footer->0));
        }
    }
    if let Some(s) = &m.sandbox_mode {
        write_sep(out, &mut first);
        write_lit(out, "\"sandbox_mode\":");
        write_sandbox_setting(out, s);
        proof {
            if fs.len() == 0 {
                lemma_obj_field_first(
                    base,
                    fs,
                    "\"sandbox_mode\":"@,
                    sandbox_setting_json(m@.sandbox_mode->0),
                );
            } else {
                lemma_obj_field_next(
                    base,
                    fs,
                    "\"sandbox_mode\":"@,
                    sandbox_setting_json(m@.sandbox_mode->0),
                );
            }
            fs = fs.push("\"sandbox_mode\":"@ + sandbox_setting_json(m@.sandbox_mode->0));
        }
    }
    if let Some(s) = &m.spam_check {
        write_sep(out, &mut first);
        write_lit(out, "\"spam_check\":");
        write_spam_setting(out, s);
        proof {
            if fs.len() == 0 {
                lemma_obj_field_first(
                    base,
                    fs,
                    "\"spam_check\":"@,
                    spam_setting_json(m@.spam_check->0),
                );
            } else {
                lemma_obj_field_next(
                    base,
                    fs,
                    "\"spam_check\":"@,
                    spam_setting_json(m@.spam_check->0),
                );
            }
            fs = fs.push("\"spam_check\":"@ + spam_setting_json(m@.spam_check->0));
        }
    }
    push_char(out, '}');
    proof {
        lemma_obj_close(base, fs);
        assert(fs == mail_settings_fields(m@));
    }
}

/// Builder pattern for `MailSettings`. Construct it with `default()`, call
/// `build()` to consume it and obtain the finished `MailSettings`.
pub struct MailSettingsBuilder {
    settings: MailSettings,
}

impl View for MailSettingsBuilder {
    type V = MailSettingsView;

    closed spec fn view(&self) -> MailSettingsView {
        self.settings@
    }
}

impl Default for MailSettingsBuilder {
    /// Starts a mail-settings node with nothing configured.
    fn default() -> (r: Self)
        ensures
            r@ == (MailSettingsView {
                bcc: None,
                bypass_list_management: None,
                footer: None,
                sandbox_mode: None,
                spam_check: None,
            }),
    {
        MailSettingsBuilder {
            settings: MailSettings {
                bcc: None,
                bypass_list_management: None,
                footer: None,
                sandbox_mode: None,
                spam_check: None,
            },
        }
    }
}

impl MailSettingsBuilder {
    /// Configures the bcc-forward sub-setting with the address to copy to;
    /// calling this always enables it.
    pub fn bcc(self, email: &str) -> (r: Self)
        ensures
            r@ == (MailSettingsView {
                bcc: Some(BccSettingView { enable: true, email: email@ }),
                ..self@
            }),
    {
        MailSettingsBuilder {
            settings: MailSettings {
                bcc: Some(BccSetting { enable: true, email: email.to_owned() }),
                ..self.settings
            },
        }
    }

    /// Turns on the bypass-list-management sub-setting.
    pub fn bypass_list_management(self) -> (r: Self)
        ensures
            r@ == (MailSettingsView {
                bypass_list_management: Some(BypassListSettingView { enable: true }),
                ..self@
            }),
    {
        MailSettingsBuilder {
            settings: MailSettings {
                bypass_list_management: Some(BypassListSetting { enable: true }),
                ..self.settings
            },
        }
    }

    /// Configures the footer sub-setting with its optional text and html
    /// bodies; calling this always enables it.
    pub fn footer(self, text: Option<String>, html: Option<String>) -> (r: Self)
        ensures
            r@ == (MailSettingsView {
                footer: Some(FooterSettingView {
                    enable: true,
                    text: opt_view(text),
                    html: opt_view(html),
                }),
                ..self@
            }),
    {
        MailSettingsBuilder {
            settings: MailSettings {
                footer: Some(FooterSetting { enable: true, text, html }),
                ..self.settings
            },
        }
    }

    /// Turns on the sandbox-mode sub-setting: the remote service accepts
    /// the message but does not deliver it.
    pub fn sandbox_mode(self) -> (r: Self)
        ensures
            r@ == (MailSettingsView {
                sandbox_mode: Some(SandboxModeSettingView { enable: true }),
                ..self@
            }),
    {
        MailSettingsBuilder {
            settings: MailSettings {
                sandbox_mode: Some(SandboxModeSetting { enable: true }),
                ..self.settings
            },
        }
    }

    /// Configures the spam-check sub-setting with its optional threshold
    /// and report url; calling this always enables it.
    pub fn spam_check(self, threshold: Option<i32>, post_to_url: Option<String>) -> (r: Self)
        ensures
            r@ == (MailSettingsView {
                spam_check: Some(SpamCheckSettingView {
                    enable: true,
                    threshold,
                    post_to_url: opt_view(post_to_url),
                }),
                ..self@
            }),
    {
        MailSettingsBuilder {
            settings: MailSettings {
                spam_check: Some(SpamCheckSetting { enable: true, threshold, post_to_url }),
                ..self.settings
            },
        }
    }

    /// Consumes the builder and returns the finished `MailSettings`.
    pub fn build(self) -> (r: MailSettings)
        ensures
            r@ == self@,
    {
        self.settings
    }
}

} // verus!
