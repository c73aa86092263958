//! The tracking-settings node of the payload and its builders. As with mail
//! settings, each sub-setting carries an enable flag that the corresponding
//! builder method always sets to true, and a sub-setting never set is
//! omitted from the rendered text.

use vstd::prelude::*;
use crate::json::{
    jbool, jobj, jstr, lemma_enable_opens, lemma_obj_close, lemma_obj_field_first,
    lemma_obj_field_next, lemma_obj_open, push_char, write_jbool, write_jstr, write_lit,
    write_sep,
};
use crate::opt_view;

verus! {

/// The click-tracking sub-setting: enabled, with a flag for tracking in
/// plain-text bodies too.
pub struct ClickTrackingSetting {
    enable: bool,
    enable_text: bool,
}

/// Mathematical content of a `ClickTrackingSetting`.
pub struct ClickTrackingSettingView {
    pub enable: bool,
    pub enable_text: bool,
}

impl View for ClickTrackingSetting {
    type V = ClickTrackingSettingView;

    closed spec fn view(&self) -> ClickTrackingSettingView {
        ClickTrackingSettingView { enable: self.enable, enable_text: self.enable_text }
    }
}

/// The fragments of the rendered click-tracking sub-setting: both flags
/// always.
pub open spec fn click_setting_fields(s: ClickTrackingSettingView) -> Seq<Seq<char>> {
    let fs = Seq::<Seq<char>>::empty();
    let fs = fs.push("\"enable\":"@ + jbool(s.enable));
    let fs = fs.push("\"enable_text\":"@ + jbool(s.enable_text));
    fs
}

/// The rendered JSON object of the click-tracking sub-setting.
pub open spec fn click_setting_json(s: ClickTrackingSettingView) -> Seq<char> {
    jobj(click_setting_fields(s))
}

/// A click-tracking sub-setting renders its enable flag first, then the
/// text flag, and nothing else.
pub proof fn click_setting_json_shape(s: ClickTrackingSettingView)
    ensures
        click_setting_json(s) == seq!['{'] + ("\"enable\":"@ + jbool(s.enable)) + seq![','] + (
        "\"enable_text\":"@ + jbool(s.enable_text)) + seq!['}'],
{
    let f0 = "\"enable\":"@ + jbool(s.enable);
    let f1 = "\"enable_text\":"@ + jbool(s.enable_text);
    let e0 = Seq::<Seq<char>>::empty();
    crate::json::lemma_joined_push(e0, f0);
    crate::json::lemma_joined_push(e0.push(f0), f1);
    assert(click_setting_fields(s) =~= e0.push(f0).push(f1));
    assert(click_setting_json(s) =~= seq!['{'] + f0 + seq![','] + f1 + seq!['}']);
}

/// Appends the rendered click-tracking sub-setting.
fn write_click_setting(out: &mut String, s: &ClickTrackingSetting)
    ensures
        final(out)@ == old(out)@ + click_setting_json(s@),
{
    let ghost base = out@;
    let ghost mut fs: Seq<Seq<char>> = Seq::empty();
    push_char(out, '{');
    proof {
        lemma_obj_open(base);
    }
    write_lit(out, "\"enable\":");
    write_jbool(out, s.enable);
    proof {
        lemma_obj_field_first(base, fs, "\"enable\":"@, jbool(s@.enable));
        fs = fs.push("\"enable\":"@ + jbool(s@.enable));
    }
    push_char(out, ',');
    write_lit(out, "\"enable_text\":");
    write_jbool(out, s.enable_text);
    proof {
        lemma_obj_field_next(base, fs, "\"enable_text\":"@, jbool(s@.enable_text));
        fs = fs.push("\"enable_text\":"@ + jbool(s@.enable_text));
    }
    push_char(out, '}');
    proof {
        lemma_obj_close(base, fs);
        assert(fs == click_setting_fields(s@));
    }
}

/// The open-tracking sub-setting: enabled, with the tag to substitute.
pub struct OpenTrackingSetting {
    enable: bool,
    substitution_tag: String,
}

/// Mathematical content of an `OpenTrackingSetting`.
pub struct OpenTrackingSettingView {
    pub enable: bool,
    pub substitution_tag: Seq<char>,
}

impl View for OpenTrackingSetting {
    type V = OpenTrackingSettingView;

    closed spec fn view(&self) -> OpenTrackingSettingView {
        OpenTrackingSettingView { enable: self.enable, substitution_tag: self.substitution_tag@ }
    }
}

/// The fragments of the rendered open-tracking sub-setting: both fields
/// always.
pub open spec fn open_setting_fields(s: OpenTrackingSettingView) -> Seq<Seq<char>> {
    let fs = Seq::<Seq<char>>::empty();
    let fs = fs.push("\"enable\":"@ + jbool(s.enable));
    let fs = fs.push("\"substitution_tag\":"@ + jstr(s.substitution_tag));
    fs
}

/// The rendered JSON object of the open-tracking sub-setting.
pub open spec fn open_setting_json(s: OpenTrackingSettingView) -> Seq<char> {
    jobj(open_setting_fields(s))
}

/// An open-tracking sub-setting renders its enable flag first, then the
/// tag, and nothing else.
pub proof fn open_setting_json_shape(s: OpenTrackingSettingView)
    ensures
        open_setting_json(s) == seq!['{'] + ("\"enable\":"@ + jbool(s.enable)) + seq![','] + (
        "\"substitution_tag\":"@ + jstr(s.substitution_tag)) + seq!['}'],
{
    let f0 = "\"enable\":"@ + jbool(s.enable);
    let f1 = "\"substitution_tag\":"@ + jstr(s.substitution_tag);
    let e0 = Seq::<Seq<char>>::empty();
    crate::json::lemma_joined_push(e0, f0);
    crate::json::lemma_joined_push(e0.push(f0), f1);
    assert(open_setting_fields(s) =~= e0.push(f0).push(f1));
    assert(open_setting_json(s) =~= seq!['{'] + f0 + seq![','] + f1 + seq!['}']);
}

/// Appends the rendered open-tracking sub-setting.
fn write_open_setting(out: &mut String, s: &OpenTrackingSetting)
    ensures
        final(out)@ == old(out)@ + open_setting_json(s@),
{
    let ghost base = out@;
    let ghost mut fs: Seq<Seq<char>> = Seq::empty();
    push_char(out, '{');
    proof {
        lemma_obj_open(base);
    }
    write_lit(out, "\"enable\":");
    write_jbool(out, s.enable);
    proof {
        lemma_obj_field_first(base, fs, "\"enable\":"@, jbool(s@.enable));
        fs = fs.push("\"enable\":"@ + jbool(s@.enable));
    }
    push_char(out, ',');
    write_lit(out, "\"substitution_tag\":");
    write_jstr(out, s.substitution_tag.as_str());
    proof {
        lemma_obj_field_next(base, fs, "\"substitution_tag\":"@, jstr(s@.substitution_tag));
        fs = fs.push("\"substitution_tag\":"@ + jstr(s@.substitution_tag));
    }
    push_char(out, '}');
    proof {
        lemma_obj_close(base, fs);
        assert(fs == open_setting_fields(s@));
    }
}

/// The subscription-tracking sub-setting: enabled, with optional text and
/// html bodies and the tag to substitute.
pub struct SubscriptionTrackingSetting {
    enable: bool,
    text: Option<String>,
    html: Option<String>,
    substitution_tag: String,
}

/// Mathematical content of a `SubscriptionTrackingSetting`.
pub struct SubscriptionTrackingSettingView {
    pub enable: bool,
    pub text: Option<Seq<char>>,
    pub html: Option<Seq<char>>,
    pub substitution_tag: Seq<char>,
}

impl View for SubscriptionTrackingSetting {
    type V = SubscriptionTrackingSettingView;

    closed spec fn view(&self) -> SubscriptionTrackingSettingView {
        SubscriptionTrackingSettingView {
            enable: self.enable,
            text: opt_view(self.text),
            html: opt_view(self.html),
            substitution_tag: self.substitution_tag@,
        }
    }
}

/// The fragments of the rendered subscription-tracking sub-setting: the
/// flag and the tag always, the bodies only where present.
pub open spec fn subscription_setting_fields(
    s: SubscriptionTrackingSettingView,
) -> Seq<Seq<char>> {
    let fs = Seq::<Seq<char>>::empty();
    let fs = fs.push("\"enable\":"@ + jbool(s.enable));
    let fs = if s.text is Some { fs.push("\"text\":"@ + jstr(s.text->0)) } else { fs };
    let fs = if s.html is Some { fs.push("\"html\":"@ + jstr(s.html->0)) } else { fs };
    let fs = fs.push("\"substitution_tag\":"@ + jstr(s.substitution_tag));
    fs
}

/// The rendered JSON object of the subscription-tracking sub-setting.
pub open spec fn subscription_setting_json(s: SubscriptionTrackingSettingView) -> Seq<char> {
    jobj(subscription_setting_fields(s))
}

/// A subscription-tracking sub-setting with no bodies renders as the flag
/// and the tag alone.
pub proof fn subscription_setting_minimal_json(s: SubscriptionTrackingSettingView)
    requires
        s.text is None,
        s.html is None,
    ensures
        subscription_setting_json(s) == seq!['{'] + ("\"enable\":"@ + jbool(s.enable)) + seq![',']
            + ("\"substitution_tag\":"@ + jstr(s.substitution_tag)) + seq!['}'],
{
    let f0 = "\"enable\":"@ + jbool(s.enable);
    let f1 = "\"substitution_tag\":"@ + jstr(s.substitution_tag);
    let e0 = Seq::<Seq<char>>::empty();
    crate::json::lemma_joined_push(e0, f0);
    crate::json::lemma_joined_push(e0.push(f0), f1);
    assert(subscription_setting_fields(s) =~= e0.push(f0).push(f1));
    assert(subscription_setting_json(s) =~= seq!['{'] + f0 + seq![','] + f1 + seq!['}']);
}

/// An enabled subscription-tracking sub-setting opens with `enable` true,
/// whatever else it carries.
pub proof fn subscription_setting_always_enabled(s: SubscriptionTrackingSettingView)
    requires
        s.enable,
    ensures
        subscription_setting_json(s).len() >= 14,
        subscription_setting_json(s).take(14) == "{\"enable\":true"@,
{
    assert(subscription_setting_fields(s)[0] == "\"enable\":"@ + jbool(true));
    lemma_enable_opens(subscription_setting_fields(s));
}

/// Appends the rendered subscription-tracking sub-setting.
fn write_subscription_setting(out: &mut String, s: &SubscriptionTrackingSetting)
    ensures
        final(out)@ == old(out)@ + subscription_setting_json(s@),
{
    let ghost base = out@;
    let ghost mut fs: Seq<Seq<char>> = Seq::empty();
    push_char(out, '{');
    proof {
        lemma_obj_open(base);
    }
    write_lit(out, "\"enable\":");
    write_jbool(out, s.enable);
    proof {
        lemma_obj_field_first(base, fs, "\"enable\":"@, jbool(s@.enable));
        fs = fs.push("\"enable\":"@ + jbool(s@.enable));
    }
    if let Some(t) = &s.text {
        push_char(out, ',');
        write_lit(out, "\"text\":");
        write_jstr(out, t.as_str());
        proof {
            lemma_obj_field_next(base, fs, "\"text\":"@, jstr(s@.text->0));
            fs = fs.push("\"text\":"@ + jstr(s@.text->0));
        }
    }
    if let Some(h) = &s.html {
        push_char(out, ',');
        write_lit(out, "\"html\":");
        write_jstr(out, h.as_str());
        proof {
            lemma_obj_field_next(base, fs, "\"html\":"@, jstr(s@.html->0));
            fs = fs.push("\"html\":"@ + jstr(s@.html->0));
        }
    }
    push_char(out, ',');
    write_lit(out, "\"substitution_tag\":");
    write_jstr(out, s.substitution_tag.as_str());
    proof {
        lemma_obj_field_next(base, fs, "\"substitution_tag\":"@, jstr(s@.substitution_tag));
        fs = fs.push("\"substitution_tag\":"@ + jstr(s@.substitution_tag));
    }
    push_char(out, '}');
    proof {
        lemma_obj_close(base, fs);
        assert(fs == subscription_setting_fields(s@));
    }
}

/// The analytics-tagging sub-setting: enabled, with five optional campaign
/// parameters.
pub struct GaTrackingSetting {
    enable: bool,
    utm_source: Option<String>,
    utm_medium: Option<String>,
    utm_term: Option<String>,
    utm_content: Option<String>,
    utm_campaign: Option<String>,
}

/// Mathematical content of a `GaTrackingSetting`.
pub struct GaTrackingSettingView {
    pub enable: bool,
    pub utm_source: Option<Seq<char>>,
    pub utm_medium: Option<Seq<char>>,
    pub utm_term: Option<Seq<char>>,
    pub utm_content: Option<Seq<char>>,
    pub utm_campaign: Option<Seq<char>>,
}

impl View for GaTrackingSetting {
    type V = GaTrackingSettingView;

    closed spec fn view(&self) -> GaTrackingSettingView {
        GaTrackingSettingView {
            enable: self.enable,
            utm_source: opt_view(self.utm_source),
            utm_medium: opt_view(self.utm_medium),
            utm_term: opt_view(self.utm_term),
            utm_content: opt_view(self.utm_content),
            utm_campaign: opt_view(self.utm_campaign),
        }
    }
}

/// The fragments of the rendered analytics sub-setting: the flag always,
/// each campaign parameter only where present.
pub open spec fn ga_setting_fields(s: GaTrackingSettingView) -> Seq<Seq<char>> {
    let fs = Seq::<Seq<char>>::empty();
    let fs = fs.push("\"enable\":"@ + jbool(s.enable));
    let fs = if s.utm_source is Some {
        fs.push("\"utm_source\":"@ + jstr(s.utm_source->0))
    } else {
        fs
    };
    let fs = if s.utm_medium is Some {
        fs.push("\"utm_medium\":"@ + jstr(s.utm_medium->0))
    } else {
        fs
    };
    let fs = if s.utm_term is Some { fs.push("\"utm_term\":"@ + jstr(s.utm_term->0)) } else { fs };
    let fs = if s.utm_content is Some {
        fs.push("\"utm_content\":"@ + jstr(s.utm_content->0))
    } else {
        fs
    };
    let fs = if s.utm_campaign is Some {
        fs.push("\"utm_campaign\":"@ + jstr(s.utm_campaign->0))
    } else {
        fs
    };
    fs
}

/// The rendered JSON object of the analytics sub-setting.
pub open spec fn ga_setting_json(s: GaTrackingSettingView) -> Seq<char> {
    jobj(ga_setting_fields(s))
}

/// An analytics sub-setting with no campaign parameters renders as its
/// enable flag alone.
pub proof fn ga_setting_minimal_json(s: GaTrackingSettingView)
    requires
        s.utm_source is None,
        s.utm_medium is None,
        s.utm_term is None,
        s.utm_content is None,
        s.utm_campaign is None,
    ensures
        ga_setting_json(s) == seq!['{'] + ("\"enable\":"@ + jbool(s.enable)) + seq!['}'],
{
    assert(ga_setting_json(s) =~= seq!['{'] + ("\"enable\":"@ + jbool(s.enable)) + seq!['}']);
}

/// An enabled analytics sub-setting opens with `enable` true, whatever
/// parameters it carries.
pub proof fn ga_setting_always_enabled(s: GaTrackingSettingView)
    requires
        s.enable,
    ensures
        ga_setting_json(s).len() >= 14,
        ga_setting_json(s).take(14) == "{\"enable\":true"@,
{
    assert(ga_setting_fields(s)[0] == "\"enable\":"@ + jbool(true));
    lemma_enable_opens(ga_setting_fields(s));
}

/// Appends the rendered analytics sub-setting.
fn write_ga_setting(out: &mut String, s: &GaTrackingSetting)
    ensures
        final(out)@ == old(out)@ + ga_setting_json(s@),
{
    let ghost base = out@;
    let ghost mut fs: Seq<Seq<char>> = Seq::empty();
    push_char(out, '{');
    proof {
        lemma_obj_open(base);
    }
    write_lit(out, "\"enable\":");
    write_jbool(out, s.enable);
    proof {
        lemma_obj_field_first(base, fs, "\"enable\":"@, jbool(s@.enable));
        fs = fs.push("\"enable\":"@ + jbool(s@.enable));
    }
    if let Some(v) = &s.utm_source {
        push_char(out, ',');
        write_lit(out, "\"utm_source\":");
        write_jstr(out, v.as_str());
        proof {
            lemma_obj_field_next(base, fs, "\"utm_source\":"@, jstr(s@.utm_source->0));
            fs = fs.push("\"utm_source\":"@ + jstr(s@.utm_source->0));
        }
    }
    if let Some(v) = &s.utm_medium {
        push_char(out, ',');
        write_lit(out, "\"utm_medium\":");
        write_jstr(out, v.as_str());
        proof {
            lemma_obj_field_next(base, fs, "\"utm_medium\":"@, jstr(s@.utm_medium->0));
            fs = fs.push("\"utm_medium\":"@ + jstr(s@.utm_medium->0));
        }
    }
    if let Some(v) = &s.utm_term {
        push_char(out, ',');
        write_lit(out, "\"utm_term\":");
        write_jstr(out, v.as_str());
        proof {
            lemma_obj_field_next(base, fs, "\"utm_term\":"@, jstr(s@.utm_term->0));
            fs = fs.push("\"utm_term\":"@ + jstr(s@.utm_term->0));
        }
    }
    if let Some(v) = &s.utm_content {
        push_char(out, ',');
        write_lit(out, "\"utm_content\":");
        write_jstr(out, v.as_str());
        proof {
            lemma_obj_field_next(base, fs, "\"utm_content\":"@, jstr(s@.utm_content->0));
            fs = fs.push("\"utm_content\":"@ + jstr(s@.utm_content->0));
        }
    }
    if let Some(v) = &s.utm_campaign {
        push_char(out, ',');
        write_lit(out, "\"utm_campaign\":");
        write_jstr(out, v.as_str());
        proof {
            lemma_obj_field_next(base, fs, "\"utm_campaign\":"@, jstr(s@.utm_campaign->0));
            fs = fs.push("\"utm_campaign\":"@ + jstr(s@.utm_campaign->0));
        }
    }
    push_char(out, '}');
    proof {
        lemma_obj_close(base, fs);
        assert(fs == ga_setting_fields(s@));
    }
}

/// Builder pattern for `GaTrackingSetting`. Construct it with `default()`,
/// which already enables the sub-setting, and call `build()` to consume it.
pub struct GaTrackingSettingBuilder {
    setting: GaTrackingSetting,
}

impl View for GaTrackingSettingBuilder {
    type V = GaTrackingSettingView;

    closed spec fn view(&self) -> GaTrackingSettingView {
        self.setting@
    }
}

impl Default for GaTrackingSettingBuilder {
    /// Starts an analytics sub-setting: enabled, with no parameters yet.
    fn default() -> (r: Self)
        ensures
            r@ == (GaTrackingSettingView {
                enable: true,
                utm_source: None,
                utm_medium: None,
                utm_term: None,
                utm_content: None,
                utm_campaign: None,
            }),
    {
        GaTrackingSettingBuilder {
            setting: GaTrackingSetting {
                enable: true,
                utm_source: None,
                utm_medium: None,
                utm_term: None,
                utm_content: None,
                utm_campaign: None,
            },
        }
    }
}

impl GaTrackingSettingBuilder {
    /// Sets the campaign source parameter.
    pub fn utm_source(self, source: &str) -> (r: Self)
        ensures
            r@ == (GaTrackingSettingView { utm_source: Some(source@), ..self@ }),
    {
        GaTrackingSettingBuilder {
            setting: GaTrackingSetting { utm_source: Some(source.to_owned()), ..self.setting },
        }
    }

    /// Sets the campaign medium parameter.
    pub fn utm_medium(self, medium: &str) -> (r: Self)
        ensures
            r@ == (GaTrackingSettingView { utm_medium: Some(medium@), ..self@ }),
    {
        GaTrackingSettingBuilder {
            setting: GaTrackingSetting { utm_medium: Some(medium.to_owned()), ..self.setting },
        }
    }

    /// Sets the campaign term parameter.
    pub fn utm_term(self, term: &str) -> (r: Self)
        ensures
            r@ == (GaTrackingSettingView { utm_term: Some(term@), ..self@ }),
    {
        GaTrackingSettingBuilder {
            setting: GaTrackingSetting { utm_term: Some(term.to_owned()), ..self.setting },
        }
    }

    /// Sets the campaign content parameter.
    pub fn utm_content(self, content: &str) -> (r: Self)
        ensures
            r@ == (GaTrackingSettingView { utm_content: Some(content@), ..self@ }),
    {
        GaTrackingSettingBuilder {
            setting: GaTrackingSetting { utm_content: Some(content.to_owned()), ..self.setting },
        }
    }

    /// Sets the campaign name parameter.
    pub fn utm_campaign(self, campaign: &str) -> (r: Self)
        ensures
            r@ == (GaTrackingSettingView { utm_campaign: Some(campaign@), ..self@ }),
    {
        GaTrackingSettingBuilder {
            setting: GaTrackingSetting { utm_campaign: Some(campaign.to_owned()), ..self.setting },
        }
    }

    /// Consumes the builder and returns the finished `GaTrackingSetting`.
    pub fn build(self) -> (r: GaTrackingSetting)
        ensures
            r@ == self@,
    {
        self.setting
    }
}

/// The tracking-settings node: four optional sub-settings. Use a
/// `TrackingSettingsBuilder` to construct it.
pub struct TrackingSettings {
    click_tracking: Option<ClickTrackingSetting>,
    open_tracking: Option<OpenTrackingSetting>,
    subscription_tracking: Option<SubscriptionTrackingSetting>,
    ganalytics: Option<GaTrackingSetting>,
}

/// Mathematical content of a `TrackingSettings`.
pub struct TrackingSettingsView {
    pub click_tracking: Option<ClickTrackingSettingView>,
    pub open_tracking: Option<OpenTrackingSettingView>,
    pub subscription_tracking: Option<SubscriptionTrackingSettingView>,
    pub ganalytics: Option<GaTrackingSettingView>,
}

impl View for TrackingSettings {
    type V = TrackingSettingsView;

    closed spec fn view(&self) -> TrackingSettingsView {
        TrackingSettingsView {
            click_tracking: match self.click_tracking {
                Some(s) => Some(s@),
                None => None,
            },
            open_tracking: match self.open_tracking {
                Some(s) => Some(s@),
                None => None,
            },
            subscription_tracking: match self.subscription_tracking {
                Some(s) => Some(s@),
                None => None,
            },
            ganalytics: match self.ganalytics {
                Some(s) => Some(s@),
                None => None,
            },
        }
    }
}

/// The fragments of the rendered tracking-settings node: a sub-setting
/// never configured is omitted outright.
pub open spec fn tracking_settings_fields(t: TrackingSettingsView) -> Seq<Seq<char>> {
    let fs = Seq::<Seq<char>>::empty();
    let fs = if t.click_tracking is Some {
        fs.push("\"click_tracking\":"@ + click_setting_json(t.click_tracking->0))
    } else {
        fs
    };
    let fs = if t.open_tracking is Some {
        fs.push("\"open_tracking\":"@ + open_setting_json(t.open_tracking->0))
    } else {
        fs
    };
    let fs = if t.subscription_tracking is Some {
        fs.push("\"subscription_tracking\":"@ + subscription_setting_json(
            t.subscription_tracking->0,
        ))
    } else {
        fs
    };
    let fs = if t.ganalytics is Some {
        fs.push("\"ganalytics\":"@ + ga_setting_json(t.ganalytics->0))
    } else {
        fs
    };
    fs
}

/// The rendered JSON object of the tracking-settings node.
pub open spec fn tracking_settings_json(t: TrackingSettingsView) -> Seq<char> {
    jobj(tracking_settings_fields(t))
}

/// A tracking-settings node with nothing configured renders as the empty
/// object: no key appears at all.
pub proof fn tracking_settings_minimal_json(t: TrackingSettingsView)
    requires
        t.click_tracking is None,
        t.open_tracking is None,
        t.subscription_tracking is None,
        t.ganalytics is None,
    ensures
        tracking_settings_json(t) == "{}"@,
{
    reveal_strlit("{}");
    assert(tracking_settings_fields(t) =~= Seq::<Seq<char>>::empty());
    assert(tracking_settings_json(t) =~= "{}"@);
}

/// Appends the rendered tracking-settings node.
pub(crate) fn write_tracking_settings(out: &mut String, t: &TrackingSettings)
    ensures
        final(out)@ == old(out)@ + tracking_settings_json(t@),
{
    let ghost base = out@;
    let ghost mut fs: Seq<Seq<char>> = Seq::empty();
    let mut first = true;
    push_char(out, '{');
    proof {
        lemma_obj_open(base);
    }
    if let Some(s) = &t.click_tracking {
        write_sep(out, &mut first);
        write_lit(out, "\"click_tracking\":");
        write_click_setting(out, s);
        proof {
            lemma_obj_field_first(
                base,
                fs,
                "\"click_tracking\":"@,
                click_setting_json(t@.click_tracking->0),
            );
            fs = fs.push("\"click_tracking\":"@ + click_setting_json(t@.click_tracking->0));
        }
    }
    if let Some(s) = &t.open_tracking {
        write_sep(out, &mut first);
        write_lit(out, "\"open_tracking\":");
        write_open_setting(out, s);
        proof {
            if fs.len() == 0 {
                lemma_obj_field_first(
                    base,
                    fs,
                    "\"open_tracking\":"@,
                    open_setting_json(t@.open_tracking->0),
                );
            } else {
                lemma_obj_field_next(
                    base,
                    fs,
                    "\"open_tracking\":"@,
                    open_setting_json(t@.open_tracking->0),
                );
            }
            fs = fs.push("\"open_tracking\":"@ + open_setting_json(t@.open_tracking->0));
        }
    }
    if let Some(s) = &t.subscription_tracking {
        write_sep(out, &mut first);
        write_lit(out, "\"subscription_tracking\":");
        write_subscription_setting(out, s);
        proof {
            if fs.len() == 0 {
                lemma_obj_field_first(
                    base,
                    fs,
                    "\"subscription_tracking\":"@,
                    subscription_setting_json(t@.subscription_tracking->0),
                );
            } else {
                lemma_obj_field_next(
                    base,
                    fs,
                    "\"subscription_tracking\":"@,
                    subscription_setting_json(t@.subscription_tracking->0),
                );
            }
            fs = fs.push(
                "\"subscription_tracking\":"@ + subscription_setting_json(
                    t@.subscription_tracking->0,
                ),
            );
        }
    }
    if let Some(s) = &t.ganalytics {
        write_sep(out, &mut first);
        write_lit(out, "\"ganalytics\":");
        write_ga_setting(out, s);
        proof {
            if fs.len() == 0 {
                lemma_obj_field_first(
                    base,
                    fs,
                    "\"ganalytics\":"@,
                    ga_setting_json(t@.ganalytics->0),
                );
            } else {
                lemma_obj_field_next(
                    base,
                    fs,
                    "\"ganalytics\":"@,
                    ga_setting_json(t@.ganalytics->0),
                );
            }
            fs = fs.push("\"ganalytics\":"@ + ga_setting_json(t@.ganalytics->0));
        }
    }
    push_char(out, '}');
    proof {
        lemma_obj_close(base, fs);
        assert(fs == tracking_settings_fields(t@));
    }
}

/// Builder pattern for `TrackingSettings`. Construct it with `default()`,
/// call `build()` to consume it and obtain the finished `TrackingSettings`.
pub struct TrackingSettingsBuilder {
    settings: TrackingSettings,
}

impl View for TrackingSettingsBuilder {
    type V = TrackingSettingsView;

    closed spec fn view(&self) -> TrackingSettingsView {
        self.settings@
    }
}

impl Default for TrackingSettingsBuilder {
    /// Starts a tracking-settings node with nothing configured.
    fn default() -> (r: Self)
        ensures
            r@ == (TrackingSettingsView {
                click_tracking: None,
                open_tracking: None,
                subscription_tracking: None,
                ganalytics: None,
            }),
    {
        TrackingSettingsBuilder {
            settings: TrackingSettings {
                click_tracking: None,
                open_tracking: None,
                subscription_tracking: None,
                ganalytics: None,
            },
        }
    }
}

impl TrackingSettingsBuilder {
    /// Configures click tracking; calling this always enables it. The
    /// parameter says whether links in plain-text bodies are tracked too.
    pub fn click_tracking(self, enable_text: bool) -> (r: Self)
        ensures
            r@ == (TrackingSettingsView {
                click_tracking: Some(ClickTrackingSettingView { enable: true, enable_text }),
                ..self@
            }),
    {
        TrackingSettingsBuilder {
            settings: TrackingSettings {
                click_tracking: Some(ClickTrackingSetting { enable: true, enable_text }),
                ..self.settings
            },
        }
    }

    /// Configures open tracking with the tag to substitute; calling this
    /// always enables it.
    pub fn open_tracking(self, substitution_tag: &str) -> (r: Self)
        ensures
            r@ == (TrackingSettingsView {
                open_tracking: Some(OpenTrackingSettingView {
                    enable: true,
                    substitution_tag: substitution_tag@,
                }),
                ..self@
            }),
    {
        TrackingSettingsBuilder {
            settings: TrackingSettings {
                open_tracking: Some(OpenTrackingSetting {
                    enable: true,
                    substitution_tag: substitution_tag.to_owned(),
                }),
                ..self.settings
            },
        }
    }

    /// Configures subscription tracking with the tag to substitute and the
    /// optional text and html bodies; calling this always enables it.
    pub fn substitution_tag(
        self,
        substitution_tag: &str,
        text: Option<String>,
        html: Option<String>,
    ) -> (r: Self)
        ensures
            r@ == (TrackingSettingsView {
                subscription_tracking: Some(SubscriptionTrackingSettingView {
                    enable: true,
                    text: opt_view(text),
                    html: opt_view(html),
                    substitution_tag: substitution_tag@,
                }),
                ..self@
            }),
    {
        TrackingSettingsBuilder {
            settings: TrackingSettings {
                subscription_tracking: Some(SubscriptionTrackingSetting {
                    enable: true,
                    text,
                    html,
                    substitution_tag: substitution_tag.to_owned(),
                }),
                ..self.settings
            },
        }
    }

    /// Consumes the builder and returns the finished `TrackingSettings`.
    pub fn build(self) -> (r: TrackingSettings)
        ensures
            r@ == self@,
    {
        self.settings
    }
}

} // verus!
