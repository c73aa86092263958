//! The top-level message node of the payload, its builder, and the
//! serializer that renders the whole graph into the wire JSON document.

use vstd::prelude::*;
use crate::attachment::{
    attachments_json, attachments_view, write_attachment_array, Attachment, AttachmentView,
};
use crate::json::{
    jarr, jint, jobj, joined, jstr, jstr_elems, lemma_obj_close, lemma_obj_field_first,
    lemma_obj_field_next, lemma_obj_open, push_char, strs, write_jint, write_jstr,
    write_jstr_array, write_lit, write_sep,
};
use crate::kv::{kv_json, kv_insert, KvPairs, write_kv};
use crate::mail_settings::{mail_settings_json, write_mail_settings, MailSettings,
    MailSettingsView};
use crate::personalization::{
    personalizations_json, personalizations_view, write_personalization_array, Personalization,
    PersonalizationView,
};
use crate::tracking_settings::{
    tracking_settings_json, write_tracking_settings, TrackingSettings, TrackingSettingsView,
};
use crate::{
    asm_json, contact_json, contents_json, contents_view, opt_view, write_asm, write_contact,
    write_content_array, Asm, AsmView, Contact, ContactView, Content, ContentView,
};

verus! {

/// The root of the payload graph: everything the send-message endpoint
/// takes. Use a `MessageBuilder` to construct it, then `to_json` to render
/// the request body.
pub struct Message {
    personalizations: Vec<Personalization>,
    from: Contact,
    reply_to: Option<Contact>,
    subject: String,
    content: Vec<Content>,
    attachments: Vec<Attachment>,
    template_id: Option<String>,
    sections: KvPairs,
    headers: KvPairs,
    categories: Vec<String>,
    custom_args: KvPairs,
    send_at: Option<i32>,
    batch_id: Option<String>,
    asm_group: Option<Asm>,
    ip_pool_name: Option<String>,
    mail_settings: Option<MailSettings>,
    tracking_settings: Option<TrackingSettings>,
}

/// Mathematical content of a `Message`.
pub struct MessageView {
    pub personalizations: Seq<PersonalizationView>,
    pub from: ContactView,
    pub reply_to: Option<ContactView>,
    pub subject: Seq<char>,
    pub content: Seq<ContentView>,
    pub attachments: Seq<AttachmentView>,
    pub template_id: Option<Seq<char>>,
    pub sections: Seq<(Seq<char>, Seq<char>)>,
    pub headers: Seq<(Seq<char>, Seq<char>)>,
    pub categories: Seq<Seq<char>>,
    pub custom_args: Seq<(Seq<char>, Seq<char>)>,
    pub send_at: Option<i32>,
    pub batch_id: Option<Seq<char>>,
    pub asm_group: Option<AsmView>,
    pub ip_pool_name: Option<Seq<char>>,
    pub mail_settings: Option<MailSettingsView>,
    pub tracking_settings: Option<TrackingSettingsView>,
}

impl View for Message {
    type V = MessageView;

    closed spec fn view(&self) -> MessageView {
        MessageView {
            personalizations: personalizations_view(self.personalizations@),
            from: self.from@,
            reply_to: match self.reply_to {
                Some(c) => Some(c@),
                None => None,
            },
            subject: self.subject@,
            content: contents_view(self.content@),
            attachments: attachments_view(self.attachments@),
            template_id: opt_view(self.template_id),
            sections: self.sections@,
            headers: self.headers@,
            categories: strs(self.categories@),
            custom_args: self.custom_args@,
            send_at: self.send_at,
            batch_id: opt_view(self.batch_id),
            asm_group: match self.asm_group {
                Some(a) => Some(a@),
                None => None,
            },
            ip_pool_name: opt_view(self.ip_pool_name),
            mail_settings: match self.mail_settings {
                Some(s) => Some(s@),
                None => None,
            },
            tracking_settings: match self.tracking_settings {
                Some(s) => Some(s@),
                None => None,
            },
        }
    }
}

/// The first fragments of the rendered message, in declaration order: the
/// personalization list where it is not empty, the from-contact always, the
/// reply-to contact where set, the subject always, then content and
/// attachments where their lists are not empty.
pub open spec fn message_fields_a(m: MessageView) -> Seq<Seq<char>> {
    let fs = Seq::<Seq<char>>::empty();
    let fs = if m.personalizations.len() > 0 {
        fs.push("\"personalizations\":"@ + personalizations_json(m.personalizations))
    } else {
        fs
    };
    let fs = fs.push("\"from\":"@ + contact_json(m.from));
    let fs = if m.reply_to is Some {
        fs.push("\"reply_to\":"@ + contact_json(m.reply_to->0))
    } else {
        fs
    };
    let fs = fs.push("\"subject\":"@ + jstr(m.subject));
    let fs = if m.content.len() > 0 {
        fs.push("\"content\":"@ + contents_json(m.content))
    } else {
        fs
    };
    let fs = if m.attachments.len() > 0 {
        fs.push("\"attachments\":"@ + attachments_json(m.attachments))
    } else {
        fs
    };
    fs
}

/// The middle fragments of the rendered message: template id, the three
/// mappings, the category list and the scheduled-send time, each only where
/// it holds something, appended to the first fragments.
pub open spec fn message_fields_b(m: MessageView) -> Seq<Seq<char>> {
    let fs = message_fields_a(m);
    let fs = if m.template_id is Some {
        fs.push("\"template_id\":"@ + jstr(m.template_id->0))
    } else {
        fs
    };
    let fs = if m.sections.len() > 0 {
        fs.push("\"sections\":"@ + kv_json(m.sections))
    } else {
        fs
    };
    let fs = if m.headers.len() > 0 {
        fs.push("\"headers\":"@ + kv_json(m.headers))
    } else {
        fs
    };
    let fs = if m.categories.len() > 0 {
        fs.push("\"categories\":"@ + jarr(jstr_elems(m.categories)))
    } else {
        fs
    };
    let fs = if m.custom_args.len() > 0 {
        fs.push("\"custom_args\":"@ + kv_json(m.custom_args))
    } else {
        fs
    };
    let fs = if m.send_at is Some {
        fs.push("\"send_at\":"@ + jint(m.send_at->0 as int))
    } else {
        fs
    };
    fs
}

/// All fragments of the rendered message: the batch id, the subscription
/// node (under the wire key `asm`), the ip-pool name and the two settings
/// nodes, each only where set, appended to the middle fragments.
pub open spec fn message_fields(m: MessageView) -> Seq<Seq<char>> {
    let fs = message_fields_b(m);
    let fs = if m.batch_id is Some {
        fs.push("\"batch_id\":"@ + jstr(m.batch_id->0))
    } else {
        fs
    };
    let fs = if m.asm_group is Some {
        fs.push("\"asm\":"@ + asm_json(m.asm_group->0))
    } else {
        fs
    };
    let fs = if m.ip_pool_name is Some {
        fs.push("\"ip_pool_name\":"@ + jstr(m.ip_pool_name->0))
    } else {
        fs
    };
    let fs = if m.mail_settings is Some {
        fs.push("\"mail_settings\":"@ + mail_settings_json(m.mail_settings->0))
    } else {
        fs
    };
    let fs = if m.tracking_settings is Some {
        fs.push("\"tracking_settings\":"@ + tracking_settings_json(m.tracking_settings->0))
    } else {
        fs
    };
    fs
}

/// The rendered JSON document of a message.
pub open spec fn message_json(m: MessageView) -> Seq<char> {
    jobj(message_fields(m))
}

/// A message built with nothing beyond its required from-contact and
/// subject renders with those two fields alone: every optional field, empty
/// list and empty mapping is omitted.
pub proof fn message_minimal_json(m: MessageView)
    requires
        m.personalizations.len() == 0,
        m.reply_to is None,
        m.content.len() == 0,
        m.attachments.len() == 0,
        m.template_id is None,
        m.sections.len() == 0,
        m.headers.len() == 0,
        m.categories.len() == 0,
        m.custom_args.len() == 0,
        m.send_at is None,
        m.batch_id is None,
        m.asm_group is None,
        m.ip_pool_name is None,
        m.mail_settings is None,
        m.tracking_settings is None,
    ensures
        message_json(m) == seq!['{'] + ("\"from\":"@ + contact_json(m.from)) + seq![','] + (
        "\"subject\":"@ + jstr(m.subject)) + seq!['}'],
{
    let f0 = "\"from\":"@ + contact_json(m.from);
    let f1 = "\"subject\":"@ + jstr(m.subject);
    let e0 = Seq::<Seq<char>>::empty();
    crate::json::lemma_joined_push(e0, f0);
    crate::json::lemma_joined_push(e0.push(f0), f1);
    assert(message_fields(m) =~= e0.push(f0).push(f1));
    assert(message_json(m) =~= seq!['{'] + f0 + seq![','] + f1 + seq!['}']);
}

/// Rendering is deterministic: messages with the same contents give the
/// same JSON text, character for character. Keys stand in a fixed
/// declaration order; the wire format gives that order no meaning.
pub proof fn message_json_deterministic(a: MessageView, b: MessageView)
    requires
        a == b,
    ensures
        message_json(a) == message_json(b),
{
}

/// Appends the opening brace and the first fragments of the message.
fn write_message_a(out: &mut String, m: &Message)
    ensures
        final(out)@ == old(out)@ + seq!['{'] + joined(message_fields_a(m@)),
        message_fields_a(m@).len() > 0,
{
    let ghost base = out@;
    let ghost mut fs: Seq<Seq<char>> = Seq::empty();
    let mut first = true;
    push_char(out, '{');
    proof {
        lemma_obj_open(base);
    }
    if m.personalizations.len() > 0 {
        write_sep(out, &mut first);
        write_lit(out, "\"personalizations\":");
        write_personalization_array(out, &m.personalizations);
        proof {
            lemma_obj_field_first(
                base,
                fs,
                "\"personalizations\":"@,
                personalizations_json(m@.personalizations),
            );
            fs = fs.push("\"personalizations\":"@ + personalizations_json(m@.personalizations));
        }
    }
    write_sep(out, &mut first);
    write_lit(out, "\"from\":");
    write_contact(out, &m.from);
    proof {
        if fs.len() == 0 {
            lemma_obj_field_first(base, fs, "\"from\":"@, contact_json(m@.from));
        } else {
            lemma_obj_field_next(base, fs, "\"from\":"@, contact_json(m@.from));
        }
        fs = fs.push("\"from\":"@ + contact_json(m@.from));
    }
    if let Some(c) = &m.reply_to {
        push_char(out, ',');
        write_lit(out, "\"reply_to\":");
        write_contact(out, c);
        proof {
            lemma_obj_field_next(base, fs, "\"reply_to\":"@, contact_json(m@.reply_to->0));
            fs = fs.push("\"reply_to\":"@ + contact_json(m@.reply_to->0));
        }
    }
    push_char(out, ',');
    write_lit(out, "\"subject\":");
    write_jstr(out, m.subject.as_str());
    proof {
        lemma_obj_field_next(base, fs, "\"subject\":"@, jstr(m@.subject));
        fs = fs.push("\"subject\":"@ + jstr(m@.subject));
    }
    if m.content.len() > 0 {
        push_char(out, ',');
        write_lit(out, "\"content\":");
        write_content_array(out, &m.content);
        proof {
            lemma_obj_field_next(base, fs, "\"content\":"@, contents_json(m@.content));
            fs = fs.push("\"content\":"@ + contents_json(m@.content));
        }
    }
    if m.attachments.len() > 0 {
        push_char(out, ',');
        write_lit(out, "\"attachments\":");
        write_attachment_array(out, &m.attachments);
        proof {
            lemma_obj_field_next(base, fs, "\"attachments\":"@, attachments_json(m@.attachments));
            fs = fs.push("\"attachments\":"@ + attachments_json(m@.attachments));
        }
    }
    proof {
        assert(fs == message_fields_a(m@));
    }
}

/// Appends the middle fragments of the message.
fn write_message_b(out: &mut String, m: &Message, Ghost(base): Ghost<Seq<char>>)
    requires
        old(out)@ == base + seq!['{'] + joined(message_fields_a(m@)),
        message_fields_a(m@).len() > 0,
    ensures
        final(out)@ == base + seq!['{'] + joined(message_fields_b(m@)),
        message_fields_b(m@).len() > 0,
{
    let ghost mut fs: Seq<Seq<char>> = message_fields_a(m@);
    if let Some(t) = &m.template_id {
        push_char(out, ',');
        write_lit(out, "\"template_id\":");
        write_jstr(out, t.as_str());
        proof {
            lemma_obj_field_next(base, fs, "\"template_id\":"@, jstr(m@.template_id->0));
            fs = fs.push("\"template_id\":"@ + jstr(m@.template_id->0));
        }
    }
    if m.sections.len() > 0 {
        push_char(out, ',');
        write_lit(out, "\"sections\":");
        write_kv(out, &m.sections);
        proof {
            lemma_obj_field_next(base, fs, "\"sections\":"@, kv_json(m@.sections));
            fs = fs.push("\"sections\":"@ + kv_json(m@.sections));
        }
    }
    if m.headers.len() > 0 {
        push_char(out, ',');
        write_lit(out, "\"headers\":");
        write_kv(out, &m.headers);
        proof {
            lemma_obj_field_next(base, fs, "\"headers\":"@, kv_json(m@.headers));
            fs = fs.push("\"headers\":"@ + kv_json(m@.headers));
        }
    }
    if m.categories.len() > 0 {
        push_char(out, ',');
        write_lit(out, "\"categories\":");
        write_jstr_array(out, &m.categories);
        proof {
            lemma_obj_field_next(base, fs, "\"categories\":"@, jarr(jstr_elems(m@.categories)));
            fs = fs.push("\"categories\":"@ + jarr(jstr_elems(m@.categories)));
        }
    }
    if m.custom_args.len() > 0 {
        push_char(out, ',');
        write_lit(out, "\"custom_args\":");
        write_kv(out, &m.custom_args);
        proof {
            lemma_obj_field_next(base, fs, "\"custom_args\":"@, kv_json(m@.custom_args));
            fs = fs.push("\"custom_args\":"@ + kv_json(m@.custom_args));
        }
    }
    if let Some(t) = m.send_at {
        push_char(out, ',');
        write_lit(out, "\"send_at\":");
        write_jint(out, t);
        proof {
            lemma_obj_field_next(base, fs, "\"send_at\":"@, jint(m@.send_at->0 as int));
            fs = fs.push("\"send_at\":"@ + jint(m@.send_at->0 as int));
        }
    }
    proof {
        assert(fs == message_fields_b(m@));
    }
}

/// Appends the rendered message.
pub(crate) fn write_message(out: &mut String, m: &Message)
    ensures
        final(out)@ == old(out)@ + message_json(m@),
{
    let ghost base = out@;
    write_message_a(out, m);
    write_message_b(out, m, Ghost(base));
    let ghost mut fs: Seq<Seq<char>> = message_fields_b(m@);
    if let Some(b) = &m.batch_id {
        push_char(out, ',');
        write_lit(out, "\"batch_id\":");
        write_jstr(out, b.as_str());
        proof {
            lemma_obj_field_next(base, fs, "\"batch_id\":"@, jstr(m@.batch_id->0));
            fs = fs.push("\"batch_id\":"@ + jstr(m@.batch_id->0));
        }
    }
    if let Some(a) = &m.asm_group {
        push_char(out, ',');
        write_lit(out, "\"asm\":");
        write_asm(out, a);
        proof {
            lemma_obj_field_next(base, fs, "\"asm\":"@, asm_json(m@.asm_group->0));
            fs = fs.push("\"asm\":"@ + asm_json(m@.asm_group->0));
        }
    }
    if let Some(p) = &m.ip_pool_name {
        push_char(out, ',');
        write_lit(out, "\"ip_pool_name\":");
        write_jstr(out, p.as_str());
        proof {
            lemma_obj_field_next(base, fs, "\"ip_pool_name\":"@, jstr(m@.ip_pool_name->0));
            fs = fs.push("\"ip_pool_name\":"@ + jstr(m@.ip_pool_name->0));
        }
    }
    if let Some(s) = &m.mail_settings {
        push_char(out, ',');
        write_lit(out, "\"mail_settings\":");
        write_mail_settings(out, s);
        proof {
            lemma_obj_field_next(
                base,
                fs,
                "\"mail_settings\":"@,
                mail_settings_json(m@.mail_settings->0),
            );
            fs = fs.push("\"mail_settings\":"@ + mail_settings_json(m@.mail_settings->0));
        }
    }
    if let Some(s) = &m.tracking_settings {
        push_char(out, ',');
        write_lit(out, "\"tracking_settings\":");
        write_tracking_settings(out, s);
        proof {
            lemma_obj_field_next(
                base,
                fs,
                "\"tracking_settings\":"@,
                tracking_settings_json(m@.tracking_settings->0),
            );
            fs = fs.push(
                "\"tracking_settings\":"@ + tracking_settings_json(m@.tracking_settings->0),
            );
        }
    }
    push_char(out, '}');
    proof {
        lemma_obj_close(base, fs);
        assert(fs == message_fields(m@));
    }
}

impl Message {
    /// Renders the whole message into the JSON request body. The rendering
    /// is total: it cannot fail, which is proved rather than signalled.
    pub fn to_json(&self) -> (r: String)
        ensures
            r@ == message_json(self@),
    {
        let mut out = String::new();
        write_message(&mut out, self);
        proof {
            assert(out@ =~= message_json(self@));
        }
        out
    }
}

/// Builder pattern for `Message`. The from-contact and the subject are
/// required and handed to `new`; the remote service also expects at least
/// one personalization, which is deliberately not enforced here. Call
/// `build()` to consume the builder and obtain the finished `Message`.
pub struct MessageBuilder {
    message: Message,
}

impl View for MessageBuilder {
    type V = MessageView;

    closed spec fn view(&self) -> MessageView {
        self.message@
    }
}

impl MessageBuilder {
    /// Starts a message from its required fields: the from-contact and the
    /// subject.
    pub fn new(from: Contact, subject: &str) -> (r: Self)
        ensures
            r@ == (MessageView {
                personalizations: Seq::empty(),
                from: from@,
                reply_to: None,
                subject: subject@,
                content: Seq::empty(),
                attachments: Seq::empty(),
                template_id: None,
                sections: Seq::empty(),
                headers: Seq::empty(),
                categories: Seq::empty(),
                custom_args: Seq::empty(),
                send_at: None,
                batch_id: None,
                asm_group: None,
                ip_pool_name: None,
                mail_settings: None,
                tracking_settings: None,
            }),
    {
        let r = MessageBuilder {
            message: Message {
                personalizations: Vec::new(),
                from,
                reply_to: None,
                subject: subject.to_owned(),
                content: Vec::new(),
                attachments: Vec::new(),
                template_id: None,
                sections: KvPairs::new(),
                headers: KvPairs::new(),
                categories: Vec::new(),
                custom_args: KvPairs::new(),
                send_at: None,
                batch_id: None,
                asm_group: None,
                ip_pool_name: None,
                mail_settings: None,
                tracking_settings: None,
            },
        };
        proof {
            assert(r@.personalizations =~= Seq::<PersonalizationView>::empty());
            assert(r@.content =~= Seq::<ContentView>::empty());
            assert(r@.attachments =~= Seq::<AttachmentView>::empty());
            assert(r@.categories =~= Seq::<Seq<char>>::empty());
        }
        r
    }

    /// Adds one personalization, at the end of the list. The remote service
    /// expects at least one.
    pub fn personalization(self, per: Personalization) -> (r: Self)
        ensures
            r@ == (MessageView {
                personalizations: self@.personalizations.push(per@),
                ..self@
            }),
    {
        let ghost sv = self@;
        let mut m = self.message;
        m.personalizations.push(per);
        let r = MessageBuilder { message: m };
        proof {
            assert(r@.personalizations =~= sv.personalizations.push(per@));
        }
        r
    }

    /// Replaces the personalization list wholesale.
    pub fn personalizations(self, data: Vec<Personalization>) -> (r: Self)
        ensures
            r@ == (MessageView {
                personalizations: personalizations_view(data@),
                ..self@
            }),
    {
        let mut m = self.message;
        m.personalizations = data;
        MessageBuilder { message: m }
    }

    /// Sets the reply-to contact.
    pub fn reply_to(self, contact: Contact) -> (r: Self)
        ensures
            r@ == (MessageView { reply_to: Some(contact@), ..self@ }),
    {
        let mut m = self.message;
        m.reply_to = Some(contact);
        MessageBuilder { message: m }
    }

    /// Adds one content block, at the end of the list.
    pub fn content(self, content: Content) -> (r: Self)
        ensures
            r@ == (MessageView { content: self@.content.push(content@), ..self@ }),
    {
        let ghost sv = self@;
        let mut m = self.message;
        m.content.push(content);
        let r = MessageBuilder { message: m };
        proof {
            assert(r@.content =~= sv.content.push(content@));
        }
        r
    }

    /// Adds one attachment, at the end of the list.
    pub fn attachment(self, attachment: Attachment) -> (r: Self)
        ensures
            r@ == (MessageView { attachments: self@.attachments.push(attachment@), ..self@ }),
    {
        let ghost sv = self@;
        let mut m = self.message;
        m.attachments.push(attachment);
        let r = MessageBuilder { message: m };
        proof {
            assert(r@.attachments =~= sv.attachments.push(attachment@));
        }
        r
    }

    /// Sets the template id.
    pub fn template_id(self, id: &str) -> (r: Self)
        ensures
            r@ == (MessageView { template_id: Some(id@), ..self@ }),
    {
        let mut m = self.message;
        m.template_id = Some(id.to_owned());
        MessageBuilder { message: m }
    }

    /// Puts one entry into the sections mapping.
    pub fn section(self, key: &str, value: &str) -> (r: Self)
        ensures
            r@ == (MessageView { sections: kv_insert(self@.sections, key@, value@), ..self@ }),
    {
        let mut m = self.message;
        m.sections.insert(key, value);
        MessageBuilder { message: m }
    }

    /// Puts one entry into the headers mapping.
    pub fn header(self, key: &str, value: &str) -> (r: Self)
        ensures
            r@ == (MessageView { headers: kv_insert(self@.headers, key@, value@), ..self@ }),
    {
        let mut m = self.message;
        m.headers.insert(key, value);
        MessageBuilder { message: m }
    }

    /// Adds one category, at the end of the list.
    pub fn category(self, category: &str) -> (r: Self)
        ensures
            r@ == (MessageView { categories: self@.categories.push(category@), ..self@ }),
    {
        let ghost sv = self@;
        let mut m = self.message;
        m.categories.push(category.to_owned());
        let r = MessageBuilder { message: m };
        proof {
            assert(r@.categories =~= sv.categories.push(category@));
        }
        r
    }

    /// Puts one entry into the custom-args mapping.
    pub fn custom_arg(self, key: &str, value: &str) -> (r: Self)
        ensures
            r@ == (MessageView {
                custom_args: kv_insert(self@.custom_args, key@, value@),
                ..self@
            }),
    {
        let mut m = self.message;
        m.custom_args.insert(key, value);
        MessageBuilder { message: m }
    }

    /// Sets the scheduled-send time, in epoch seconds.
    pub fn send_at(self, time: i32) -> (r: Self)
        ensures
            r@ == (MessageView { send_at: Some(time), ..self@ }),
    {
        let mut m = self.message;
        m.send_at = Some(time);
        MessageBuilder { message: m }
    }

    /// Sets the batch id.
    pub fn batch_id(self, id: &str) -> (r: Self)
        ensures
            r@ == (MessageView { batch_id: Some(id@), ..self@ }),
    {
        let mut m = self.message;
        m.batch_id = Some(id.to_owned());
        MessageBuilder { message: m }
    }

    /// Sets the subscription-management node, which renders under the wire
    /// key `asm`. Use an `AsmBuilder` to construct it.
    pub fn asm_group(self, group: Asm) -> (r: Self)
        ensures
            r@ == (MessageView { asm_group: Some(group@), ..self@ }),
    {
        let mut m = self.message;
        m.asm_group = Some(group);
        MessageBuilder { message: m }
    }

    /// Sets the ip-pool name.
    pub fn ip_pool_name(self, name: &str) -> (r: Self)
        ensures
            r@ == (MessageView { ip_pool_name: Some(name@), ..self@ }),
    {
        let mut m = self.message;
        m.ip_pool_name = Some(name.to_owned());
        MessageBuilder { message: m }
    }

    /// Sets the mail-settings node. Use a `MailSettingsBuilder` to
    /// construct it.
    pub fn mail_settings(self, settings: MailSettings) -> (r: Self)
        ensures
            r@ == (MessageView { mail_settings: Some(settings@), ..self@ }),
    {
        let mut m = self.message;
        m.mail_settings = Some(settings);
        MessageBuilder { message: m }
    }

    /// Sets the tracking-settings node. Use a `TrackingSettingsBuilder` to
    /// construct it.
    pub fn tracking_settings(self, settings: TrackingSettings) -> (r: Self)
        ensures
            r@ == (MessageView { tracking_settings: Some(settings@), ..self@ }),
    {
        let mut m = self.message;
        m.tracking_settings = Some(settings);
        MessageBuilder { message: m }
    }

    /// Consumes the builder and returns the finished `Message`.
    pub fn build(self) -> (r: Message)
        ensures
            r@ == self@,
    {
        self.message
    }
}

} // verus!
