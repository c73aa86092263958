//! Builders and a serializer for the request payload of SendGrid's v3
//! send-message endpoint. Every structural node of the payload has a plain
//! value type and a chainable builder; `Message::to_json` renders the whole
//! graph into the wire JSON document. The library performs no validation and
//! no I/O: the HTTP call is the caller's business.
//!
//! The rendered text is pinned down, field by field, by the spec functions
//! beside each node: an optional field that holds no value, an empty list
//! and an empty mapping are omitted outright, never emitted as `null` or as
//! an empty placeholder. Keys appear in a fixed declaration order; the wire
//! format gives that order no meaning.

use vstd::prelude::*;

pub mod attachment;
pub mod json;
pub mod kv;
pub mod mail_settings;
pub mod message;
pub mod personalization;
pub mod tracking_settings;

pub use crate::attachment::AttachmentBuilder;
pub use crate::mail_settings::MailSettingsBuilder;
pub use crate::message::MessageBuilder;
pub use crate::personalization::PersonalizationBuilder;
pub use crate::tracking_settings::{GaTrackingSettingBuilder, TrackingSettingsBuilder};

use crate::json::{
    jarr, jint, jint_elems, jobj, jstr, lemma_arr_close, lemma_arr_elem_first,
    lemma_arr_elem_next, lemma_arr_open, lemma_obj_close, lemma_obj_field_first,
    lemma_obj_field_next, lemma_obj_open, joined, push_char, write_jint, write_jint_array,
    write_jstr, write_lit,
};

verus! {

/// The view of an optional string.
pub open spec fn opt_view(o: Option<String>) -> Option<Seq<char>> {
    match o {
        Some(s) => Some(s@),
        None => None,
    }
}

/// Holds the data of the `contact` nodes of the payload (from, to, cc, bcc,
/// reply-to). Use a `ContactBuilder` to construct it.
pub struct Contact {
    email: String,
    name: Option<String>,
}

/// Mathematical content of a `Contact`.
pub struct ContactView {
    pub email: Seq<char>,
    pub name: Option<Seq<char>>,
}

impl View for Contact {
    type V = ContactView;

    closed spec fn view(&self) -> ContactView {
        ContactView {
            email: self.email@,
            name: match self.name {
                Some(n) => Some(n@),
                None => None,
            },
        }
    }
}

/// The fragments of the rendered contact: the email always, the display
/// name only where one was set.
pub open spec fn contact_fields(c: ContactView) -> Seq<Seq<char>> {
    let fs = Seq::<Seq<char>>::empty();
    let fs = fs.push("\"email\":"@ + jstr(c.email));
    let fs = if c.name is Some { fs.push("\"name\":"@ + jstr(c.name->0)) } else { fs };
    fs
}

/// The rendered JSON object of a contact.
pub open spec fn contact_json(c: ContactView) -> Seq<char> {
    jobj(contact_fields(c))
}

/// A contact built without a display name renders with the email field
/// alone: no other key appears.
pub proof fn contact_minimal_json(c: ContactView)
    requires
        c.name is None,
    ensures
        contact_json(c) == seq!['{'] + ("\"email\":"@ + jstr(c.email)) + seq!['}'],
{
    assert(contact_fields(c) =~= seq!["\"email\":"@ + jstr(c.email)]);
    assert(contact_json(c) =~= seq!['{'] + ("\"email\":"@ + jstr(c.email)) + seq!['}']);
}

/// Appends the rendered contact.
pub(crate) fn write_contact(out: &mut String, c: &Contact)
    ensures
        final(out)@ == old(out)@ + contact_json(c@),
{
    let ghost base = out@;
    let ghost mut fs: Seq<Seq<char>> = Seq::empty();
    push_char(out, '{');
    proof {
        lemma_obj_open(base);
    }
    write_lit(out, "\"email\":");
    write_jstr(out, c.email.as_str());
    proof {
        lemma_obj_field_first(base, fs, "\"email\":"@, jstr(c@.email));
        fs = fs.push("\"email\":"@ + jstr(c@.email));
    }
    if let Some(n) = &c.name {
        push_char(out, ',');
        write_lit(out, "\"name\":");
        write_jstr(out, n.as_str());
        proof {
            lemma_obj_field_next(base, fs, "\"name\":"@, jstr(c@.name->0));
            fs = fs.push("\"name\":"@ + jstr(c@.name->0));
        }
    }
    push_char(out, '}');
    proof {
        lemma_obj_close(base, fs);
        assert(fs == contact_fields(c@));
    }
}

/// The views of a sequence of contacts.
pub open spec fn contacts_view(s: Seq<Contact>) -> Seq<ContactView> {
    s.map_values(|c: Contact| c@)
}

/// Each contact rendered as its JSON object.
pub open spec fn contact_elems(vs: Seq<ContactView>) -> Seq<Seq<char>> {
    vs.map_values(|v: ContactView| contact_json(v))
}

/// The rendered JSON array of a contact list, elements in list order.
pub open spec fn contacts_json(vs: Seq<ContactView>) -> Seq<char> {
    jarr(contact_elems(vs))
}

/// Appends the rendered contact list.
pub(crate) fn write_contact_array(out: &mut String, cs: &Vec<Contact>)
    ensures
        final(out)@ == old(out)@ + contacts_json(contacts_view(cs@)),
{
    let ghost base = out@;
    let ghost es = contact_elems(contacts_view(cs@));
    push_char(out, '[');
    proof {
        lemma_arr_open(base);
        assert(es.take(0) =~= Seq::<Seq<char>>::empty());
    }
    let n = cs.len();
    let mut i: usize = 0;
    while i < n
        invariant
            n == cs@.len(),
            i <= n,
            es == contact_elems(contacts_view(cs@)),
            es.len() == n,
            out@ == base + seq!['['] + joined(es.take(i as int)),
        decreases n - i,
    {
        if i > 0 {
            push_char(out, ',');
        }
        write_contact(out, &cs[i]);
        proof {
            assert(contacts_view(cs@)[i as int] == cs@[i as int]@);
            assert(es[i as int] == contact_json(cs@[i as int]@));
            if i == 0 {
                lemma_arr_elem_first(base, es.take(0), es[0]);
            } else {
                lemma_arr_elem_next(base, es.take(i as int), es[i as int]);
            }
            assert(es.take(i as int).push(es[i as int]) =~= es.take(i as int + 1));
        }
        i = i + 1;
    }
    push_char(out, ']');
    proof {
        assert(es.take(n as int) =~= es);
        lemma_arr_close(base, es);
    }
}

/// Contacts render in exactly the order they were added: a list of three
/// gives the three objects left to right with commas between.
pub proof fn contacts_render_in_order(a: ContactView, b: ContactView, c: ContactView)
    ensures
        contacts_json(seq![a, b, c]) == seq!['['] + contact_json(a) + seq![','] + contact_json(b)
            + seq![','] + contact_json(c) + seq![']'],
{
    let fa = contact_json(a);
    let fb = contact_json(b);
    let fc = contact_json(c);
    let e0 = Seq::<Seq<char>>::empty();
    crate::json::lemma_joined_push(e0, fa);
    crate::json::lemma_joined_push(e0.push(fa), fb);
    crate::json::lemma_joined_push(e0.push(fa).push(fb), fc);
    assert(contact_elems(seq![a, b, c]) =~= e0.push(fa).push(fb).push(fc));
    assert(contacts_json(seq![a, b, c]) =~= seq!['['] + fa + seq![','] + fb + seq![','] + fc
        + seq![']']);
}

/// Builder pattern for `Contact`. Call `build()` to consume the builder and
/// obtain the finished `Contact`.
pub struct ContactBuilder {
    contact: Contact,
}

impl View for ContactBuilder {
    type V = ContactView;

    closed spec fn view(&self) -> ContactView {
        self.contact@
    }
}

impl ContactBuilder {
    /// Starts a contact from its one required field, the email address.
    pub fn new(email: &str) -> (r: Self)
        ensures
            r@ == (ContactView { email: email@, name: None }),
    {
        ContactBuilder { contact: Contact { email: email.to_owned(), name: None } }
    }

    /// Sets the display name of the contact.
    pub fn name(self, name: &str) -> (r: Self)
        ensures
            r@ == (ContactView { name: Some(name@), ..self@ }),
    {
        ContactBuilder {
            contact: Contact { email: self.contact.email, name: Some(name.to_owned()) },
        }
    }

    /// Consumes the builder and returns the finished `Contact`.
    pub fn build(self) -> (r: Contact)
        ensures
            r@ == self@,
    {
        self.contact
    }
}

/// One content block of a message: a mime type and a body. On the wire the
/// mime type renders under the key `type`.
pub struct Content {
    c_type: String,
    value: String,
}

/// Mathematical content of a `Content`.
pub struct ContentView {
    pub c_type: Seq<char>,
    pub value: Seq<char>,
}

impl View for Content {
    type V = ContentView;

    closed spec fn view(&self) -> ContentView {
        ContentView { c_type: self.c_type@, value: self.value@ }
    }
}

/// The fragments of the rendered content block: both fields always appear.
pub open spec fn content_fields(c: ContentView) -> Seq<Seq<char>> {
    let fs = Seq::<Seq<char>>::empty();
    let fs = fs.push("\"type\":"@ + jstr(c.c_type));
    let fs = fs.push("\"value\":"@ + jstr(c.value));
    fs
}

/// The rendered JSON object of a content block.
pub open spec fn content_json(c: ContentView) -> Seq<char> {
    jobj(content_fields(c))
}

/// A content block always renders its mime type under the wire key `type`,
/// then its body under `value`, and nothing else.
pub proof fn content_json_shape(c: ContentView)
    ensures
        content_json(c) == seq!['{'] + ("\"type\":"@ + jstr(c.c_type)) + seq![','] + ("\"value\":"@
            + jstr(c.value)) + seq!['}'],
{
    let ft = "\"type\":"@ + jstr(c.c_type);
    let fv = "\"value\":"@ + jstr(c.value);
    let e0 = Seq::<Seq<char>>::empty();
    crate::json::lemma_joined_push(e0, ft);
    crate::json::lemma_joined_push(e0.push(ft), fv);
    assert(content_fields(c) =~= e0.push(ft).push(fv));
    assert(content_json(c) =~= seq!['{'] + ft + seq![','] + fv + seq!['}']);
}

impl Content {
    /// Constructs a content block from its mime type and its body.
    pub fn new(c_type: &str, value: &str) -> (r: Self)
        ensures
            r@ == (ContentView { c_type: c_type@, value: value@ }),
    {
        Content { c_type: c_type.to_owned(), value: value.to_owned() }
    }
}

/// Appends the rendered content block.
pub(crate) fn write_content(out: &mut String, c: &Content)
    ensures
        final(out)@ == old(out)@ + content_json(c@),
{
    let ghost base = out@;
    let ghost mut fs: Seq<Seq<char>> = Seq::empty();
    push_char(out, '{');
    proof {
        lemma_obj_open(base);
    }
    write_lit(out, "\"type\":");
    write_jstr(out, c.c_type.as_str());
    proof {
        lemma_obj_field_first(base, fs, "\"type\":"@, jstr(c@.c_type));
        fs = fs.push("\"type\":"@ + jstr(c@.c_type));
    }
    push_char(out, ',');
    write_lit(out, "\"value\":");
    write_jstr(out, c.value.as_str());
    proof {
        lemma_obj_field_next(base, fs, "\"value\":"@, jstr(c@.value));
        fs = fs.push("\"value\":"@ + jstr(c@.value));
    }
    push_char(out, '}');
    proof {
        lemma_obj_close(base, fs);
        assert(fs == content_fields(c@));
    }
}

/// The views of a sequence of content blocks.
pub open spec fn contents_view(s: Seq<Content>) -> Seq<ContentView> {
    s.map_values(|c: Content| c@)
}

/// Each content block rendered as its JSON object.
pub open spec fn content_elems(vs: Seq<ContentView>) -> Seq<Seq<char>> {
    vs.map_values(|v: ContentView| content_json(v))
}

/// The rendered JSON array of a content list, elements in list order.
pub open spec fn contents_json(vs: Seq<ContentView>) -> Seq<char> {
    jarr(content_elems(vs))
}

/// Appends the rendered content list.
pub(crate) fn write_content_array(out: &mut String, cs: &Vec<Content>)
    ensures
        final(out)@ == old(out)@ + contents_json(contents_view(cs@)),
{
    let ghost base = out@;
    let ghost es = content_elems(contents_view(cs@));
    push_char(out, '[');
    proof {
        lemma_arr_open(base);
        assert(es.take(0) =~= Seq::<Seq<char>>::empty());
    }
    let n = cs.len();
    let mut i: usize = 0;
    while i < n
        invariant
            n == cs@.len(),
            i <= n,
            es == content_elems(contents_view(cs@)),
            es.len() == n,
            out@ == base + seq!['['] + joined(es.take(i as int)),
        decreases n - i,
    {
        if i > 0 {
            push_char(out, ',');
        }
        write_content(out, &cs[i]);
        proof {
            assert(contents_view(cs@)[i as int] == cs@[i as int]@);
            assert(es[i as int] == content_json(cs@[i as int]@));
            if i == 0 {
                lemma_arr_elem_first(base, es.take(0), es[0]);
            } else {
                lemma_arr_elem_next(base, es.take(i as int), es[i as int]);
            }
            assert(es.take(i as int).push(es[i as int]) =~= es.take(i as int + 1));
        }
        i = i + 1;
    }
    push_char(out, ']');
    proof {
        assert(es.take(n as int) =~= es);
        lemma_arr_close(base, es);
    }
}

/// The subscription-management node of the payload: a group id and the
/// group ids to display. Use an `AsmBuilder` to construct it.
pub struct Asm {
    group_id: i32,
    groups_to_display: Vec<i32>,
}

/// Mathematical content of an `Asm`.
pub struct AsmView {
    pub group_id: i32,
    pub groups_to_display: Seq<i32>,
}

impl View for Asm {
    type V = AsmView;

    closed spec fn view(&self) -> AsmView {
        AsmView { group_id: self.group_id, groups_to_display: self.groups_to_display@ }
    }
}

/// The fragments of the rendered subscription node: the group id always,
/// the display list only where it is not empty.
pub open spec fn asm_fields(a: AsmView) -> Seq<Seq<char>> {
    let fs = Seq::<Seq<char>>::empty();
    let fs = fs.push("\"group_id\":"@ + jint(a.group_id as int));
    let fs = if a.groups_to_display.len() > 0 {
        fs.push("\"groups_to_display\":"@ + jarr(jint_elems(a.groups_to_display)))
    } else {
        fs
    };
    fs
}

/// The rendered JSON object of a subscription node.
pub open spec fn asm_json(a: AsmView) -> Seq<char> {
    jobj(asm_fields(a))
}

/// A subscription node with no display groups renders with the group id
/// alone: the empty list is omitted, not emitted.
pub proof fn asm_minimal_json(a: AsmView)
    requires
        a.groups_to_display.len() == 0,
    ensures
        asm_json(a) == seq!['{'] + ("\"group_id\":"@ + jint(a.group_id as int)) + seq!['}'],
{
    assert(asm_fields(a) =~= seq!["\"group_id\":"@ + jint(a.group_id as int)]);
    assert(asm_json(a) =~= seq!['{'] + ("\"group_id\":"@ + jint(a.group_id as int)) + seq!['}']);
}

/// Appends the rendered subscription node.
pub(crate) fn write_asm(out: &mut String, a: &Asm)
    ensures
        final(out)@ == old(out)@ + asm_json(a@),
{
    let ghost base = out@;
    let ghost mut fs: Seq<Seq<char>> = Seq::empty();
    push_char(out, '{');
    proof {
        lemma_obj_open(base);
    }
    write_lit(out, "\"group_id\":");
    write_jint(out, a.group_id);
    proof {
        lemma_obj_field_first(base, fs, "\"group_id\":"@, jint(a@.group_id as int));
        fs = fs.push("\"group_id\":"@ + jint(a@.group_id as int));
    }
    if a.groups_to_display.len() > 0 {
        push_char(out, ',');
        write_lit(out, "\"groups_to_display\":");
        write_jint_array(out, &a.groups_to_display);
        proof {
            lemma_obj_field_next(
                base,
                fs,
                "\"groups_to_display\":"@,
                jarr(jint_elems(a@.groups_to_display)),
            );
            fs = fs.push("\"groups_to_display\":"@ + jarr(jint_elems(a@.groups_to_display)));
        }
    }
    push_char(out, '}');
    proof {
        lemma_obj_close(base, fs);
        assert(fs == asm_fields(a@));
    }
}

/// Builder pattern for `Asm`. Call `build()` to consume the builder and
/// obtain the finished `Asm`.
pub struct AsmBuilder {
    node: Asm,
}

impl View for AsmBuilder {
    type V = AsmView;

    closed spec fn view(&self) -> AsmView {
        self.node@
    }
}

impl AsmBuilder {
    /// Starts a subscription node from its one required field, the group id.
    pub fn new(group_id: i32) -> (r: Self)
        ensures
            r@ == (AsmView { group_id, groups_to_display: Seq::empty() }),
    {
        let r = AsmBuilder { node: Asm { group_id, groups_to_display: Vec::new() } };
        r
    }

    /// Adds one group id to the display list, at the end.
    pub fn group_to_display(self, group: i32) -> (r: Self)
        ensures
            r@ == (AsmView {
                groups_to_display: self@.groups_to_display.push(group),
                ..self@
            }),
    {
        let mut node = self.node;
        node.groups_to_display.push(group);
        AsmBuilder { node }
    }

    /// Consumes the builder and returns the finished `Asm`.
    pub fn build(self) -> (r: Asm)
        ensures
            r@ == self@,
    {
        self.node
    }
}

} // verus!
