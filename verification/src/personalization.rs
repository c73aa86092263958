//! The personalization node of the payload and its builder: per-recipient
//! contact lists, an optional subject override, string mappings and an
//! optional scheduled-send time. Every field is optional; an empty list or
//! mapping is omitted from the rendered text.

use vstd::prelude::*;
use crate::json::{
    jarr, jobj, joined, jstr, jint, lemma_arr_close, lemma_arr_elem_first, lemma_arr_elem_next,
    lemma_arr_open, lemma_obj_close, lemma_obj_field_first, lemma_obj_field_next, lemma_obj_open,
    push_char, write_jint, write_jstr, write_lit, write_sep,
};
use crate::kv::{kv_json, KvPairs, write_kv};
use crate::{contacts_json, contacts_view, write_contact_array, Contact, ContactView};

verus! {

/// A per-recipient override block of a message. Use a
/// `PersonalizationBuilder` to construct it.
pub struct Personalization {
    to: Vec<Contact>,
    cc: Vec<Contact>,
    bcc: Vec<Contact>,
    subject: Option<String>,
    headers: KvPairs,
    substitutions: KvPairs,
    dynamic_template_data: KvPairs,
    custom_args: KvPairs,
    send_at: Option<i32>,
}

/// Mathematical content of a `Personalization`.
pub struct PersonalizationView {
    pub to: Seq<ContactView>,
    pub cc: Seq<ContactView>,
    pub bcc: Seq<ContactView>,
    pub subject: Option<Seq<char>>,
    pub headers: Seq<(Seq<char>, Seq<char>)>,
    pub substitutions: Seq<(Seq<char>, Seq<char>)>,
    pub dynamic_template_data: Seq<(Seq<char>, Seq<char>)>,
    pub custom_args: Seq<(Seq<char>, Seq<char>)>,
    pub send_at: Option<i32>,
}

impl View for Personalization {
    type V = PersonalizationView;

    closed spec fn view(&self) -> PersonalizationView {
        PersonalizationView {
            to: contacts_view(self.to@),
            cc: contacts_view(self.cc@),
            bcc: contacts_view(self.bcc@),
            subject: crate::opt_view(self.subject),
            headers: self.headers@,
            substitutions: self.substitutions@,
            dynamic_template_data: self.dynamic_template_data@,
            custom_args: self.custom_args@,
            send_at: self.send_at,
        }
    }
}

/// The fragments of the rendered personalization: each field only where it
/// holds something.
pub open spec fn personalization_fields(p: PersonalizationView) -> Seq<Seq<char>> {
    let fs = Seq::<Seq<char>>::empty();
    let fs = if p.to.len() > 0 { fs.push("\"to\":"@ + contacts_json(p.to)) } else { fs };
    let fs = if p.cc.len() > 0 { fs.push("\"cc\":"@ + contacts_json(p.cc)) } else { fs };
    let fs = if p.bcc.len() > 0 { fs.push("\"bcc\":"@ + contacts_json(p.bcc)) } else { fs };
    let fs = if p.subject is Some { fs.push("\"subject\":"@ + jstr(p.subject->0)) } else { fs };
    let fs = if p.headers.len() > 0 {
        fs.push("\"headers\":"@ + kv_json(p.headers))
    } else {
        fs
    };
    let fs = if p.substitutions.len() > 0 {
        fs.push("\"substitutions\":"@ + kv_json(p.substitutions))
    } else {
        fs
    };
    let fs = if p.dynamic_template_data.len() > 0 {
        fs.push("\"dynamic_template_data\":"@ + kv_json(p.dynamic_template_data))
    } else {
        fs
    };
    let fs = if p.custom_args.len() > 0 {
        fs.push("\"custom_args\":"@ + kv_json(p.custom_args))
    } else {
        fs
    };
    let fs = if p.send_at is Some { fs.push("\"send_at\":"@ + jint(p.send_at->0 as int)) } else {
        fs
    };
    fs
}

/// The rendered JSON object of a personalization.
pub open spec fn personalization_json(p: PersonalizationView) -> Seq<char> {
    jobj(personalization_fields(p))
}

/// A personalization with nothing configured renders as the empty object:
/// no key appears at all.
pub proof fn personalization_minimal_json(p: PersonalizationView)
    requires
        p.to.len() == 0,
        p.cc.len() == 0,
        p.bcc.len() == 0,
        p.subject is None,
        p.headers.len() == 0,
        p.substitutions.len() == 0,
        p.dynamic_template_data.len() == 0,
        p.custom_args.len() == 0,
        p.send_at is None,
    ensures
        personalization_json(p) == "{}"@,
{
    reveal_strlit("{}");
    assert(personalization_fields(p) =~= Seq::<Seq<char>>::empty());
    assert(personalization_json(p) =~= "{}"@);
}

/// A personalization whose only contents are its to-contacts renders as the
/// to-array alone, the contacts in list order.
pub proof fn personalization_to_only_json(p: PersonalizationView)
    requires
        p.to.len() > 0,
        p.cc.len() == 0,
        p.bcc.len() == 0,
        p.subject is None,
        p.headers.len() == 0,
        p.substitutions.len() == 0,
        p.dynamic_template_data.len() == 0,
        p.custom_args.len() == 0,
        p.send_at is None,
    ensures
        personalization_json(p) == seq!['{'] + ("\"to\":"@ + contacts_json(p.to)) + seq!['}'],
{
    assert(personalization_fields(p) =~= seq!["\"to\":"@ + contacts_json(p.to)]);
    assert(personalization_json(p) =~= seq!['{'] + ("\"to\":"@ + contacts_json(p.to)) + seq!['}']);
}

/// Appends the rendered personalization.
pub(crate) fn write_personalization(out: &mut String, p: &Personalization)
    ensures
        final(out)@ == old(out)@ + personalization_json(p@),
{
    let ghost base = out@;
    let ghost mut fs: Seq<Seq<char>> = Seq::empty();
    let mut first = true;
    push_char(out, '{');
    proof {
        lemma_obj_open(base);
    }
    if p.to.len() > 0 {
        write_sep(out, &mut first);
        write_lit(out, "\"to\":");
        write_contact_array(out, &p.to);
        proof {
            lemma_obj_field_first(base, fs, "\"to\":"@, contacts_json(p@.to));
            fs = fs.push("\"to\":"@ + contacts_json(p@.to));
        }
    }
    if p.cc.len() > 0 {
        write_sep(out, &mut first);
        write_lit(out, "\"cc\":");
        write_contact_array(out, &p.cc);
        proof {
            if fs.len() == 0 {
                lemma_obj_field_first(base, fs, "\"cc\":"@, contacts_json(p@.cc));
            } else {
                lemma_obj_field_next(base, fs, "\"cc\":"@, contacts_json(p@.cc));
            }
            fs = fs.push("\"cc\":"@ + contacts_json(p@.cc));
        }
    }
    if p.bcc.len() > 0 {
        write_sep(out, &mut first);
        write_lit(out, "\"bcc\":");
        write_contact_array(out, &p.bcc);
        proof {
            if fs.len() == 0 {
                lemma_obj_field_first(base, fs, "\"bcc\":"@, contacts_json(p@.bcc));
            } else {
                lemma_obj_field_next(base, fs, "\"bcc\":"@, contacts_json(p@.bcc));
            }
            fs = fs.push("\"bcc\":"@ + contacts_json(p@.bcc));
        }
    }
    if let Some(s) = &p.subject {
        write_sep(out, &mut first);
        write_lit(out, "\"subject\":");
        write_jstr(out, s.as_str());
        proof {
            if fs.len() == 0 {
                lemma_obj_field_first(base, fs, "\"subject\":"@, jstr(p@.subject->0));
            } else {
                lemma_obj_field_next(base, fs, "\"subject\":"@, jstr(p@.subject->0));
            }
            fs = fs.push("\"subject\":"@ + jstr(p@.subject->0));
        }
    }
    if p.headers.len() > 0 {
        write_sep(out, &mut first);
        write_lit(out, "\"headers\":");
        write_kv(out, &p.headers);
        proof {
            if fs.len() == 0 {
                lemma_obj_field_first(base, fs, "\"headers\":"@, kv_json(p@.headers));
            } else {
                lemma_obj_field_next(base, fs, "\"headers\":"@, kv_json(p@.headers));
            }
            fs = fs.push("\"headers\":"@ + kv_json(p@.headers));
        }
    }
    if p.substitutions.len() > 0 {
        write_sep(out, &mut first);
        write_lit(out, "\"substitutions\":");
        write_kv(out, &p.substitutions);
        proof {
            if fs.len() == 0 {
                lemma_obj_field_first(base, fs, "\"substitutions\":"@, kv_json(p@.substitutions));
            } else {
                lemma_obj_field_next(base, fs, "\"substitutions\":"@, kv_json(p@.substitutions));
            }
            fs = fs.push("\"substitutions\":"@ + kv_json(p@.substitutions));
        }
    }
    if p.dynamic_template_data.len() > 0 {
        write_sep(out, &mut first);
        write_lit(out, "\"dynamic_template_data\":");
        write_kv(out, &p.dynamic_template_data);
        proof {
            if fs.len() == 0 {
                lemma_obj_field_first(
                    base,
                    fs,
                    "\"dynamic_template_data\":"@,
                    kv_json(p@.dynamic_template_data),
                );
            } else {
                lemma_obj_field_next(
                    base,
                    fs,
                    "\"dynamic_template_data\":"@,
                    kv_json(p@.dynamic_template_data),
                );
            }
            fs = fs.push("\"dynamic_template_data\":"@ + kv_json(p@.dynamic_template_data));
        }
    }
    if p.custom_args.len() > 0 {
        write_sep(out, &mut first);
        write_lit(out, "\"custom_args\":");
        write_kv(out, &p.custom_args);
        proof {
            if fs.len() == 0 {
                lemma_obj_field_first(base, fs, "\"custom_args\":"@, kv_json(p@.custom_args));
            } else {
                lemma_obj_field_next(base, fs, "\"custom_args\":"@, kv_json(p@.custom_args));
            }
            fs = fs.push("\"custom_args\":"@ + kv_json(p@.custom_args));
        }
    }
    if let Some(t) = p.send_at {
        write_sep(out, &mut first);
        write_lit(out, "\"send_at\":");
        write_jint(out, t);
        proof {
            if fs.len() == 0 {
                lemma_obj_field_first(base, fs, "\"send_at\":"@, jint(p@.send_at->0 as int));
            } else {
                lemma_obj_field_next(base, fs, "\"send_at\":"@, jint(p@.send_at->0 as int));
            }
            fs = fs.push("\"send_at\":"@ + jint(p@.send_at->0 as int));
        }
    }
    push_char(out, '}');
    proof {
        lemma_obj_close(base, fs);
        assert(fs == personalization_fields(p@));
    }
}

/// The views of a sequence of personalizations.
pub open spec fn personalizations_view(s: Seq<Personalization>) -> Seq<PersonalizationView> {
    s.map_values(|p: Personalization| p@)
}

/// Each personalization rendered as its JSON object.
pub open spec fn personalization_elems(vs: Seq<PersonalizationView>) -> Seq<Seq<char>> {
    vs.map_values(|v: PersonalizationView| personalization_json(v))
}

/// The rendered JSON array of a personalization list, elements in list
/// order.
pub open spec fn personalizations_json(vs: Seq<PersonalizationView>) -> Seq<char> {
    jarr(personalization_elems(vs))
}

/// Appends the rendered personalization list.
pub(crate) fn write_personalization_array(out: &mut String, ps: &Vec<Personalization>)
    ensures
        final(out)@ == old(out)@ + personalizations_json(personalizations_view(ps@)),
{
    let ghost base = out@;
    let ghost es = personalization_elems(personalizations_view(ps@));
    push_char(out, '[');
    proof {
        lemma_arr_open(base);
        assert(es.take(0) =~= Seq::<Seq<char>>::empty());
    }
    let n = ps.len();
    let mut i: usize = 0;
    while i < n
        invariant
            n == ps@.len(),
            i <= n,
            es == personalization_elems(personalizations_view(ps@)),
            es.len() == n,
            out@ == base + seq!['['] + joined(es.take(i as int)),
        decreases n - i,
    {
        if i > 0 {
            push_char(out, ',');
        }
        write_personalization(out, &ps[i]);
        proof {
            assert(personalizations_view(ps@)[i as int] == ps@[i as int]@);
            assert(es[i as int] == personalization_json(ps@[i as int]@));
            if i == 0 {
                lemma_arr_elem_first(base, es.take(0), es[0]);
            } else {
                lemma_arr_elem_next(base, es.take(i as int), es[i as int]);
            }
            assert(es.take(i as int).push(es[i as int]) =~= es.take(i as int + 1));
        }
        i = i + 1;
    }
    push_char(out, ']');
    proof {
        assert(es.take(n as int) =~= es);
        lemma_arr_close(base, es);
    }
}

/// Builder pattern for `Personalization`. Construct it with `default()`,
/// call `build()` to consume it and obtain the finished `Personalization`.
pub struct PersonalizationBuilder {
    personalization: Personalization,
}

impl View for PersonalizationBuilder {
    type V = PersonalizationView;

    closed spec fn view(&self) -> PersonalizationView {
        self.personalization@
    }
}

impl Default for PersonalizationBuilder {
    /// Starts a personalization with nothing configured.
    fn default() -> (r: Self)
        ensures
            r@ == (PersonalizationView {
                to: Seq::empty(),
                cc: Seq::empty(),
                bcc: Seq::empty(),
                subject: None,
                headers: Seq::empty(),
                substitutions: Seq::empty(),
                dynamic_template_data: Seq::empty(),
                custom_args: Seq::empty(),
                send_at: None,
            }),
    {
        let r = PersonalizationBuilder {
            personalization: Personalization {
                to: Vec::new(),
                cc: Vec::new(),
                bcc: Vec::new(),
                subject: None,
                headers: KvPairs::new(),
                substitutions: KvPairs::new(),
                dynamic_template_data: KvPairs::new(),
                custom_args: KvPairs::new(),
                send_at: None,
            },
        };
        proof {
            assert(r@.to =~= Seq::<ContactView>::empty());
            assert(r@.cc =~= Seq::<ContactView>::empty());
            assert(r@.bcc =~= Seq::<ContactView>::empty());
        }
        r
    }
}

impl PersonalizationBuilder {
    /// Adds one to-contact, at the end of the list.
    pub fn to(self, contact: Contact) -> (r: Self)
        ensures
            r@ == (PersonalizationView { to: self@.to.push(contact@), ..self@ }),
    {
        let ghost sv = self@;
        let mut p = self.personalization;
        p.to.push(contact);
        let r = PersonalizationBuilder { personalization: p };
        proof {
            assert(r@.to =~= sv.to.push(contact@));
        }
        r
    }

    /// Adds one cc-contact, at the end of the list.
    pub fn cc(self, contact: Contact) -> (r: Self)
        ensures
            r@ == (PersonalizationView { cc: self@.cc.push(contact@), ..self@ }),
    {
        let mut p = self.personalization;
        p.cc.push(contact);
        let r = PersonalizationBuilder { personalization: p };
        proof {
            assert(r@.cc =~= self@.cc.push(contact@));
        }
        r
    }

    /// Adds one bcc-contact, at the end of the list.
    pub fn bcc(self, contact: Contact) -> (r: Self)
        ensures
            r@ == (PersonalizationView { bcc: self@.bcc.push(contact@), ..self@ }),
    {
        let mut p = self.personalization;
        p.bcc.push(contact);
        let r = PersonalizationBuilder { personalization: p };
        proof {
            assert(r@.bcc =~= self@.bcc.push(contact@));
        }
        r
    }

    /// Sets the subject override.
    pub fn subject(self, subject: &str) -> (r: Self)
        ensures
            r@ == (PersonalizationView { subject: Some(subject@), ..self@ }),
    {
        let mut p = self.personalization;
        p.subject = Some(subject.to_owned());
        PersonalizationBuilder { personalization: p }
    }

    /// Puts one header into the header mapping.
    pub fn header(self, key: &str, value: &str) -> (r: Self)
        ensures
            r@ == (PersonalizationView {
                headers: crate::kv::kv_insert(self@.headers, key@, value@),
                ..self@
            }),
    {
        let mut p = self.personalization;
        p.headers.insert(key, value);
        PersonalizationBuilder { personalization: p }
    }

    /// Replaces the header mapping wholesale.
    pub fn headers(self, data: KvPairs) -> (r: Self)
        ensures
            r@ == (PersonalizationView { headers: data@, ..self@ }),
    {
        let mut p = self.personalization;
        p.headers = data;
        PersonalizationBuilder { personalization: p }
    }

    /// Puts one substitution into the substitution mapping.
    pub fn substitution(self, key: &str, value: &str) -> (r: Self)
        ensures
            r@ == (PersonalizationView {
                substitutions: crate::kv::kv_insert(self@.substitutions, key@, value@),
                ..self@
            }),
    {
        let mut p = self.personalization;
        p.substitutions.insert(key, value);
        PersonalizationBuilder { personalization: p }
    }

    /// Puts one entry into the dynamic-template-data mapping.
    pub fn dynamic_template_datum(self, key: &str, value: &str) -> (r: Self)
        ensures
            r@ == (PersonalizationView {
                dynamic_template_data: crate::kv::kv_insert(
                    self@.dynamic_template_data,
                    key@,
                    value@,
                ),
                ..self@
            }),
    {
        let mut p = self.personalization;
        p.dynamic_template_data.insert(key, value);
        PersonalizationBuilder { personalization: p }
    }

    /// Replaces the dynamic-template-data mapping wholesale.
    pub fn dynamic_template_data(self, data: KvPairs) -> (r: Self)
        ensures
            r@ == (PersonalizationView { dynamic_template_data: data@, ..self@ }),
    {
        let mut p = self.personalization;
        p.dynamic_template_data = data;
        PersonalizationBuilder { personalization: p }
    }

    /// Puts one entry into the custom-args mapping.
    pub fn custom_arg(self, key: &str, value: &str) -> (r: Self)
        ensures
            r@ == (PersonalizationView {
                custom_args: crate::kv::kv_insert(self@.custom_args, key@, value@),
                ..self@
            }),
    {
        let mut p = self.personalization;
        p.custom_args.insert(key, value);
        PersonalizationBuilder { personalization: p }
    }

    /// Sets the scheduled-send time, in epoch seconds.
    pub fn send_at(self, time: i32) -> (r: Self)
        ensures
            r@ == (PersonalizationView { send_at: Some(time), ..self@ }),
    {
        let mut p = self.personalization;
        p.send_at = Some(time);
        PersonalizationBuilder { personalization: p }
    }

    /// Consumes the builder and returns the finished `Personalization`.
    pub fn build(self) -> (r: Personalization)
        ensures
            r@ == self@,
    {
        self.personalization
    }
}

} // verus!
