//! The attachment node of the payload and its builder.

use vstd::prelude::*;
use crate::json::{
    jarr, jobj, joined, jstr, lemma_arr_close, lemma_arr_elem_first, lemma_arr_elem_next,
    lemma_arr_open, lemma_obj_close, lemma_obj_field_first, lemma_obj_field_next, lemma_obj_open,
    push_char, write_jstr, write_lit,
};

verus! {

/// One attachment of a message: base64 content and a filename, with an
/// optional mime type, disposition and content id.
pub struct Attachment {
    content: String,
    a_type: Option<String>,
    filename: String,
    disposition: Option<String>,
    content_id: Option<String>,
}

/// Mathematical content of an `Attachment`.
pub struct AttachmentView {
    pub content: Seq<char>,
    pub a_type: Option<Seq<char>>,
    pub filename: Seq<char>,
    pub disposition: Option<Seq<char>>,
    pub content_id: Option<Seq<char>>,
}

impl View for Attachment {
    type V = AttachmentView;

    closed spec fn view(&self) -> AttachmentView {
        AttachmentView {
            content: self.content@,
            a_type: match self.a_type {
                Some(t) => Some(t@),
                None => None,
            },
            filename: self.filename@,
            disposition: match self.disposition {
                Some(d) => Some(d@),
                None => None,
            },
            content_id: match self.content_id {
                Some(c) => Some(c@),
                None => None,
            },
        }
    }
}

/// The fragments of the rendered attachment. The mime-type field renders
/// under the wire name `type`; absent optional fields are left out.
pub open spec fn attachment_fields(a: AttachmentView) -> Seq<Seq<char>> {
    let fs = Seq::<Seq<char>>::empty();
    let fs = fs.push("\"content\":"@ + jstr(a.content));
    let fs = if a.a_type is Some { fs.push("\"type\":"@ + jstr(a.a_type->0)) } else { fs };
    let fs = fs.push("\"filename\":"@ + jstr(a.filename));
    let fs = if a.disposition is Some {
        fs.push("\"disposition\":"@ + jstr(a.disposition->0))
    } else {
        fs
    };
    let fs = if a.content_id is Some {
        fs.push("\"content_id\":"@ + jstr(a.content_id->0))
    } else {
        fs
    };
    fs
}

/// The rendered JSON object of an attachment.
pub open spec fn attachment_json(a: AttachmentView) -> Seq<char> {
    jobj(attachment_fields(a))
}

/// An attachment built with no optional configuration renders with its
/// content and filename alone: no other key appears.
pub proof fn attachment_minimal_json(a: AttachmentView)
    requires
        a.a_type is None,
        a.disposition is None,
        a.content_id is None,
    ensures
        attachment_json(a) == seq!['{'] + ("\"content\":"@ + jstr(a.content)) + seq![','] + (
        "\"filename\":"@ + jstr(a.filename)) + seq!['}'],
{
    let f0 = "\"content\":"@ + jstr(a.content);
    let f1 = "\"filename\":"@ + jstr(a.filename);
    let e0 = Seq::<Seq<char>>::empty();
    crate::json::lemma_joined_push(e0, f0);
    crate::json::lemma_joined_push(e0.push(f0), f1);
    assert(attachment_fields(a) =~= e0.push(f0).push(f1));
    assert(attachment_json(a) =~= seq!['{'] + f0 + seq![','] + f1 + seq!['}']);
}

/// Appends the rendered attachment.
pub(crate) fn write_attachment(out: &mut String, a: &Attachment)
    ensures
        final(out)@ == old(out)@ + attachment_json(a@),
{
    let ghost base = out@;
    let ghost mut fs: Seq<Seq<char>> = Seq::empty();
    push_char(out, '{');
    proof {
        lemma_obj_open(base);
    }
    write_lit(out, "\"content\":");
    write_jstr(out, a.content.as_str());
    proof {
        lemma_obj_field_first(base, fs, "\"content\":"@, jstr(a@.content));
        fs = fs.push("\"content\":"@ + jstr(a@.content));
    }
    if let Some(t) = &a.a_type {
        push_char(out, ',');
        write_lit(out, "\"type\":");
        write_jstr(out, t.as_str());
        proof {
            lemma_obj_field_next(base, fs, "\"type\":"@, jstr(a@.a_type->0));
            fs = fs.push("\"type\":"@ + jstr(a@.a_type->0));
        }
    }
    push_char(out, ',');
    write_lit(out, "\"filename\":");
    write_jstr(out, a.filename.as_str());
    proof {
        lemma_obj_field_next(base, fs, "\"filename\":"@, jstr(a@.filename));
        fs = fs.push("\"filename\":"@ + jstr(a@.filename));
    }
    if let Some(d) = &a.disposition {
        push_char(out, ',');
        write_lit(out, "\"disposition\":");
        write_jstr(out, d.as_str());
        proof {
            lemma_obj_field_next(base, fs, "\"disposition\":"@, jstr(a@.disposition->0));
            fs = fs.push("\"disposition\":"@ + jstr(a@.disposition->0));
        }
    }
    if let Some(c) = &a.content_id {
        push_char(out, ',');
        write_lit(out, "\"content_id\":");
        write_jstr(out, c.as_str());
        proof {
            lemma_obj_field_next(base, fs, "\"content_id\":"@, jstr(a@.content_id->0));
            fs = fs.push("\"content_id\":"@ + jstr(a@.content_id->0));
        }
    }
    push_char(out, '}');
    proof {
        lemma_obj_close(base, fs);
        assert(fs == attachment_fields(a@));
    }
}

/// The views of a sequence of attachments.
pub open spec fn attachments_view(s: Seq<Attachment>) -> Seq<AttachmentView> {
    s.map_values(|a: Attachment| a@)
}

/// Each attachment rendered as its JSON object.
pub open spec fn attachment_elems(vs: Seq<AttachmentView>) -> Seq<Seq<char>> {
    vs.map_values(|v: AttachmentView| attachment_json(v))
}

/// The rendered JSON array of an attachment list, elements in list order.
pub open spec fn attachments_json(vs: Seq<AttachmentView>) -> Seq<char> {
    jarr(attachment_elems(vs))
}

/// Appends the rendered attachment list.
pub(crate) fn write_attachment_array(out: &mut String, avs: &Vec<Attachment>)
    ensures
        final(out)@ == old(out)@ + attachments_json(attachments_view(avs@)),
{
    let ghost base = out@;
    let ghost es = attachment_elems(attachments_view(avs@));
    push_char(out, '[');
    proof {
        lemma_arr_open(base);
        assert(es.take(0) =~= Seq::<Seq<char>>::empty());
    }
    let n = avs.len();
    let mut i: usize = 0;
    while i < n
        invariant
            n == avs@.len(),
            i <= n,
            es == attachment_elems(attachments_view(avs@)),
            es.len() == n,
            out@ == base + seq!['['] + joined(es.take(i as int)),
        decreases n - i,
    {
        if i > 0 {
            push_char(out, ',');
        }
        write_attachment(out, &avs[i]);
        proof {
            assert(attachments_view(avs@)[i as int] == avs@[i as int]@);
            assert(es[i as int] == attachment_json(avs@[i as int]@));
            if i == 0 {
                lemma_arr_elem_first(base, es.take(0), es[0]);
            } else {
                lemma_arr_elem_next(base, es.take(i as int), es[i as int]);
            }
            assert(es.take(i as int).push(es[i as int]) =~= es.take(i as int + 1));
        }
        i = i + 1;
    }
    push_char(out, ']');
    proof {
        assert(es.take(n as int) =~= es);
        lemma_arr_close(base, es);
    }
}

/// Builder pattern for `Attachment`. Call `build()` to consume the builder
/// and obtain the finished `Attachment`.
pub struct AttachmentBuilder {
    attachment: Attachment,
}

impl View for AttachmentBuilder {
    type V = AttachmentView;

    closed spec fn view(&self) -> AttachmentView {
        self.attachment@
    }
}

impl AttachmentBuilder {
    /// Starts an attachment from its required fields: the base64 content
    /// and the filename.
    pub fn new(content: &str, filename: &str) -> (r: Self)
        ensures
            r@ == (AttachmentView {
                content: content@,
                a_type: None,
                filename: filename@,
                disposition: None,
                content_id: None,
            }),
    {
        AttachmentBuilder {
            attachment: Attachment {
                content: content.to_owned(),
                a_type: None,
                filename: filename.to_owned(),
                disposition: None,
                content_id: None,
            },
        }
    }

    /// Sets the mime type of the attachment.
    pub fn attachment_type(self, t: &str) -> (r: Self)
        ensures
            r@ == (AttachmentView { a_type: Some(t@), ..self@ }),
    {
        AttachmentBuilder {
            attachment: Attachment { a_type: Some(t.to_owned()), ..self.attachment },
        }
    }

    /// Sets the disposition of the attachment.
    pub fn disposition(self, disposition: &str) -> (r: Self)
        ensures
            r@ == (AttachmentView { disposition: Some(disposition@), ..self@ }),
    {
        AttachmentBuilder {
            attachment: Attachment {
                disposition: Some(disposition.to_owned()),
                ..self.attachment
            },
        }
    }

    /// Sets the content id of the attachment.
    pub fn content_id(self, id: &str) -> (r: Self)
        ensures
            r@ == (AttachmentView { content_id: Some(id@), ..self@ }),
    {
        AttachmentBuilder {
            attachment: Attachment { content_id: Some(id.to_owned()), ..self.attachment },
        }
    }

    /// Consumes the builder and returns the finished `Attachment`.
    pub fn build(self) -> (r: Attachment)
        ensures
            r@ == self@,
    {
        self.attachment
    }
}

} // verus!
