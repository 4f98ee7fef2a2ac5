//! Accumulation of a submitted multipart form, part by part and chunk by
//! chunk, into a message ready to be stored.
use vstd::prelude::*;
use vstd::utf8::{valid_utf8, decode_utf8};
use crate::attachment::{MediaKind, plan_upload, kind_of_name, is_token, is_safe_segment, is_plain_name, stored_name_of};
use crate::board::{MessageBoard, MessageRecord, NewMessage, opt_text};
use crate::error::Fault;
use crate::text::text_eq;

verus! {

/// What a form part carries, by the part's name.
#[derive(Clone, Copy, Debug, PartialEq, Eq, Structural)]
pub enum FieldRole {
    Name,
    Message,
    Media,
    Other,
}

pub open spec fn role_of(part: Seq<char>) -> FieldRole {
    if part == "name"@ {
        FieldRole::Name
    } else if part == "message"@ {
        FieldRole::Message
    } else if part == "media"@ {
        FieldRole::Media
    } else {
        FieldRole::Other
    }
}

/// The role of a form part: `name`, `message` and `media` are known; any
/// other part is ignored.
pub fn field_role(part: &str) -> (r: FieldRole)
    ensures
        r == role_of(part@),
{
    if text_eq(part, "name") {
        FieldRole::Name
    } else if text_eq(part, "message") {
        FieldRole::Message
    } else if text_eq(part, "media") {
        FieldRole::Media
    } else {
        FieldRole::Other
    }
}

/// A form as far as it has been read, as plain values.
pub ghost struct FormState {
    pub name: Seq<u8>,
    pub body: Seq<u8>,
    pub image_path: Option<Seq<char>>,
    pub video_path: Option<Seq<char>>,
}

/// The attachment of a form: none, or one image, or one video.
enum Attached {
    Nothing,
    Image(String),
    Video(String),
}

/// The fields of a submission read so far.
pub struct SubmissionForm {
    name: Vec<u8>,
    body: Vec<u8>,
    attached: Attached,
}

/// The form already holds an image or a video.
pub open spec fn has_attachment(st: FormState) -> bool {
    st.image_path is Some || st.video_path is Some
}

/// The form holds both an image and a video.
pub open spec fn has_both(st: FormState) -> bool {
    st.image_path is Some && st.video_path is Some
}

impl View for SubmissionForm {
    type V = FormState;

    closed spec fn view(&self) -> FormState {
        FormState {
            name: self.name@,
            body: self.body@,
            image_path: match self.attached {
                Attached::Image(p) => Some(p@),
                _ => None,
            },
            video_path: match self.attached {
                Attached::Video(p) => Some(p@),
                _ => None,
            },
        }
    }
}

/// Relies on std's String::from_utf8: it succeeds exactly on valid UTF-8
/// and then holds the characters that the bytes encode.
#[verifier::external_body]
fn decode_text(bytes: Vec<u8>) -> (r: Option<String>)
    ensures
        r is Some <==> valid_utf8(bytes@),
        r matches Some(s) ==> s@ == decode_utf8(bytes@),
{
    String::from_utf8(bytes).ok()
}

fn append_bytes(v: &mut Vec<u8>, chunk: &[u8])
    ensures
        final(v)@ == old(v)@ + chunk@,
{
    let n = chunk.len();
    let mut i: usize = 0;
    while i < n
        invariant
            n == chunk@.len(),
            i <= n,
            v@ == old(v)@ + chunk@.subrange(0, i as int),
        decreases n - i,
    {
        v.push(chunk[i]);
        i = i + 1;
        assert(v@ =~= old(v)@ + chunk@.subrange(0, i as int));
    }
    assert(chunk@.subrange(0, n as int) =~= chunk@);
}

impl SubmissionForm {
    /// A form with nothing read yet.
    pub fn new() -> (r: SubmissionForm)
        ensures
            r@ == (FormState { name: seq![], body: seq![], image_path: None, video_path: None }),
            !has_both(r@),
    {
        SubmissionForm { name: Vec::new(), body: Vec::new(), attached: Attached::Nothing }
    }

    /// Appends a chunk of a text part: to the name for `Name`, to the body
    /// for `Message`; the chunks of other parts are ignored.
    pub fn push_chunk(&mut self, role: FieldRole, chunk: &[u8])
        ensures
            !has_both(final(self)@),
            final(self)@ == (match role {
                FieldRole::Name => FormState { name: old(self)@.name + chunk@, ..old(self)@ },
                FieldRole::Message => FormState { body: old(self)@.body + chunk@, ..old(self)@ },
                _ => old(self)@,
            }),
    {
        match role {
            FieldRole::Name => append_bytes(&mut self.name, chunk),
            FieldRole::Message => append_bytes(&mut self.body, chunk),
            _ => {},
        }
    }

    /// Handles the file of a `media` part. A form holds at most one
    /// attachment: once it has one, further files are dropped. An
    /// unsupported file is dropped too. A dropped file gives `None`, without
    /// error, and the form stays as it was. Otherwise the image or video is
    /// recorded under a fresh stored name, which is returned so that the
    /// file's bytes can be written under it.
    pub fn accept_media(&mut self, filename: &str) -> (r: Option<String>)
        ensures
            has_attachment(old(self)@) ==> r is None,
            !has_attachment(old(self)@) ==> (r is None <==> kind_of_name(filename@) == MediaKind::Unsupported),
            r is None ==> final(self)@ == old(self)@,
            r matches Some(n) ==> exists|t: Seq<char>, c: Seq<char>|
                is_token(t) && is_safe_segment(c) && n@ == stored_name_of(t, c),
            r matches Some(n) ==> is_plain_name(filename@) ==> exists|t: Seq<char>|
                is_token(t) && n@ == stored_name_of(t, filename@),
            r matches Some(n) ==> final(self)@ == (match kind_of_name(filename@) {
                MediaKind::Image => FormState { image_path: Some(n@), ..old(self)@ },
                _ => FormState { video_path: Some(n@), ..old(self)@ },
            }),
            !has_both(final(self)@),
    {
        if !matches!(self.attached, Attached::Nothing) {
            return None;
        }
        match plan_upload(filename) {
            None => None,
            Some(u) => {
                let name = u.stored_name.clone();
                self.attached = match u.kind {
                    MediaKind::Image => Attached::Image(u.stored_name),
                    _ => Attached::Video(u.stored_name),
                };
                Some(name)
            },
        }
    }

    /// Decodes the collected text once all parts are read. Fails with
    /// `Decode` exactly when the name or the body is not valid UTF-8. Empty
    /// text is accepted.
    pub fn finish(self) -> (r: Result<NewMessage, Fault>)
        ensures
            r is Ok <==> valid_utf8(self@.name) && valid_utf8(self@.body),
            r matches Err(e) ==> e == Fault::Decode,
            r matches Ok(m) ==> m.name@ == decode_utf8(self@.name) && m.body@ == decode_utf8(self@.body)
                && opt_text(m.image_path) == self@.image_path
                && opt_text(m.video_path) == self@.video_path,
            r matches Ok(m) ==> !(m.image_path is Some && m.video_path is Some),
    {
        let SubmissionForm { name, body, attached } = self;
        let (image_path, video_path) = match attached {
            Attached::Nothing => (None, None),
            Attached::Image(p) => (Some(p), None),
            Attached::Video(p) => (None, Some(p)),
        };
        let name = match decode_text(name) {
            Some(s) => s,
            None => return Err(Fault::Decode),
        };
        let body = match decode_text(body) {
            Some(s) => s,
            None => return Err(Fault::Decode),
        };
        Ok(NewMessage { name, body, image_path, video_path })
    }
}

/// Stores a completely read form as a new message. Text that is not valid
/// UTF-8 fails with `Decode` and stores nothing; otherwise the message is
/// inserted as `MessageBoard::insert` says.
pub fn submit(board: &mut MessageBoard, form: SubmissionForm) -> (r: Result<u64, Fault>)
    requires
        old(board).wf(),
    ensures
        final(board).wf(),
        !(valid_utf8(form@.name) && valid_utf8(form@.body)) ==> r == Err::<u64, Fault>(Fault::Decode)
            && final(board)@ == old(board)@
            && final(board).next_id_spec() == old(board).next_id_spec(),
        valid_utf8(form@.name) && valid_utf8(form@.body) ==> {
            &&& (r is Err <==> old(board).next_id_spec() == u64::MAX)
            &&& r matches Err(e) ==> e == Fault::Persistence && final(board)@ == old(board)@
            &&& r matches Ok(id) ==> id == old(board).next_id_spec()
                && final(board).next_id_spec() == id + 1
                && final(board)@ == old(board)@.push(MessageRecord {
                    id,
                    name: decode_utf8(form@.name),
                    body: decode_utf8(form@.body),
                    image_path: form@.image_path,
                    video_path: form@.video_path,
                })
        },
        r is Ok ==> !(final(board)@.last().image_path is Some && final(board)@.last().video_path is Some),
{
    match form.finish() {
        Err(e) => Err(e),
        Ok(m) => board.insert(m),
    }
}

} // verus!
