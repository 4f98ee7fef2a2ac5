//! What the listing page shows: the theme chosen by cookie, and for each
//! message its name, its body rendered from markdown, its attachment links
//! and the target of its delete form.
use vstd::prelude::*;
use vstd::string::StringExecFns;
use crate::board::{Message, MessageRecord, opt_text};
use crate::text::{decimal, push_decimal, text_eq};

verus! {

/// The HTML that markdown source renders to, with tables, strikethrough,
/// autolinks, task lists and the other extensions enabled.
pub uninterp spec fn markdown_html(src: Seq<char>) -> Seq<char>;

/// Relies on pulldown_cmark::Parser::new_ext with Options::all() and
/// pulldown_cmark::html::push_html: the HTML depends on the source alone.
#[verifier::external_body]
fn markdown_to_html(input: &str) -> (r: String)
    ensures
        r@ == markdown_html(input@),
{
    let mut html_output = String::new();
    let parser = pulldown_cmark::Parser::new_ext(input, pulldown_cmark::Options::all());
    pulldown_cmark::html::push_html(&mut html_output, parser);
    html_output
}

/// The presentation variant of the page.
#[derive(Clone, Copy, Debug, PartialEq, Eq, Structural)]
pub enum Theme {
    Light,
    Dark,
}

/// The theme for the value of the `theme` cookie, if the request has one.
pub open spec fn theme_of(cookie: Option<Seq<char>>) -> Theme {
    if cookie == Some("dark"@) {
        Theme::Dark
    } else {
        Theme::Light
    }
}

/// `dark` selects the dark theme; any other value, or no cookie, the light one.
pub fn theme_from_cookie(cookie: Option<&str>) -> (r: Theme)
    ensures
        r == theme_of(match cookie {
            Some(c) => Some(c@),
            None => None,
        }),
{
    match cookie {
        Some(c) => if text_eq(c, "dark") {
            Theme::Dark
        } else {
            Theme::Light
        },
        None => Theme::Light,
    }
}

/// The class of the page body for a theme.
pub fn body_class(theme: Theme) -> (r: &'static str)
    ensures
        theme == Theme::Dark ==> r@ == "dark-mode"@,
        theme == Theme::Light ==> r@ == ""@,
{
    match theme {
        Theme::Dark => "dark-mode",
        Theme::Light => "",
    }
}

/// The address under which a stored attachment is served.
pub open spec fn upload_src(stored: Seq<char>) -> Seq<char> {
    "/uploads/"@ + stored
}

/// The target of the delete form of message `id`.
pub open spec fn delete_target(id: u64) -> Seq<char> {
    "/delete/"@ + decimal(id as nat)
}

/// The address under which a stored attachment is served: `/uploads/{name}`.
pub fn upload_url(stored: &str) -> (r: String)
    ensures
        r@ == upload_src(stored@),
{
    let mut r = String::from_str("/uploads/");
    r.append(stored);
    r
}

/// The target of the delete form of message `id`: `/delete/{id}`.
pub fn delete_action(id: u64) -> (r: String)
    ensures
        r@ == delete_target(id),
{
    let mut r = String::from_str("/delete/");
    push_decimal(id, &mut r);
    r
}

/// A message as the page shows it.
pub struct MessageView {
    pub id: u64,
    pub name: String,
    pub body_html: String,
    pub image_src: Option<String>,
    pub video_src: Option<String>,
    pub delete_action: String,
}

pub open spec fn opt_src(p: Option<Seq<char>>) -> Option<Seq<char>> {
    match p {
        Some(s) => Some(upload_src(s)),
        None => None,
    }
}

/// `v` shows the message `m`: name verbatim, body rendered, attachments by address.
pub open spec fn shows(v: MessageView, m: MessageRecord) -> bool {
    &&& v.id == m.id
    &&& v.name@ == m.name
    &&& v.body_html@ == markdown_html(m.body)
    &&& opt_text(v.image_src) == opt_src(m.image_path)
    &&& opt_text(v.video_src) == opt_src(m.video_path)
    &&& v.delete_action@ == delete_target(m.id)
}

fn src_of(p: &Option<String>) -> (r: Option<String>)
    ensures
        opt_text(r) == opt_src(opt_text(*p)),
{
    match p {
        Some(s) => Some(upload_url(s.as_str())),
        None => None,
    }
}

/// Prepares one message for display.
pub fn present(m: &Message) -> (r: MessageView)
    ensures
        shows(r, m@),
{
    MessageView {
        id: m.id,
        name: m.name.clone(),
        body_html: markdown_to_html(m.body.as_str()),
        image_src: src_of(&m.image_path),
        video_src: src_of(&m.video_path),
        delete_action: delete_action(m.id),
    }
}

/// Prepares a listing for display, keeping its order.
pub fn present_all(ms: &Vec<Message>) -> (r: Vec<MessageView>)
    ensures
        r@.len() == ms@.len(),
        forall|i: int| 0 <= i < r@.len() ==> shows(#[trigger] r@[i], ms@[i]@),
{
    let mut r: Vec<MessageView> = Vec::new();
    let mut i: usize = 0;
    while i < ms.len()
        invariant
            i <= ms@.len(),
            r@.len() == i,
            forall|j: int| 0 <= j < i ==> shows(#[trigger] r@[j], ms@[j]@),
        decreases ms@.len() - i,
    {
        r.push(present(&ms[i]));
        i = i + 1;
    }
    r
}

} // verus!
