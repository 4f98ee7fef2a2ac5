//! Attachment classification by file extension, and the names under which
//! accepted uploads are stored.
use vstd::prelude::*;
use vstd::string::{StrSliceExecFns, StringExecFns};
use crate::text::{chars_of, last_pos, lemma_last_pos_bounds};

verus! {

/// What an uploaded file is taken for, by its extension.
#[derive(Clone, Copy, Debug, PartialEq, Eq, Structural)]
pub enum MediaKind {
    Image,
    Video,
    Unsupported,
}

/// `c` is `l` up to ASCII case, where `l` is written in lower case.
pub open spec fn lower_eq(c: char, l: char) -> bool {
    c == l || ('a' <= l && l <= 'z' && c as u32 + 32 == l as u32)
}

/// `s` spells `lit` ignoring ASCII case (`lit` written in lower case).
pub open spec fn spells(s: Seq<char>, lit: Seq<char>) -> bool {
    s.len() == lit.len() && forall|i: int| 0 <= i < s.len() ==> lower_eq(s[i], lit[i])
}

/// The extension of a file name: what follows the last `.` of its last
/// `/`-separated segment, unless that dot opens the segment.
pub open spec fn extension_of(name: Seq<char>) -> Option<Seq<char>> {
    let d = last_pos(name, '.');
    if d > last_pos(name, '/') + 1 {
        Some(name.subrange(d + 1, name.len() as int))
    } else {
        None
    }
}

pub open spec fn is_image_ext(e: Seq<char>) -> bool {
    spells(e, "jpg"@) || spells(e, "jpeg"@) || spells(e, "png"@) || spells(e, "gif"@)
}

pub open spec fn is_video_ext(e: Seq<char>) -> bool {
    spells(e, "mp4"@) || spells(e, "mov"@) || spells(e, "avi"@) || spells(e, "webm"@)
}

/// The kind of an uploaded file, by its name.
pub open spec fn kind_of_name(name: Seq<char>) -> MediaKind {
    match extension_of(name) {
        Some(e) => if is_image_ext(e) {
            MediaKind::Image
        } else if is_video_ext(e) {
            MediaKind::Video
        } else {
            MediaKind::Unsupported
        },
        None => MediaKind::Unsupported,
    }
}

/// Whether the characters of `s` from `from` on spell `lit`, ignoring ASCII case.
fn suffix_spells(s: &Vec<char>, from: usize, lit: &str) -> (r: bool)
    requires
        from <= s@.len(),
    ensures
        r == spells(s@.subrange(from as int, s@.len() as int), lit@),
{
    let n = lit.unicode_len();
    if s.len() - from != n {
        return false;
    }
    let ghost e = s@.subrange(from as int, s@.len() as int);
    let mut i: usize = 0;
    while i < n
        invariant
            n == lit@.len(),
            from + n == s@.len(),
            s@.len() <= usize::MAX,
            e == s@.subrange(from as int, s@.len() as int),
            i <= n,
            forall|j: int| 0 <= j < i ==> lower_eq(e[j], lit@[j]),
        decreases n - i,
    {
        let c = s[from + i];
        let l = lit.get_char(i);
        let same = c == l || ('a' <= l && l <= 'z' && c as u32 == l as u32 - 32);
        if !same {
            return false;
        }
        i = i + 1;
    }
    true
}

/// Classifies an uploaded file by the extension of its name, ignoring ASCII case:
/// jpg, jpeg, png and gif are images; mp4, mov, avi and webm are videos.
pub fn classify(filename: &str) -> (r: MediaKind)
    ensures
        r == kind_of_name(filename@),
{
    let s = chars_of(filename);
    let n = s.len();
    let mut dot: usize = 0;
    let mut slash: usize = 0;
    let mut i: usize = 0;
    while i < n
        invariant
            n == s@.len(),
            i <= n,
            dot as int == last_pos(s@.subrange(0, i as int), '.') + 1,
            slash as int == last_pos(s@.subrange(0, i as int), '/') + 1,
        decreases n - i,
    {
        assert(s@.subrange(0, i + 1).drop_last() =~= s@.subrange(0, i as int));
        if s[i] == '.' {
            dot = i + 1;
        }
        if s[i] == '/' {
            slash = i + 1;
        }
        i = i + 1;
    }
    assert(s@.subrange(0, n as int) =~= s@);
    proof {
        lemma_last_pos_bounds(s@, '.');
        lemma_last_pos_bounds(s@, '/');
    }
    if dot == 0 || dot - 1 <= slash {
        return MediaKind::Unsupported;
    }
    if suffix_spells(&s, dot, "jpg") || suffix_spells(&s, dot, "jpeg")
        || suffix_spells(&s, dot, "png") || suffix_spells(&s, dot, "gif") {
        MediaKind::Image
    } else if suffix_spells(&s, dot, "mp4") || suffix_spells(&s, dot, "mov")
        || suffix_spells(&s, dot, "avi") || suffix_spells(&s, dot, "webm") {
        MediaKind::Video
    } else {
        MediaKind::Unsupported
    }
}

/// A lower-case hexadecimal digit, or the hyphen that groups them.
pub open spec fn is_token_char(c: char) -> bool {
    ('0' <= c && c <= '9') || ('a' <= c && c <= 'f') || c == '-'
}

/// The text of a random unique token: a hyphenated 128-bit id.
pub open spec fn is_token(t: Seq<char>) -> bool {
    t.len() == 36 && forall|i: int| 0 <= i < t.len() ==> is_token_char(#[trigger] t[i])
}

/// A single path segment: it holds no separator and is neither `.` nor `..`.
pub open spec fn is_safe_segment(s: Seq<char>) -> bool {
    &&& forall|i: int| 0 <= i < s.len() ==> #[trigger] s[i] != '/' && s[i] != '\\'
    &&& s != seq!['.']
    &&& s != seq!['.', '.']
}

/// The stored name made of a token and a cleaned original name.
pub open spec fn stored_name_of(token: Seq<char>, clean: Seq<char>) -> Seq<char> {
    token + seq!['-'] + clean
}

/// A character that no file-name cleaning touches: an ASCII letter or
/// digit, `-`, `_` or `.`.
pub open spec fn is_plain_char(c: char) -> bool {
    ('a' <= c && c <= 'z') || ('A' <= c && c <= 'Z') || ('0' <= c && c <= '9') || c == '-' || c == '_' || c == '.'
}

/// A name whose first `k` characters spell `stem` (ignoring ASCII case) and
/// which ends there or goes on with a `.`.
pub open spec fn opens_with_device(s: Seq<char>, stem: Seq<char>) -> bool {
    s.len() >= stem.len() && spells(s.subrange(0, stem.len() as int), stem)
        && (s.len() == stem.len() || s[stem.len() as int] == '.')
}

/// A name reserved for a device on Windows: `con`, `prn`, `aux`, `nul`,
/// `com0`-`com9` or `lpt0`-`lpt9`, alone or followed by a `.` and more.
pub open spec fn is_device_name(s: Seq<char>) -> bool {
    ||| opens_with_device(s, "con"@)
    ||| opens_with_device(s, "prn"@)
    ||| opens_with_device(s, "aux"@)
    ||| opens_with_device(s, "nul"@)
    ||| (s.len() >= 4 && (spells(s.subrange(0, 3), "com"@) || spells(s.subrange(0, 3), "lpt"@))
        && '0' <= s[3] && s[3] <= '9' && (s.len() == 4 || s[4] == '.'))
}

/// A file name that cleaning leaves as it is: plain characters only, at
/// most 255 of them, not ending with `.`, and no device name.
pub open spec fn is_plain_name(s: Seq<char>) -> bool {
    &&& 0 < s.len() <= 255
    &&& forall|i: int| 0 <= i < s.len() ==> is_plain_char(#[trigger] s[i])
    &&& s.last() != '.'
    &&& !is_device_name(s)
}

/// Relies on uuid::Uuid::new_v4 and its hyphenated lower-case text form
/// (`Display`): 36 characters, hexadecimal digits and hyphens.
#[verifier::external_body]
fn fresh_token() -> (r: String)
    ensures
        is_token(r@),
{
    uuid::Uuid::new_v4().to_string()
}

/// Relies on sanitize_filename::sanitize: with the default options it removes
/// `/`, `\` and the other reserved characters, and replaces a name made of
/// dots only by the empty string. A name with none of these, not over 255
/// bytes, that no platform's rules touch (no trailing dot or space, no
/// Windows device name), comes back unchanged.
#[verifier::external_body]
fn sanitize_name(name: &str) -> (r: String)
    ensures
        is_safe_segment(r@),
        is_plain_name(name@) ==> r@ == name@,
{
    sanitize_filename::sanitize(name)
}

/// The name under which an upload is stored: `{token}-{clean}`.
pub fn stored_name(token: &str, clean: &str) -> (r: String)
    ensures
        r@ == stored_name_of(token@, clean@),
{
    let mut r = String::from_str(token);
    proof {
        reveal_strlit("-");
    }
    r.append("-");
    r.append(clean);
    r
}

/// An accepted upload: its kind and the name it is stored under.
pub struct Upload {
    pub kind: MediaKind,
    pub stored_name: String,
}

/// Decides what becomes of an uploaded file. An unsupported one is dropped
/// (`None`); an image or a video gets a fresh stored name made of a random
/// token and the cleaned original name.
pub fn plan_upload(filename: &str) -> (r: Option<Upload>)
    ensures
        r is None <==> kind_of_name(filename@) == MediaKind::Unsupported,
        r matches Some(u) ==> u.kind == kind_of_name(filename@) && exists|t: Seq<char>, c: Seq<char>|
            is_token(t) && is_safe_segment(c) && u.stored_name@ == stored_name_of(t, c),
        r matches Some(u) ==> is_plain_name(filename@) ==> exists|t: Seq<char>|
            is_token(t) && u.stored_name@ == stored_name_of(t, filename@),
{
    let kind = classify(filename);
    match kind {
        MediaKind::Unsupported => None,
        _ => {
            let token = fresh_token();
            let clean = sanitize_name(filename);
            let name = stored_name(token.as_str(), clean.as_str());
            Some(Upload { kind, stored_name: name })
        },
    }
}

/// Stored names built from different tokens differ, whatever the original
/// names were: two uploads never overwrite each other.
pub proof fn law_distinct_tokens_distinct_names(t1: Seq<char>, c1: Seq<char>, t2: Seq<char>, c2: Seq<char>)
    requires
        is_token(t1),
        is_token(t2),
        t1 != t2,
    ensures
        stored_name_of(t1, c1) != stored_name_of(t2, c2),
{
    let n1 = stored_name_of(t1, c1);
    let n2 = stored_name_of(t2, c2);
    assert(n1.subrange(0, 36) =~= t1);
    assert(n2.subrange(0, 36) =~= t2);
}

/// A stored name is a single safe path segment: it cannot leave the upload
/// directory.
pub proof fn law_stored_name_is_segment(t: Seq<char>, c: Seq<char>)
    requires
        is_token(t),
        is_safe_segment(c),
    ensures
        is_safe_segment(stored_name_of(t, c)),
{
    let n = stored_name_of(t, c);
    assert forall|i: int| 0 <= i < n.len() implies #[trigger] n[i] != '/' && n[i] != '\\' by {
        if i < 36 {
            assert(n[i] == t[i]);
            assert(is_token_char(t[i]));
        } else if i > 36 {
            assert(n[i] == c[i - 37]);
        }
    }
    assert(n.len() >= 37);
    assert(n[0] == t[0]);
    assert(is_token_char(t[0]));
}

} // verus!
