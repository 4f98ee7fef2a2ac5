use guestbook::attachment::{classify, plan_upload, stored_name, MediaKind};
use guestbook::board::{Message, MessageBoard, NewMessage};
use guestbook::error::Fault;
use guestbook::form::{field_role, submit, FieldRole, SubmissionForm};
use guestbook::listing::{body_class, delete_action, present, present_all, theme_from_cookie, upload_url, Theme};

fn new_message(name: &str, body: &str) -> NewMessage {
    NewMessage { name: name.to_string(), body: body.to_string(), image_path: None, video_path: None }
}

fn ids(ms: &[Message]) -> Vec<u64> {
    ms.iter().map(|m| m.id).collect()
}

#[test]
fn classify_upper_case_png_is_image() {
    assert_eq!(classify("photo.PNG"), MediaKind::Image);
}

#[test]
fn classify_webm_is_video() {
    assert_eq!(classify("movie.webm"), MediaKind::Video);
}

#[test]
fn classify_zip_is_unsupported() {
    assert_eq!(classify("archive.zip"), MediaKind::Unsupported);
}

#[test]
fn classify_all_known_extensions() {
    for name in ["a.jpg", "a.jpeg", "a.png", "a.gif", "a.JPG", "dir/a.Gif"] {
        assert_eq!(classify(name), MediaKind::Image, "{}", name);
    }
    for name in ["a.mp4", "a.mov", "a.avi", "a.webm", "a.MOV"] {
        assert_eq!(classify(name), MediaKind::Video, "{}", name);
    }
}

#[test]
fn classify_edge_names() {
    assert_eq!(classify(""), MediaKind::Unsupported);
    assert_eq!(classify("png"), MediaKind::Unsupported);
    assert_eq!(classify(".png"), MediaKind::Unsupported);
    assert_eq!(classify("x.png/"), MediaKind::Unsupported);
    assert_eq!(classify("a.b.png"), MediaKind::Image);
    assert_eq!(classify(".hidden.png"), MediaKind::Image);
    assert_eq!(classify("a.png.zip"), MediaKind::Unsupported);
    assert_eq!(classify("a.pngx"), MediaKind::Unsupported);
}

#[test]
fn stored_name_joins_with_hyphen() {
    assert_eq!(stored_name("abc", "photo.jpg"), "abc-photo.jpg");
}

#[test]
fn plan_upload_drops_unsupported() {
    assert!(plan_upload("archive.zip").is_none());
}

#[test]
fn plan_upload_names_image() {
    let u = plan_upload("photo.PNG").unwrap();
    assert_eq!(u.kind, MediaKind::Image);
    assert_eq!(u.stored_name.len(), 37 + "photo.PNG".len());
    assert!(u.stored_name.ends_with("-photo.PNG"));
    assert!(u.stored_name[..36].chars().all(|c| c.is_ascii_hexdigit() || c == '-'));
}

#[test]
fn plan_upload_sanitizes_path() {
    let u = plan_upload("../../etc/evil.png").unwrap();
    assert!(!u.stored_name.contains('/'));
    assert!(u.stored_name.ends_with("-....etcevil.png"));
}

#[test]
fn same_filename_gets_distinct_stored_names() {
    let a = plan_upload("photo.jpg").unwrap();
    let b = plan_upload("photo.jpg").unwrap();
    assert_ne!(a.stored_name, b.stored_name);
    assert_eq!(upload_url(&a.stored_name), format!("/uploads/{}", a.stored_name));
    assert_ne!(upload_url(&a.stored_name), upload_url(&b.stored_name));
}

#[test]
fn field_roles() {
    assert_eq!(field_role("name"), FieldRole::Name);
    assert_eq!(field_role("message"), FieldRole::Message);
    assert_eq!(field_role("media"), FieldRole::Media);
    assert_eq!(field_role("image"), FieldRole::Other);
    assert_eq!(field_role("Name"), FieldRole::Other);
}

#[test]
fn form_concatenates_chunks() {
    let mut f = SubmissionForm::new();
    f.push_chunk(FieldRole::Name, b"Bo");
    f.push_chunk(FieldRole::Other, b"zzz");
    f.push_chunk(FieldRole::Name, b"b");
    f.push_chunk(FieldRole::Message, "h\u{e9}".as_bytes());
    f.push_chunk(FieldRole::Message, b"llo");
    let m = f.finish().ok().unwrap();
    assert_eq!(m.name, "Bob");
    assert_eq!(m.body, "h\u{e9}llo");
    assert!(m.image_path.is_none() && m.video_path.is_none());
}

#[test]
fn form_decodes_character_split_across_chunks() {
    let mut f = SubmissionForm::new();
    let bytes = "\u{e9}".as_bytes();
    f.push_chunk(FieldRole::Name, &bytes[..1]);
    f.push_chunk(FieldRole::Name, &bytes[1..]);
    assert_eq!(f.finish().ok().unwrap().name, "\u{e9}");
}

#[test]
fn form_rejects_invalid_utf8() {
    let mut f = SubmissionForm::new();
    f.push_chunk(FieldRole::Message, &[0xff, 0xfe]);
    assert_eq!(f.finish().err(), Some(Fault::Decode));
}

#[test]
fn form_accepts_empty_text() {
    let m = SubmissionForm::new().finish().ok().unwrap();
    assert_eq!(m.name, "");
    assert_eq!(m.body, "");
}

#[test]
fn form_media_kinds() {
    let mut f = SubmissionForm::new();
    assert!(f.accept_media("archive.zip").is_none());
    let img = f.accept_media("photo.PNG").unwrap();
    let m = f.finish().ok().unwrap();
    assert_eq!(m.image_path, Some(img));
    assert!(m.video_path.is_none());

    let mut f = SubmissionForm::new();
    let vid = f.accept_media("movie.webm").unwrap();
    let m = f.finish().ok().unwrap();
    assert!(m.image_path.is_none());
    assert_eq!(m.video_path, Some(vid));
}

#[test]
fn form_keeps_only_first_attachment() {
    let mut f = SubmissionForm::new();
    let img = f.accept_media("photo.PNG").unwrap();
    assert!(f.accept_media("movie.webm").is_none());
    assert!(f.accept_media("other.jpg").is_none());
    let mut board = MessageBoard::new();
    assert_eq!(submit(&mut board, f), Ok(1));
    let list = board.list_all_desc();
    assert_eq!(list[0].image_path, Some(img));
    assert!(list[0].video_path.is_none());
}

#[test]
fn plain_name_is_kept_after_token() {
    let u = plan_upload("my_photo-2.jpg").unwrap();
    assert_eq!(&u.stored_name[36..], "-my_photo-2.jpg");
}

#[test]
fn board_find_by_id() {
    let mut board = MessageBoard::new();
    board.insert(new_message("a", "1")).unwrap();
    board.insert(new_message("b", "2")).unwrap();
    assert_eq!(board.find(2).map(|m| m.name), Some("b".to_string()));
    assert!(board.find(3).is_none());
    board.delete(2);
    assert!(board.find(2).is_none());
}

#[test]
fn round_trip_alice() {
    let mut board = MessageBoard::new();
    assert_eq!(board.insert(new_message("Alice", "**bold**")), Ok(1));
    let list = board.list_all_desc();
    assert_eq!(list.len(), 1);
    assert_eq!(list[0].name, "Alice");
    assert_eq!(list[0].body, "**bold**");
    assert!(list[0].image_path.is_none() && list[0].video_path.is_none());
    let v = present(&list[0]);
    assert!(v.body_html.contains("<strong>bold</strong>"));
    assert!(v.image_src.is_none() && v.video_src.is_none());
}

#[test]
fn listing_is_newest_first() {
    let mut board = MessageBoard::new();
    assert_eq!(board.insert(new_message("a", "1")), Ok(1));
    assert_eq!(board.insert(new_message("b", "2")), Ok(2));
    assert_eq!(board.insert(new_message("c", "3")), Ok(3));
    assert_eq!(ids(&board.list_all_desc()), vec![3, 2, 1]);
}

#[test]
fn empty_board_lists_nothing() {
    assert!(MessageBoard::new().list_all_desc().is_empty());
}

#[test]
fn delete_missing_id_changes_nothing() {
    let mut board = MessageBoard::new();
    board.insert(new_message("a", "1")).unwrap();
    board.insert(new_message("b", "2")).unwrap();
    board.delete(99);
    assert_eq!(ids(&board.list_all_desc()), vec![2, 1]);
}

#[test]
fn delete_removes_and_ids_are_not_reused() {
    let mut board = MessageBoard::new();
    board.insert(new_message("a", "1")).unwrap();
    board.insert(new_message("b", "2")).unwrap();
    board.delete(2);
    assert_eq!(ids(&board.list_all_desc()), vec![1]);
    assert_eq!(board.insert(new_message("c", "3")), Ok(3));
    board.delete(1);
    assert_eq!(ids(&board.list_all_desc()), vec![3]);
}

#[test]
fn insert_fails_when_ids_run_out() {
    let mut board = MessageBoard::new();
    let m = Message { id: u64::MAX - 1, name: "a".to_string(), body: "b".to_string(), image_path: None, video_path: None };
    assert!(board.restore(m).is_ok());
    assert_eq!(board.next_id(), u64::MAX);
    assert_eq!(board.insert(new_message("x", "y")), Err(Fault::Persistence));
    assert_eq!(board.list_all_desc().len(), 1);
}

#[test]
fn restore_requires_increasing_ids() {
    let mut board = MessageBoard::new();
    let m = |id: u64| Message { id, name: "n".to_string(), body: "b".to_string(), image_path: None, video_path: None };
    assert!(board.restore(m(5)).is_ok());
    assert_eq!(board.restore(m(5)), Err(Fault::Persistence));
    assert_eq!(board.restore(m(3)), Err(Fault::Persistence));
    assert!(board.restore(m(9)).is_ok());
    assert_eq!(board.next_id(), 10);
    board.reserve_through(20);
    assert_eq!(board.next_id(), 21);
    board.reserve_through(4);
    assert_eq!(board.next_id(), 21);
    assert_eq!(ids(&board.list_all_desc()), vec![9, 5]);
}

#[test]
fn theme_cookie() {
    assert_eq!(theme_from_cookie(Some("dark")), Theme::Dark);
    assert_eq!(theme_from_cookie(Some("light")), Theme::Light);
    assert_eq!(theme_from_cookie(Some("Dark")), Theme::Light);
    assert_eq!(theme_from_cookie(None), Theme::Light);
    assert_eq!(body_class(Theme::Dark), "dark-mode");
    assert_eq!(body_class(Theme::Light), "");
}

#[test]
fn delete_action_formats_id() {
    assert_eq!(delete_action(0), "/delete/0");
    assert_eq!(delete_action(42), "/delete/42");
    assert_eq!(delete_action(u64::MAX), format!("/delete/{}", u64::MAX));
}

#[test]
fn present_attachment_addresses() {
    let m = Message {
        id: 7,
        name: "<b>x</b>".to_string(),
        body: "~~gone~~".to_string(),
        image_path: Some("t-photo.png".to_string()),
        video_path: None,
    };
    let v = present(&m);
    assert_eq!(v.id, 7);
    assert_eq!(v.name, "<b>x</b>");
    assert!(v.body_html.contains("<del>gone</del>"));
    assert_eq!(v.image_src.as_deref(), Some("/uploads/t-photo.png"));
    assert!(v.video_src.is_none());
    assert_eq!(v.delete_action, "/delete/7");
}

#[test]
fn submit_bob_hello_end_to_end() {
    let mut board = MessageBoard::new();
    let mut f = SubmissionForm::new();
    f.push_chunk(field_role("name"), b"Bob");
    f.push_chunk(field_role("message"), b"hello");
    assert_eq!(submit(&mut board, f), Ok(1));
    let views = present_all(&board.list_all_desc());
    assert_eq!(views.len(), 1);
    assert_eq!(views[0].name, "Bob");
    assert_eq!(views[0].body_html.trim_end(), "<p>hello</p>");
}

#[test]
fn submit_invalid_text_stores_nothing() {
    let mut board = MessageBoard::new();
    let mut f = SubmissionForm::new();
    f.push_chunk(FieldRole::Name, &[0xc3]);
    assert_eq!(submit(&mut board, f), Err(Fault::Decode));
    assert!(board.list_all_desc().is_empty());
    assert_eq!(board.next_id(), 1);
}
