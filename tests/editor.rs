use text_editor::buffer::{Buffer, EditAction, Motion};
use text_editor::editor::{
    highlight_extension_from, load_result, picked_path, save_result, Editor, Error, IoKind, Message,
    Status, Task,
};

fn chars(s: &str) -> Vec<char> {
    s.chars().collect()
}

fn text_of(e: &Editor) -> String {
    e.text().into_iter().collect()
}

fn loaded(path: &str, content: &str) -> Editor {
    let (mut e, _) = Editor::new(path.to_string());
    e.update(Message::FileOpened(Ok((path.to_string(), chars(content)))));
    e
}

#[test]
fn start_load_edit_save() {
    let (mut e, task) = Editor::new("/src/main.rs".to_string());
    assert!(matches!(task, Task::Load(ref p) if p == "/src/main.rs"));
    let read = load_result("/src/main.rs".to_string(), Ok(chars("fn main() {}\n")));
    e.update(Message::FileOpened(read));
    assert_eq!(text_of(&e), "fn main() {}\n");
    assert_eq!(e.path(), Some("/src/main.rs".to_string()));
    e.update(Message::Edit(EditAction::Insert('x')));
    assert!(e.is_dirty());
    assert_eq!(text_of(&e), "xfn main() {}\n");
    let task = e.update(Message::Save);
    match task {
        Task::Save { path, text } => {
            assert_eq!(path, Some("/src/main.rs".to_string()));
            assert_eq!(text, chars("xfn main() {}\n"));
            e.update(Message::FileSave(save_result(path.unwrap(), Ok(()))));
        }
        _ => panic!("save schedules a write"),
    }
    assert!(!e.is_dirty());
    assert_eq!(e.path(), Some("/src/main.rs".to_string()));
    assert_eq!(e.error(), None);
}

#[test]
fn new_then_cancelled_save() {
    let mut e = loaded("a.txt", "abc");
    e.update(Message::New);
    let task = e.update(Message::Save);
    match task {
        Task::Save { path, text } => {
            assert_eq!(path, None);
            assert!(text.is_empty());
        }
        _ => panic!("save schedules a write"),
    }
    e.update(Message::FileSave(picked_path(None)));
    assert_eq!(e.error(), Some(Error::DialogClosed));
    assert_eq!(e.path(), None);
    assert!(e.text().is_empty());
}

#[test]
fn open_of_vanished_file() {
    let mut e = loaded("a.txt", "abc");
    e.update(Message::Edit(EditAction::Insert('z')));
    let before_dirty = e.is_dirty();
    assert!(matches!(e.update(Message::Open), Task::PickAndLoad));
    let picked = picked_path(Some("gone.txt".to_string())).unwrap();
    let read = load_result(picked, Err(IoKind::NotFound));
    e.update(Message::FileOpened(read));
    assert_eq!(e.error(), Some(Error::IOFailed(IoKind::NotFound)));
    assert_eq!(text_of(&e), "zabc");
    assert_eq!(e.path(), Some("a.txt".to_string()));
    assert_eq!(e.is_dirty(), before_dirty);
}

#[test]
fn edits_mark_dirty_until_save() {
    let mut e = loaded("a.txt", "abc");
    e.update(Message::FileSave(Ok("a.txt".to_string())));
    assert!(!e.is_dirty());
    e.update(Message::Edit(EditAction::Move(Motion::Right)));
    assert!(!e.is_dirty());
    e.update(Message::Edit(EditAction::Delete));
    assert!(e.is_dirty());
    e.update(Message::Edit(EditAction::Move(Motion::Left)));
    e.update(Message::Open);
    e.update(Message::FileOpened(Err(Error::DialogClosed)));
    e.update(Message::FileSave(Err(Error::IOFailed(IoKind::PermissionDenied))));
    assert!(e.is_dirty());
    e.update(Message::FileSave(Ok("a.txt".to_string())));
    assert!(!e.is_dirty());
}

#[test]
fn new_resets_document() {
    let mut e = loaded("a.txt", "abc");
    e.update(Message::FileSave(Err(Error::DialogClosed)));
    e.update(Message::FileSave(Ok("a.txt".to_string())));
    e.update(Message::FileOpened(Err(Error::IOFailed(IoKind::Other))));
    e.update(Message::New);
    assert_eq!(e.path(), None);
    assert!(e.text().is_empty());
    assert!(e.is_dirty());
    assert_eq!(e.error(), None);
    assert_eq!(e.cursor_position(), (0, 0));
}

#[test]
fn save_sets_path_and_cleans() {
    let (mut e, _) = Editor::new("d.txt".to_string());
    e.update(Message::FileSave(Ok("chosen.txt".to_string())));
    assert_eq!(e.path(), Some("chosen.txt".to_string()));
    assert!(!e.is_dirty());
    e.update(Message::Edit(EditAction::Enter));
    e.update(Message::FileSave(Ok("chosen.txt".to_string())));
    assert_eq!(e.path(), Some("chosen.txt".to_string()));
    assert!(!e.is_dirty());
}

#[test]
fn failures_change_only_the_error() {
    let mut e = loaded("a.txt", "abc");
    e.update(Message::Edit(EditAction::Move(Motion::DocumentEnd)));
    e.update(Message::FileSave(Err(Error::IOFailed(IoKind::AlreadyExists))));
    assert_eq!(e.error(), Some(Error::IOFailed(IoKind::AlreadyExists)));
    e.update(Message::FileOpened(Err(Error::DialogClosed)));
    assert_eq!(e.error(), Some(Error::DialogClosed));
    assert_eq!(text_of(&e), "abc");
    assert_eq!(e.path(), Some("a.txt".to_string()));
    assert!(e.is_dirty());
    assert_eq!(e.cursor_position(), (0, 3));
}

#[test]
fn saving_twice_writes_same_content() {
    let mut e = loaded("a.txt", "one\ntwo");
    e.update(Message::FileSave(Ok("a.txt".to_string())));
    let first = e.update(Message::Save);
    e.update(Message::FileSave(Ok("a.txt".to_string())));
    let second = e.update(Message::Save);
    e.update(Message::FileSave(Ok("a.txt".to_string())));
    for t in [first, second] {
        match t {
            Task::Save { path, text } => {
                assert_eq!(path, Some("a.txt".to_string()));
                assert_eq!(text, chars("one\ntwo"));
            }
            _ => panic!("save schedules a write"),
        }
    }
    assert!(!e.is_dirty());
    e.update(Message::FileOpened(Ok(("a.txt".to_string(), chars("one\ntwo")))));
    assert_eq!(text_of(&e), "one\ntwo");
}

#[test]
fn buffer_edits_at_cursor() {
    let mut b = Buffer::with(&chars("ab"));
    b.edit(EditAction::Move(Motion::Right));
    b.edit(EditAction::Insert('x'));
    assert_eq!(b.text(), chars("axb"));
    b.edit(EditAction::Backspace);
    b.edit(EditAction::Backspace);
    b.edit(EditAction::Backspace);
    assert_eq!(b.text(), chars("b"));
    b.edit(EditAction::Delete);
    b.edit(EditAction::Delete);
    assert!(b.text().is_empty());
    assert_eq!(b.len(), 0);
}

#[test]
fn cursor_position_counts_lines_and_columns() {
    let mut b = Buffer::with(&chars("ab\ncde\n"));
    assert_eq!(b.cursor_position(), (0, 0));
    b.edit(EditAction::Move(Motion::Right));
    b.edit(EditAction::Move(Motion::Right));
    assert_eq!(b.cursor_position(), (0, 2));
    b.edit(EditAction::Move(Motion::Right));
    assert_eq!(b.cursor_position(), (1, 0));
    b.edit(EditAction::Move(Motion::Right));
    b.edit(EditAction::Move(Motion::Right));
    assert_eq!(b.cursor_position(), (1, 2));
    b.edit(EditAction::Move(Motion::DocumentEnd));
    assert_eq!(b.cursor_position(), (2, 0));
    b.edit(EditAction::Move(Motion::DocumentStart));
    b.edit(EditAction::Move(Motion::Left));
    assert_eq!(b.cursor_position(), (0, 0));
    b.edit(EditAction::Enter);
    assert_eq!(b.cursor_position(), (1, 0));
    assert_eq!(b.text(), chars("\nab\ncde\n"));
}

#[test]
fn is_edit_tells_moves_apart() {
    assert!(!EditAction::Move(Motion::Left).is_edit());
    assert!(!EditAction::Select(Motion::Up).is_edit());
    assert!(!EditAction::SelectAll.is_edit());
    assert!(!EditAction::MoveTo(0, 0).is_edit());
    assert!(!EditAction::DragTo(1, 1).is_edit());
    assert!(EditAction::Insert('a').is_edit());
    assert!(EditAction::Enter.is_edit());
    assert!(EditAction::Backspace.is_edit());
    assert!(EditAction::Delete.is_edit());
}

#[test]
fn outcomes_of_file_operations() {
    assert_eq!(picked_path(None), Err(Error::DialogClosed));
    assert_eq!(picked_path(Some("p".to_string())), Ok("p".to_string()));
    assert_eq!(
        load_result("p".to_string(), Err(IoKind::InvalidData)),
        Err(Error::IOFailed(IoKind::InvalidData))
    );
    assert_eq!(load_result("p".to_string(), Ok(chars("t"))), Ok(("p".to_string(), chars("t"))));
    assert_eq!(save_result("p".to_string(), Ok(())), Ok("p".to_string()));
    assert_eq!(
        save_result("p".to_string(), Err(IoKind::PermissionDenied)),
        Err(Error::IOFailed(IoKind::PermissionDenied))
    );
}

#[test]
fn status_line() {
    let (mut e, _) = Editor::new("d".to_string());
    assert!(matches!(e.status(), Status::Untitled));
    e.update(Message::FileSave(Ok("f.rs".to_string())));
    assert!(matches!(e.status(), Status::File(ref p) if p == "f.rs"));
    e.update(Message::FileSave(Err(Error::DialogClosed)));
    assert!(matches!(e.status(), Status::Failure(Error::DialogClosed)));
    e.update(Message::FileOpened(Err(Error::IOFailed(IoKind::NotFound))));
    assert!(matches!(e.status(), Status::Failure(Error::IOFailed(IoKind::NotFound))));
    e.update(Message::New);
    assert!(matches!(e.status(), Status::Untitled));
}

#[test]
fn success_clears_errors_by_kind() {
    let mut e = loaded("a.txt", "abc");
    e.update(Message::FileOpened(Err(Error::DialogClosed)));
    e.update(Message::FileSave(Ok("a.txt".to_string())));
    assert_eq!(e.error(), Some(Error::DialogClosed));
    e.update(Message::Edit(EditAction::Insert('q')));
    assert_eq!(e.error(), Some(Error::DialogClosed));
    e.update(Message::FileOpened(Ok(("b.txt".to_string(), chars("b")))));
    assert_eq!(e.error(), None);
    e.update(Message::FileSave(Err(Error::IOFailed(IoKind::PermissionDenied))));
    e.update(Message::FileOpened(Ok(("c.txt".to_string(), chars("c")))));
    assert_eq!(e.error(), None);
    assert!(matches!(e.status(), Status::File(ref p) if p == "c.txt"));
    e.update(Message::FileSave(Err(Error::IOFailed(IoKind::TimedOut))));
    assert_eq!(e.error(), Some(Error::IOFailed(IoKind::TimedOut)));
    e.update(Message::FileSave(Ok("c.txt".to_string())));
    assert_eq!(e.error(), None);
    assert_eq!(e.len(), 1);
    e.update(Message::Edit(EditAction::SelectAll));
    assert_eq!(e.selection(), Some((0, 1)));
}

#[test]
fn vertical_and_line_motions() {
    let mut b = Buffer::with(&chars("abcd\nx\nlonger"));
    b.edit(EditAction::Move(Motion::End));
    assert_eq!(b.cursor_position(), (0, 4));
    b.edit(EditAction::Move(Motion::Down));
    assert_eq!(b.cursor_position(), (1, 1));
    b.edit(EditAction::Move(Motion::Down));
    assert_eq!(b.cursor_position(), (2, 1));
    b.edit(EditAction::Move(Motion::Down));
    assert_eq!(b.cursor_position(), (2, 6));
    b.edit(EditAction::Move(Motion::Up));
    assert_eq!(b.cursor_position(), (1, 1));
    b.edit(EditAction::Move(Motion::Up));
    assert_eq!(b.cursor_position(), (0, 1));
    b.edit(EditAction::Move(Motion::Up));
    assert_eq!(b.cursor_position(), (0, 0));
    b.edit(EditAction::Move(Motion::Down));
    b.edit(EditAction::Move(Motion::Down));
    b.edit(EditAction::Move(Motion::End));
    assert_eq!(b.cursor_position(), (2, 6));
    b.edit(EditAction::Move(Motion::Home));
    assert_eq!(b.cursor_position(), (2, 0));
    b.edit(EditAction::Insert('!'));
    assert_eq!(b.text(), chars("abcd\nx\n!longer"));
}

#[test]
fn click_places_cursor() {
    let mut b = Buffer::with(&chars("ab\ncdef\n"));
    b.edit(EditAction::MoveTo(1, 2));
    assert_eq!(b.cursor_position(), (1, 2));
    b.edit(EditAction::MoveTo(0, 9));
    assert_eq!(b.cursor_position(), (0, 2));
    b.edit(EditAction::MoveTo(7, 3));
    assert_eq!(b.cursor_position(), (2, 0));
    b.edit(EditAction::MoveTo(1, 1));
    b.edit(EditAction::Insert('Z'));
    assert_eq!(b.text(), chars("ab\ncZdef\n"));
}

#[test]
fn typing_replaces_selection() {
    let mut b = Buffer::with(&chars("hello world"));
    b.edit(EditAction::Select(Motion::Right));
    b.edit(EditAction::Select(Motion::Right));
    assert_eq!(b.selection(), Some((0, 2)));
    b.edit(EditAction::Insert('J'));
    assert_eq!(b.text(), chars("Jllo world"));
    assert_eq!(b.selection(), None);
    b.edit(EditAction::MoveTo(0, 10));
    b.edit(EditAction::DragTo(0, 4));
    assert_eq!(b.selection(), Some((4, 10)));
    b.edit(EditAction::Backspace);
    assert_eq!(b.text(), chars("Jllo"));
    b.edit(EditAction::SelectAll);
    b.edit(EditAction::Delete);
    assert!(b.text().is_empty());
    b.edit(EditAction::Insert('a'));
    b.edit(EditAction::Select(Motion::Left));
    b.edit(EditAction::Move(Motion::Right));
    assert_eq!(b.selection(), None);
    b.edit(EditAction::Select(Motion::Home));
    b.edit(EditAction::Enter);
    assert_eq!(b.text(), chars("\n"));
}

#[test]
fn editor_save_writes_what_was_typed_after_moves() {
    let mut e = loaded("a.txt", "one\ntwo");
    e.update(Message::Edit(EditAction::Move(Motion::Down)));
    e.update(Message::Edit(EditAction::Insert('>')));
    assert_eq!(e.cursor_position(), (1, 1));
    match e.update(Message::Save) {
        Task::Save { text, .. } => assert_eq!(text, chars("one\n>two")),
        _ => panic!("save schedules a write"),
    }
}

#[test]
fn highlight_extension_of_path() {
    assert_eq!(highlight_extension_from(Some("py".to_string())), "py");
    assert_eq!(highlight_extension_from(None), "rs");
    let (mut e, _) = Editor::new("d".to_string());
    assert_eq!(e.highlight_extension(), "rs");
    e.update(Message::FileSave(Ok("dir/notes.txt".to_string())));
    assert_eq!(e.highlight_extension(), "txt");
    e.update(Message::FileSave(Ok("dir.d/Makefile".to_string())));
    assert_eq!(e.highlight_extension(), "rs");
}
