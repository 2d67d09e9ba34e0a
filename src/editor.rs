use vstd::prelude::*;

use crate::buffer::{apply_action, column_of, line_of, selection, Buffer, BufferModel, EditAction};

verus! {

/// The operating system's classification of a failed read or write.
#[derive(Clone, Copy, Debug, PartialEq, Eq, Structural)]
pub enum IoKind {
    NotFound,
    PermissionDenied,
    ConnectionRefused,
    ConnectionReset,
    HostUnreachable,
    NetworkUnreachable,
    ConnectionAborted,
    NotConnected,
    AddrInUse,
    AddrNotAvailable,
    NetworkDown,
    BrokenPipe,
    AlreadyExists,
    WouldBlock,
    NotADirectory,
    IsADirectory,
    DirectoryNotEmpty,
    ReadOnlyFilesystem,
    StaleNetworkFileHandle,
    InvalidInput,
    InvalidData,
    TimedOut,
    WriteZero,
    StorageFull,
    NotSeekable,
    FileTooLarge,
    ResourceBusy,
    ExecutableFileBusy,
    Deadlock,
    CrossesDevices,
    TooManyLinks,
    InvalidFilename,
    ArgumentListTooLong,
    Interrupted,
    Unsupported,
    UnexpectedEof,
    OutOfMemory,
    Other,
}

/// Why a file operation did not complete.
#[derive(Clone, Copy, Debug, PartialEq, Eq, Structural)]
pub enum Error {
    DialogClosed,
    IOFailed(IoKind),
}

/// The kind of file operation that an error came from.
#[derive(Clone, Copy, Debug, PartialEq, Eq, Structural)]
pub enum FileOp {
    Open,
    Save,
}

/// An intent: a user's gesture, or the result of a finished file operation.
pub enum Message {
    Edit(EditAction),
    FileOpened(Result<(String, Vec<char>), Error>),
    Open,
    New,
    Save,
    FileSave(Result<String, Error>),
}

/// File work that the editor hands out, to be run off the interactive loop.
/// Its single result comes back as a `FileOpened` or `FileSave` message.
pub enum Task {
    Idle,
    /// Read the file at this path.
    Load(String),
    /// Let the user pick a file, then read it.
    PickAndLoad,
    /// Write `text` to `path`; with no path, ask the user for one first.
    Save { path: Option<String>, text: Vec<char> },
}

/// The abstract document state.
pub struct EditorModel {
    pub buffer: BufferModel,
    pub path: Option<Seq<char>>,
    /// The last error, with the kind of operation that reported it.
    pub error: Option<(FileOp, Error)>,
    pub dirty: bool,
}

/// The last error without the kind of operation that reported it.
pub open spec fn last_error(s: EditorModel) -> Option<Error> {
    match s.error {
        Some((_, e)) => Some(e),
        None => None,
    }
}

/// What a success of operation `op` leaves of the last error: an error of another kind stays.
pub open spec fn cleared_by(error: Option<(FileOp, Error)>, op: FileOp) -> Option<(FileOp, Error)> {
    match error {
        Some((o, _)) => if o == op {
            None
        } else {
            error
        },
        None => None,
    }
}

pub open spec fn path_view(p: Option<String>) -> Option<Seq<char>> {
    match p {
        Some(s) => Some(s@),
        None => None,
    }
}

/// The state at start-up and after `New`.
pub open spec fn initial_model() -> EditorModel {
    EditorModel {
        buffer: BufferModel { text: Seq::empty(), cursor: 0, anchor: None },
        path: None,
        error: None,
        dirty: true,
    }
}

/// The state after one message.
pub open spec fn next(s: EditorModel, m: Message) -> EditorModel {
    match m {
        Message::Edit(a) => EditorModel {
            buffer: apply_action(s.buffer, a),
            dirty: s.dirty || a.spec_is_edit(),
            ..s
        },
        Message::Open => s,
        Message::Save => s,
        Message::New => initial_model(),
        Message::FileOpened(Ok((p, c))) => EditorModel {
            buffer: BufferModel { text: c@, cursor: 0, anchor: None },
            path: Some(p@),
            error: None,
            ..s
        },
        Message::FileOpened(Err(e)) => EditorModel { error: Some((FileOp::Open, e)), ..s },
        Message::FileSave(Ok(p)) => EditorModel {
            path: Some(p@),
            error: cleared_by(s.error, FileOp::Save),
            dirty: false,
            ..s
        },
        Message::FileSave(Err(e)) => EditorModel { error: Some((FileOp::Save, e)), ..s },
    }
}

/// The task that a message schedules in state `s`.
pub open spec fn task_matches(s: EditorModel, m: Message, t: Task) -> bool {
    match m {
        Message::Open => t is PickAndLoad,
        Message::Save => match t {
            Task::Save { path, text } => path_view(path) == s.path && text@ == s.buffer.text,
            _ => false,
        },
        _ => t is Idle,
    }
}

/// The state after each message of `msgs` in turn.
pub open spec fn run(s: EditorModel, msgs: Seq<Message>) -> EditorModel
    decreases msgs.len(),
{
    if msgs.len() == 0 {
        s
    } else {
        run(next(s, msgs[0]), msgs.skip(1))
    }
}

/// The single document of the editor.
pub struct Editor {
    content: Buffer,
    error: Option<(FileOp, Error)>,
    path: Option<String>,
    is_dirty: bool,
}

impl View for Editor {
    type V = EditorModel;

    closed spec fn view(&self) -> EditorModel {
        EditorModel {
            buffer: self.content@,
            path: path_view(self.path),
            error: self.error,
            dirty: self.is_dirty,
        }
    }
}

fn cleared(error: Option<(FileOp, Error)>, op: FileOp) -> (r: Option<(FileOp, Error)>)
    ensures
        r == cleared_by(error, op),
{
    match error {
        Some((o, e)) => if o == op {
            None
        } else {
            Some((o, e))
        },
        None => None,
    }
}

fn copy_path(p: &Option<String>) -> (r: Option<String>)
    ensures
        path_view(r) == path_view(*p),
{
    match p {
        Some(s) => Some(s.clone()),
        None => None,
    }
}

impl Editor {
    pub closed spec fn wf(&self) -> bool {
        self.content.wf()
    }

    /// The start-up state, and the load of `default_path` that runs first.
    pub fn new(default_path: String) -> (r: (Editor, Task))
        ensures
            r.0.wf(),
            r.0@ == initial_model(),
            r.1 matches Task::Load(p) && p@ == default_path@,
    {
        let empty: Vec<char> = Vec::new();
        let editor = Editor { content: Buffer::with(&empty), error: None, path: None, is_dirty: true };
        assert(editor@.buffer.text =~= Seq::<char>::empty());
        (editor, Task::Load(default_path))
    }

    /// Handles one message: changes the state and says which file work to start.
    pub fn update(&mut self, message: Message) -> (t: Task)
        requires
            old(self).wf(),
            message is Edit ==> old(self)@.buffer.text.len() < usize::MAX,
        ensures
            final(self).wf(),
            final(self)@ == next(old(self)@, message),
            task_matches(old(self)@, message, t),
    {
        match message {
            Message::Edit(action) => {
                self.is_dirty = self.is_dirty || action.is_edit();
                self.content.edit(action);
                Task::Idle
            },
            Message::Open => Task::PickAndLoad,
            Message::FileOpened(Ok((path, content))) => {
                self.path = Some(path);
                self.content = Buffer::with(&content);
                self.error = None;
                Task::Idle
            },
            Message::FileOpened(Err(error)) => {
                self.error = Some((FileOp::Open, error));
                Task::Idle
            },
            Message::New => {
                let empty: Vec<char> = Vec::new();
                self.is_dirty = true;
                self.path = None;
                self.content = Buffer::with(&empty);
                self.error = None;
                assert(self@.buffer.text =~= Seq::<char>::empty());
                Task::Idle
            },
            Message::FileSave(Ok(path)) => {
                self.path = Some(path);
                self.is_dirty = false;
                self.error = cleared(self.error, FileOp::Save);
                Task::Idle
            },
            Message::FileSave(Err(error)) => {
                self.error = Some((FileOp::Save, error));
                Task::Idle
            },
            Message::Save => {
                let text = self.content.text();
                Task::Save { path: copy_path(&self.path), text }
            },
        }
    }
}


impl Editor {
    /// True when the buffer may differ from the file; the save action is offered only then.
    pub fn is_dirty(&self) -> (r: bool)
        ensures
            r == self@.dirty,
    {
        self.is_dirty
    }

    pub fn path(&self) -> (r: Option<String>)
        ensures
            path_view(r) == self@.path,
    {
        copy_path(&self.path)
    }

    /// The last error, if any.
    pub fn error(&self) -> (r: Option<Error>)
        ensures
            r == last_error(self@),
    {
        match self.error {
            Some((_, e)) => Some(e),
            None => None,
        }
    }

    /// The number of characters in the document.
    pub fn len(&self) -> (r: usize)
        ensures
            r == self@.buffer.text.len(),
    {
        self.content.len()
    }

    /// The selected range of the document, if anything is selected.
    pub fn selection(&self) -> (r: Option<(usize, usize)>)
        ensures
            match r {
                Some((lo, hi)) => selection(self@.buffer) == Some((lo as nat, hi as nat)),
                None => selection(self@.buffer) is None,
            },
    {
        self.content.selection()
    }

    /// The characters of the document.
    pub fn text(&self) -> (r: Vec<char>)
        ensures
            r@ == self@.buffer.text,
    {
        self.content.text()
    }

    /// The cursor's (line, column), both 0-based.
    pub fn cursor_position(&self) -> (r: (usize, usize))
        requires
            self.wf(),
        ensures
            r.0 == line_of(self@.buffer.text.take(self@.buffer.cursor as int)),
            r.1 == column_of(self@.buffer.text.take(self@.buffer.cursor as int)),
    {
        self.content.cursor_position()
    }

    /// What the status line shows: the last error, else the path, else that the file is new.
    pub fn status(&self) -> (r: Status)
        ensures
            status_matches(self@, r),
    {
        match self.error {
            Some((_, e)) => Status::Failure(e),
            None => match &self.path {
                Some(p) => Status::File(p.clone()),
                None => Status::Untitled,
            },
        }
    }
}

/// The extension of the last component of a path, as `std::path::Path::extension` reads it.
pub uninterp spec fn extension_of(p: Seq<char>) -> Option<Seq<char>>;

/// Relies on `std::path::Path::extension`: the extension of the path's file name, if it has one
/// and it is valid UTF-8.
#[verifier::external_body]
fn path_extension(path: &String) -> (r: Option<String>)
    ensures
        path_view(r) == extension_of(path@),
{
    std::path::Path::new(path.as_str()).extension().and_then(|e| e.to_str()).map(|e| e.to_string())
}

/// The extension used to choose a highlighter when the document has none.
pub open spec fn default_extension() -> Seq<char> {
    seq!['r', 's']
}

/// The highlighter's extension for a document whose path has extension `ext`: that
/// extension, or the default.
pub fn highlight_extension_from(ext: Option<String>) -> (r: String)
    ensures
        r@ == match path_view(ext) {
            Some(e) => e,
            None => default_extension(),
        },
{
    match ext {
        Some(e) => e,
        None => {
            proof {
                reveal_strlit("rs");
            }
            let d = "rs".to_string();
            assert(d@ =~= default_extension());
            d
        },
    }
}

impl Editor {
    /// The extension that picks the highlighter: the path's, or the default.
    pub fn highlight_extension(&self) -> (r: String)
        ensures
            r@ == match self@.path {
                Some(p) => match extension_of(p) {
                    Some(e) => e,
                    None => default_extension(),
                },
                None => default_extension(),
            },
    {
        match &self.path {
            Some(p) => highlight_extension_from(path_extension(p)),
            None => highlight_extension_from(None),
        }
    }
}

/// The text of the status line.
#[derive(Debug)]
pub enum Status {
    Failure(Error),
    File(String),
    Untitled,
}

/// How the status line reads a state, over views.
pub open spec fn status_matches(s: EditorModel, r: Status) -> bool {
    match s.error {
        Some((_, e)) => r == Status::Failure(e),
        None => match s.path {
            Some(p) => (r matches Status::File(q) && q@ == p),
            None => r is Untitled,
        },
    }
}

/// The outcome of a file dialog: the chosen path, or `DialogClosed` when the user cancelled.
pub fn picked_path(picked: Option<String>) -> (r: Result<String, Error>)
    ensures
        picked is None <==> r == Err::<String, Error>(Error::DialogClosed),
        picked matches Some(p) ==> (r matches Ok(q) && q@ == p@),
{
    match picked {
        Some(p) => Ok(p),
        None => Err(Error::DialogClosed),
    }
}

/// The result of a load: the path with the text read, or the read failure.
pub fn load_result(path: String, read: Result<Vec<char>, IoKind>) -> (r: Result<(String, Vec<char>), Error>)
    ensures
        read matches Ok(c) ==> (r matches Ok((p, d)) && p@ == path@ && d@ == c@),
        read matches Err(k) ==> r == Err::<(String, Vec<char>), Error>(Error::IOFailed(k)),
{
    match read {
        Ok(content) => Ok((path, content)),
        Err(kind) => Err(Error::IOFailed(kind)),
    }
}

/// The result of a save: the path written, or the write failure.
pub fn save_result(path: String, written: Result<(), IoKind>) -> (r: Result<String, Error>)
    ensures
        written is Ok ==> (r matches Ok(p) && p@ == path@),
        written matches Err(k) ==> r == Err::<String, Error>(Error::IOFailed(k)),
{
    match written {
        Ok(()) => Ok(path),
        Err(kind) => Err(Error::IOFailed(kind)),
    }
}

} // verus!
