use vstd::prelude::*;

verus! {

/// A cursor movement.
#[derive(Clone, Copy, Debug, PartialEq, Eq, Structural)]
pub enum Motion {
    Left,
    Right,
    Up,
    Down,
    Home,
    End,
    DocumentStart,
    DocumentEnd,
}

/// One action on a buffer.
#[derive(Clone, Copy, Debug, PartialEq, Eq, Structural)]
pub enum EditAction {
    /// Moves the cursor and drops the selection.
    Move(Motion),
    /// Moves the cursor and keeps the selection's anchor, setting it where the cursor was.
    Select(Motion),
    SelectAll,
    /// Places the cursor at a (line, column), as a click does, and drops the selection.
    MoveTo(usize, usize),
    /// Places the cursor at a (line, column) and keeps the anchor, as a drag does.
    DragTo(usize, usize),
    Insert(char),
    Enter,
    Backspace,
    Delete,
}

impl EditAction {
    /// True of the actions that change the text, false of moves and selections.
    pub open spec fn spec_is_edit(self) -> bool {
        self is Insert || self is Enter || self is Backspace || self is Delete
    }

    pub fn is_edit(&self) -> (r: bool)
        ensures
            r == self.spec_is_edit(),
    {
        match self {
            EditAction::Insert(_) | EditAction::Enter | EditAction::Backspace | EditAction::Delete => true,
            _ => false,
        }
    }
}

/// The abstract state of a buffer: its characters, the cursor's offset into them, and
/// the other end of the selection, if there is one.
pub struct BufferModel {
    pub text: Seq<char>,
    pub cursor: nat,
    pub anchor: Option<nat>,
}

/// The offset at which the line holding offset `i` starts.
pub open spec fn line_start(t: Seq<char>, i: nat) -> nat
    decreases i,
{
    if i == 0 {
        0
    } else if t[i - 1] == '\n' {
        i
    } else {
        line_start(t, (i - 1) as nat)
    }
}

/// The offset at which the line holding offset `i` ends: its line break, or the end of the text.
pub open spec fn line_end(t: Seq<char>, i: nat) -> nat
    decreases t.len() - i,
{
    if i >= t.len() {
        t.len()
    } else if t[i as int] == '\n' {
        i
    } else {
        line_end(t, i + 1)
    }
}

/// The offset at which line `n` (0-based) starts; the last line's start for a line past the end.
pub open spec fn nth_line_start(t: Seq<char>, n: nat) -> nat
    decreases n,
{
    if n == 0 {
        0
    } else {
        let p = nth_line_start(t, (n - 1) as nat);
        let e = line_end(t, p);
        if e == t.len() {
            p
        } else {
            e + 1
        }
    }
}

/// The offset of (line, column), with the column held to the line's end.
pub open spec fn offset_of(t: Seq<char>, line: nat, column: nat) -> nat {
    let s = nth_line_start(t, line);
    let e = line_end(t, s);
    if column <= e - s {
        s + column
    } else {
        e
    }
}

/// Where a motion takes the cursor from offset `c`. Up and down keep the column where the
/// target line is long enough, and go to its end where it is not; up on the first line goes
/// to the start of the text, down on the last to its end.
pub open spec fn motion_target(t: Seq<char>, c: nat, m: Motion) -> nat {
    match m {
        Motion::Left => if c > 0 { (c - 1) as nat } else { 0 },
        Motion::Right => if c < t.len() { c + 1 } else { c },
        Motion::Up => {
            let ls = line_start(t, c);
            if ls == 0 {
                0
            } else {
                let pls = line_start(t, (ls - 1) as nat);
                if c - ls <= (ls - 1) - pls {
                    (pls + (c - ls)) as nat
                } else {
                    (ls - 1) as nat
                }
            }
        },
        Motion::Down => {
            let le = line_end(t, c);
            if le == t.len() {
                t.len()
            } else {
                let ns = le + 1;
                let ne = line_end(t, ns);
                let col = c - line_start(t, c);
                if col <= ne - ns {
                    (ns + col) as nat
                } else {
                    ne
                }
            }
        },
        Motion::Home => line_start(t, c),
        Motion::End => line_end(t, c),
        Motion::DocumentStart => 0,
        Motion::DocumentEnd => t.len(),
    }
}

/// The selected range, where the anchor is set and differs from the cursor.
pub open spec fn selection(b: BufferModel) -> Option<(nat, nat)> {
    match b.anchor {
        Some(a) => if a < b.cursor {
            Some((a, b.cursor))
        } else if b.cursor < a {
            Some((b.cursor, a))
        } else {
            None
        },
        None => None,
    }
}

/// The buffer with its selected text removed and no selection left.
pub open spec fn without_selection(b: BufferModel) -> BufferModel {
    match selection(b) {
        Some((lo, hi)) => BufferModel {
            text: b.text.subrange(0, lo as int) + b.text.subrange(hi as int, b.text.len() as int),
            cursor: lo,
            anchor: None,
        },
        None => BufferModel { anchor: None, ..b },
    }
}

/// The anchor that a selecting move keeps: the old one, else where the cursor was.
pub open spec fn kept_anchor(b: BufferModel) -> Option<nat> {
    match b.anchor {
        Some(a) => Some(a),
        None => Some(b.cursor),
    }
}

/// What an action does to a buffer. Typing replaces the selection; Backspace and Delete
/// remove it where there is one, and one character otherwise.
pub open spec fn apply_action(b: BufferModel, a: EditAction) -> BufferModel {
    match a {
        EditAction::Move(m) => BufferModel { text: b.text, cursor: motion_target(b.text, b.cursor, m), anchor: None },
        EditAction::Select(m) => BufferModel {
            text: b.text,
            cursor: motion_target(b.text, b.cursor, m),
            anchor: kept_anchor(b),
        },
        EditAction::SelectAll => BufferModel { text: b.text, cursor: b.text.len(), anchor: Some(0) },
        EditAction::MoveTo(l, c) => BufferModel { text: b.text, cursor: offset_of(b.text, l as nat, c as nat), anchor: None },
        EditAction::DragTo(l, c) => BufferModel {
            text: b.text,
            cursor: offset_of(b.text, l as nat, c as nat),
            anchor: kept_anchor(b),
        },
        EditAction::Insert(ch) => {
            let d = without_selection(b);
            BufferModel { text: d.text.insert(d.cursor as int, ch), cursor: d.cursor + 1, anchor: None }
        },
        EditAction::Enter => {
            let d = without_selection(b);
            BufferModel { text: d.text.insert(d.cursor as int, '\n'), cursor: d.cursor + 1, anchor: None }
        },
        EditAction::Backspace => if selection(b) is Some {
            without_selection(b)
        } else if b.cursor > 0 {
            BufferModel { text: b.text.remove(b.cursor - 1), cursor: (b.cursor - 1) as nat, anchor: None }
        } else {
            BufferModel { anchor: None, ..b }
        },
        EditAction::Delete => if selection(b) is Some {
            without_selection(b)
        } else if b.cursor < b.text.len() {
            BufferModel { text: b.text.remove(b.cursor as int), cursor: b.cursor, anchor: None }
        } else {
            BufferModel { anchor: None, ..b }
        },
    }
}

/// The 0-based line on which the end of `s` falls: the number of line breaks in it.
pub open spec fn line_of(s: Seq<char>) -> nat
    decreases s.len(),
{
    if s.len() == 0 {
        0
    } else {
        line_of(s.drop_last()) + if s.last() == '\n' { 1nat } else { 0nat }
    }
}

/// The 0-based column at which the end of `s` falls: the characters after its last line break.
pub open spec fn column_of(s: Seq<char>) -> nat
    decreases s.len(),
{
    if s.len() == 0 {
        0
    } else if s.last() == '\n' {
        0
    } else {
        column_of(s.drop_last()) + 1
    }
}

/// An editable text with a cursor and an optional selection anchor.
pub struct Buffer {
    text: Vec<char>,
    cursor: usize,
    anchor: Option<usize>,
}

impl View for Buffer {
    type V = BufferModel;

    closed spec fn view(&self) -> BufferModel {
        BufferModel {
            text: self.text@,
            cursor: self.cursor as nat,
            anchor: match self.anchor {
                Some(a) => Some(a as nat),
                None => None,
            },
        }
    }
}

/// The offset at which the line holding offset `i` starts.
fn find_line_start(t: &Vec<char>, i: usize) -> (r: usize)
    requires
        i <= t.len(),
    ensures
        r == line_start(t@, i as nat),
        r <= i,
{
    let mut j: usize = i;
    while j > 0 && t[j - 1] != '\n'
        invariant
            j <= i <= t.len(),
            line_start(t@, j as nat) == line_start(t@, i as nat),
        decreases j,
    {
        j = j - 1;
    }
    j
}

/// The offset at which the line holding offset `i` ends.
fn find_line_end(t: &Vec<char>, i: usize) -> (r: usize)
    requires
        i <= t.len(),
    ensures
        r == line_end(t@, i as nat),
        i <= r <= t.len(),
{
    let mut j: usize = i;
    while j < t.len() && t[j] != '\n'
        invariant
            i <= j <= t.len(),
            line_end(t@, j as nat) == line_end(t@, i as nat),
        decreases t.len() - j,
    {
        j = j + 1;
    }
    j
}

/// The offset of (line, column), with the line held to the last and the column to the line's end.
fn find_offset(t: &Vec<char>, line: usize, column: usize) -> (r: usize)
    ensures
        r == offset_of(t@, line as nat, column as nat),
        r <= t.len(),
{
    let mut start: usize = 0;
    let mut k: usize = 0;
    while k < line
        invariant
            k <= line,
            start <= t.len(),
            start == nth_line_start(t@, k as nat),
        decreases line - k,
    {
        let e = find_line_end(t, start);
        if e < t.len() {
            start = e + 1;
        }
        k = k + 1;
    }
    let e = find_line_end(t, start);
    if column <= e - start {
        start + column
    } else {
        e
    }
}

/// Where a motion takes the cursor from offset `c`.
fn find_target(t: &Vec<char>, c: usize, m: Motion) -> (r: usize)
    requires
        c <= t.len(),
    ensures
        r == motion_target(t@, c as nat, m),
        r <= t.len(),
{
    match m {
        Motion::Left => if c > 0 { c - 1 } else { 0 },
        Motion::Right => if c < t.len() { c + 1 } else { c },
        Motion::Up => {
            let ls = find_line_start(t, c);
            if ls == 0 {
                0
            } else {
                let pls = find_line_start(t, ls - 1);
                if c - ls <= (ls - 1) - pls {
                    pls + (c - ls)
                } else {
                    ls - 1
                }
            }
        },
        Motion::Down => {
            let le = find_line_end(t, c);
            if le == t.len() {
                t.len()
            } else {
                let ns = le + 1;
                let ne = find_line_end(t, ns);
                let col = c - find_line_start(t, c);
                if col <= ne - ns {
                    ns + col
                } else {
                    ne
                }
            }
        },
        Motion::Home => find_line_start(t, c),
        Motion::End => find_line_end(t, c),
        Motion::DocumentStart => 0,
        Motion::DocumentEnd => t.len(),
    }
}

/// The characters of `v` without those in `lo..hi`.
fn remove_range(v: &Vec<char>, lo: usize, hi: usize) -> (r: Vec<char>)
    requires
        lo <= hi <= v.len(),
    ensures
        r@ == v@.subrange(0, lo as int) + v@.subrange(hi as int, v.len() as int),
{
    let mut r: Vec<char> = Vec::new();
    let mut i: usize = 0;
    while i < lo
        invariant
            i <= lo <= hi <= v.len(),
            r@ == v@.subrange(0, i as int),
        decreases lo - i,
    {
        r.push(v[i]);
        i = i + 1;
        assert(r@ =~= v@.subrange(0, i as int));
    }
    let mut j: usize = hi;
    while j < v.len()
        invariant
            lo <= hi <= j <= v.len(),
            r@ == v@.subrange(0, lo as int) + v@.subrange(hi as int, j as int),
        decreases v.len() - j,
    {
        r.push(v[j]);
        j = j + 1;
        assert(r@ =~= v@.subrange(0, lo as int) + v@.subrange(hi as int, j as int));
    }
    r
}

impl Buffer {
    /// The cursor and the anchor never stand past the end of the text.
    pub open spec fn wf(&self) -> bool {
        &&& self@.cursor <= self@.text.len()
        &&& (self@.anchor matches Some(a) ==> a <= self@.text.len())
    }

    /// A buffer holding `content`, with the cursor at its start and nothing selected.
    pub fn with(content: &Vec<char>) -> (r: Buffer)
        ensures
            r.wf(),
            r@.text == content@,
            r@.cursor == 0,
            r@.anchor is None,
    {
        Buffer { text: copy_chars(content), cursor: 0, anchor: None }
    }

    /// The characters of the buffer.
    pub fn text(&self) -> (r: Vec<char>)
        ensures
            r@ == self@.text,
    {
        copy_chars(&self.text)
    }

    pub fn len(&self) -> (r: usize)
        ensures
            r == self@.text.len(),
    {
        self.text.len()
    }

    /// The selected range, if anything is selected.
    pub fn selection(&self) -> (r: Option<(usize, usize)>)
        ensures
            match r {
                Some((lo, hi)) => selection(self@) == Some((lo as nat, hi as nat)),
                None => selection(self@) is None,
            },
    {
        match self.anchor {
            Some(a) => if a < self.cursor {
                Some((a, self.cursor))
            } else if self.cursor < a {
                Some((self.cursor, a))
            } else {
                None
            },
            None => None,
        }
    }

    /// Removes the selected text, if any, and drops the selection.
    fn take_selection(&mut self)
        requires
            old(self).wf(),
        ensures
            final(self).wf(),
            final(self)@ == without_selection(old(self)@),
    {
        match self.selection() {
            Some((lo, hi)) => {
                self.text = remove_range(&self.text, lo, hi);
                self.cursor = lo;
            },
            None => {},
        }
        self.anchor = None;
    }

    fn insert_at_cursor(&mut self, c: char)
        requires
            old(self).wf(),
            old(self)@.text.len() < usize::MAX,
        ensures
            final(self).wf(),
            final(self)@ == apply_action(old(self)@, EditAction::Insert(c)),
    {
        self.take_selection();
        self.text.insert(self.cursor, c);
        self.cursor = self.cursor + 1;
    }

    /// Applies one action.
    pub fn edit(&mut self, action: EditAction)
        requires
            old(self).wf(),
            old(self)@.text.len() < usize::MAX,
        ensures
            final(self).wf(),
            final(self)@ == apply_action(old(self)@, action),
    {
        match action {
            EditAction::Move(m) => {
                self.cursor = find_target(&self.text, self.cursor, m);
                self.anchor = None;
            },
            EditAction::Select(m) => {
                if self.anchor.is_none() {
                    self.anchor = Some(self.cursor);
                }
                self.cursor = find_target(&self.text, self.cursor, m);
            },
            EditAction::SelectAll => {
                self.anchor = Some(0);
                self.cursor = self.text.len();
            },
            EditAction::MoveTo(l, c) => {
                self.cursor = find_offset(&self.text, l, c);
                self.anchor = None;
            },
            EditAction::DragTo(l, c) => {
                if self.anchor.is_none() {
                    self.anchor = Some(self.cursor);
                }
                self.cursor = find_offset(&self.text, l, c);
            },
            EditAction::Insert(c) => {
                self.insert_at_cursor(c);
            },
            EditAction::Enter => {
                self.insert_at_cursor('\n');
            },
            EditAction::Backspace => {
                if self.selection().is_some() {
                    self.take_selection();
                } else {
                    if self.cursor > 0 {
                        self.text.remove(self.cursor - 1);
                        self.cursor = self.cursor - 1;
                    }
                    self.anchor = None;
                }
            },
            EditAction::Delete => {
                if self.selection().is_some() {
                    self.take_selection();
                } else {
                    if self.cursor < self.text.len() {
                        self.text.remove(self.cursor);
                    }
                    self.anchor = None;
                }
            },
        }
    }

    /// The cursor's (line, column), both 0-based.
    pub fn cursor_position(&self) -> (r: (usize, usize))
        requires
            self.wf(),
        ensures
            r.0 == line_of(self@.text.take(self@.cursor as int)),
            r.1 == column_of(self@.text.take(self@.cursor as int)),
    {
        let mut line: usize = 0;
        let mut column: usize = 0;
        let mut i: usize = 0;
        while i < self.cursor
            invariant
                self.wf(),
                i <= self.cursor,
                line <= i,
                column <= i,
                line == line_of(self.text@.take(i as int)),
                column == column_of(self.text@.take(i as int)),
            decreases self.cursor - i,
        {
            assert(self.text@.take(i + 1).drop_last() =~= self.text@.take(i as int));
            if self.text[i] == '\n' {
                line = line + 1;
                column = 0;
            } else {
                column = column + 1;
            }
            i = i + 1;
        }
        (line, column)
    }
}

/// A fresh vector with the same characters.
pub fn copy_chars(v: &Vec<char>) -> (r: Vec<char>)
    ensures
        r@ == v@,
{
    let mut r: Vec<char> = Vec::new();
    let mut i: usize = 0;
    while i < v.len()
        invariant
            i <= v.len(),
            r@ == v@.take(i as int),
        decreases v.len() - i,
    {
        r.push(v[i]);
        i = i + 1;
        assert(r@ =~= v@.take(i as int));
    }
    assert(v@.take(v.len() as int) =~= v@);
    r
}

} // verus!
