//! Reusable Unicode-safe editing state for native input elements.
//!
//! The model owns text, selection and undo history. Views decide when to
//! commit the current value to a host transaction; platform input handlers can
//! feed composition text through `insert_text` without knowing that contract.
//!
//! Every position is a character index; the platform bridge speaks UTF-16
//! offsets, which are converted at the `*_utf16_*` entry points.
use std::ops::Range;
use vstd::prelude::*;

use crate::text::{
    char_index_for_utf16, char_index_for_utf16_offset, chars_of, clamp, lemma_utf16_len_splice_removal,
    splice, splice_chars, str_eq, string_from_chars, utf16_len, utf16_offset, utf16_offset_of,
};

verus! {

/// Number of states each of the undo and redo stacks keeps.
pub const MAX_HISTORY: usize = 100;

/// Outcome of a key press routed to a text input.
#[derive(Clone, Copy, Debug, Eq, PartialEq, Structural)]
pub enum InputKeyResult {
    Changed,
    Submit,
    Cancel,
    Ignored,
}

/// Text and selection at one point of the edit history.
pub struct EditState {
    pub text: Seq<char>,
    pub start: nat,
    pub end: nat,
}

/// Abstract state of a [`NativeTextInput`]: its characters, the selected
/// character range, both history stacks (most recent entry last) and the
/// character range of the pending IME composition.
pub struct TextInputModel {
    pub text: Seq<char>,
    pub start: nat,
    pub end: nat,
    pub undo: Seq<EditState>,
    pub redo: Seq<EditState>,
    pub marked: Option<(nat, nat)>,
}

/// `h` with `s` recorded as its newest entry; the oldest entry is dropped
/// once the stack holds `MAX_HISTORY` states.
pub open spec fn push_history(h: Seq<EditState>, s: EditState) -> Seq<EditState> {
    if h.len() == MAX_HISTORY {
        h.drop_first().push(s)
    } else {
        h.push(s)
    }
}

/// A freshly loaded text: caret at the end, no history, no composition.
pub open spec fn fresh_model(text: Seq<char>) -> TextInputModel {
    TextInputModel {
        text,
        start: text.len(),
        end: text.len(),
        undo: Seq::empty(),
        redo: Seq::empty(),
        marked: None,
    }
}

/// The character range a UTF-16 range designates in `text`.
pub open spec fn char_range_for_utf16(text: Seq<char>, range: Range<usize>) -> (nat, nat) {
    (
        char_index_for_utf16_offset(text, range.start as int),
        char_index_for_utf16_offset(text, range.end as int),
    )
}

impl TextInputModel {
    pub open spec fn state(self) -> EditState {
        EditState { text: self.text, start: self.start, end: self.end }
    }

    /// Selections are ordered and both history stacks stay within
    /// `MAX_HISTORY` entries.
    pub open spec fn wf(self) -> bool {
        &&& self.start <= self.end
        &&& self.undo.len() <= MAX_HISTORY
        &&& self.redo.len() <= MAX_HISTORY
        &&& forall|i: int| 0 <= i < self.undo.len() ==> #[trigger] self.undo[i].start <= self.undo[i].end
        &&& forall|i: int| 0 <= i < self.redo.len() ==> #[trigger] self.redo[i].start <= self.redo[i].end
        &&& self.marked matches Some(m) ==> m.0 <= m.1
    }

    /// The same state with a different selection.
    pub open spec fn with_selection(self, start: nat, end: nat) -> TextInputModel {
        TextInputModel { start, end, ..self }
    }

    /// An edit that replaces the text and collapses the selection to
    /// `cursor`: the previous text and selection are recorded for undo and the
    /// redo stack is discarded.
    pub open spec fn edited(self, text: Seq<char>, cursor: nat) -> TextInputModel {
        TextInputModel {
            text,
            start: cursor,
            end: cursor,
            undo: push_history(self.undo, self.state()),
            redo: Seq::empty(),
            marked: self.marked,
        }
    }

    /// Replaces the selection with `ins`; nothing happens (and `false` is
    /// returned) when the selection is empty and `ins` is too.
    pub open spec fn replace_selection(self, ins: Seq<char>) -> (bool, TextInputModel) {
        if self.start == self.end && ins.len() == 0 {
            (false, self)
        } else {
            (
                true,
                self.edited(
                    splice(self.text, self.start as int, self.end as int, ins),
                    self.start + ins.len(),
                ),
            )
        }
    }

    /// Typing `ins` replaces the selection; empty input changes nothing.
    pub open spec fn insert(self, ins: Seq<char>) -> (bool, TextInputModel) {
        if ins.len() == 0 {
            (false, self)
        } else {
            (
                true,
                self.edited(
                    splice(self.text, self.start as int, self.end as int, ins),
                    self.start + ins.len(),
                ),
            )
        }
    }

    /// Deletes the selection, or the character before the caret.
    pub open spec fn backspace(self) -> (bool, TextInputModel) {
        if self.start != self.end {
            self.replace_selection(Seq::empty())
        } else if self.start == 0 {
            (false, self)
        } else {
            (
                true,
                self.edited(
                    splice(self.text, self.start - 1, self.start as int, Seq::empty()),
                    (self.start - 1) as nat,
                ),
            )
        }
    }

    /// Deletes the selection, or the character after the caret.
    pub open spec fn delete_forward(self) -> (bool, TextInputModel) {
        if self.start != self.end {
            self.replace_selection(Seq::empty())
        } else if self.end >= self.text.len() {
            (false, self)
        } else {
            (
                true,
                self.edited(
                    splice(self.text, self.start as int, self.start as int + 1, Seq::empty()),
                    self.start,
                ),
            )
        }
    }

    /// Collapses the selection one character left of its start.
    pub open spec fn move_left(self) -> (bool, TextInputModel) {
        if self.start == 0 {
            (false, self)
        } else {
            (true, self.with_selection((self.start - 1) as nat, (self.start - 1) as nat))
        }
    }

    /// Collapses the selection one character right of its end.
    pub open spec fn move_right(self) -> (bool, TextInputModel) {
        if self.end >= self.text.len() {
            (false, self)
        } else {
            (true, self.with_selection(self.end + 1, self.end + 1))
        }
    }

    /// Restores the newest undo state; the current state moves to redo.
    pub open spec fn undo(self) -> (bool, TextInputModel) {
        if self.undo.len() == 0 {
            (false, self)
        } else {
            let previous = self.undo.last();
            (
                true,
                TextInputModel {
                    text: previous.text,
                    start: previous.start,
                    end: previous.end,
                    undo: self.undo.drop_last(),
                    redo: push_history(self.redo, self.state()),
                    marked: self.marked,
                },
            )
        }
    }

    /// Restores the newest redo state. Recording the current state for undo
    /// discards the rest of the redo stack, as any recorded edit does.
    pub open spec fn redo(self) -> (bool, TextInputModel) {
        if self.redo.len() == 0 {
            (false, self)
        } else {
            let next = self.redo.last();
            (
                true,
                TextInputModel {
                    text: next.text,
                    start: next.start,
                    end: next.end,
                    undo: push_history(self.undo, self.state()),
                    redo: Seq::empty(),
                    marked: self.marked,
                },
            )
        }
    }

    /// Routes a key: editing and caret keys report `Changed` when they did
    /// something, Enter submits, Escape cancels, and any other key inserts its
    /// non-empty character text.
    pub open spec fn handle_key(self, key: Seq<char>, key_char: Option<Seq<char>>) -> (
        InputKeyResult,
        TextInputModel,
    ) {
        let changed = |r: (bool, TextInputModel)|
            (
                if r.0 {
                    InputKeyResult::Changed
                } else {
                    InputKeyResult::Ignored
                },
                r.1,
            );
        if key == "backspace"@ {
            changed(self.backspace())
        } else if key == "delete"@ {
            changed(self.delete_forward())
        } else if key == "left"@ {
            changed(self.move_left())
        } else if key == "right"@ {
            changed(self.move_right())
        } else if key == "enter"@ {
            (InputKeyResult::Submit, self)
        } else if key == "escape"@ {
            (InputKeyResult::Cancel, self)
        } else {
            match key_char {
                Some(text) => if text.len() == 0 {
                    (InputKeyResult::Ignored, self)
                } else {
                    changed(self.insert(text))
                },
                None => (InputKeyResult::Ignored, self),
            }
        }
    }

    /// Selects the UTF-16 `range` (or keeps the selection) and replaces it
    /// with `ins`.
    pub open spec fn replace_utf16_range(self, range: Option<Range<usize>>, ins: Seq<char>) -> TextInputModel {
        let (s, e) = match range {
            Some(r) => char_range_for_utf16(self.text, r),
            None => (self.start, self.end),
        };
        let selected = self.with_selection(s, e);
        if ins.len() == 0 {
            selected.replace_selection(ins).1
        } else {
            selected.insert(ins).1
        }
    }

    /// The state after the pending composition (if any) is removed and the
    /// caret put where it started.
    pub open spec fn without_composition(self) -> TextInputModel {
        match self.marked {
            Some(m) => TextInputModel {
                text: splice(self.text, m.0 as int, m.1 as int, Seq::empty()),
                start: m.0,
                end: m.0,
                marked: None,
                ..self
            },
            None => self,
        }
    }

    /// Character range that `replace_marked_text` overwrites.
    pub open spec fn marked_target(self, range: Option<Range<usize>>) -> (nat, nat) {
        let base = self.without_composition();
        match range {
            Some(r) => char_range_for_utf16(base.text, r),
            None => (base.start, base.end),
        }
    }

    /// Replaces the pending composition with `ins` and marks `ins` as the new
    /// composition.
    pub open spec fn replace_marked(self, range: Option<Range<usize>>, ins: Seq<char>) -> TextInputModel {
        let base = self.without_composition();
        let (s, e) = self.marked_target(range);
        TextInputModel {
            marked: Some((s, s + ins.len())),
            ..base.edited(splice(base.text, s as int, e as int, ins), s + ins.len())
        }
    }

    /// Character range that `commit_marked_text` overwrites: the given UTF-16
    /// range, else the composition, else the selection.
    pub open spec fn commit_target(self, range: Option<Range<usize>>) -> (nat, nat) {
        match range {
            Some(r) => char_range_for_utf16(self.text, r),
            None => match self.marked {
                Some(m) => m,
                None => (self.start, self.end),
            },
        }
    }

    /// Commits `ins` as real text over the commit target; the composition
    /// ends.
    pub open spec fn commit_marked(self, range: Option<Range<usize>>, ins: Seq<char>) -> TextInputModel {
        let (s, e) = self.commit_target(range);
        TextInputModel {
            marked: None,
            ..self.edited(splice(self.text, s as int, e as int, ins), s + ins.len())
        }
    }
}

/// Undoing any recorded edit restores the text and selection it replaced.
pub proof fn law_undo_reverts_edit(m: TextInputModel, text: Seq<char>, cursor: nat)
    requires
        m.wf(),
    ensures
        m.edited(text, cursor).undo().0,
        m.edited(text, cursor).undo().1.state() == m.state(),
{
}

/// Undoing a successful insertion restores the text and selection it replaced.
pub proof fn law_undo_reverts_insert(m: TextInputModel, ins: Seq<char>)
    requires
        m.wf(),
        m.insert(ins).0,
    ensures
        m.insert(ins).1.undo().0,
        m.insert(ins).1.undo().1.state() == m.state(),
{
}

/// Undoing a successful backspace restores the deleted text and the selection.
pub proof fn law_undo_reverts_backspace(m: TextInputModel)
    requires
        m.wf(),
        m.backspace().0,
    ensures
        m.backspace().1.undo().0,
        m.backspace().1.undo().1.state() == m.state(),
{
}

/// Undoing a successful forward delete restores the deleted text and the
/// selection.
pub proof fn law_undo_reverts_delete_forward(m: TextInputModel)
    requires
        m.wf(),
        m.delete_forward().0,
    ensures
        m.delete_forward().1.undo().0,
        m.delete_forward().1.undo().1.state() == m.state(),
{
}

/// Redo right after an undo brings back the state the undo left.
pub proof fn law_redo_reverts_undo(m: TextInputModel)
    requires
        m.wf(),
        m.undo().0,
    ensures
        m.undo().1.redo().0,
        m.undo().1.redo().1.state() == m.state(),
{
}

/// After any successful typed insertion there is nothing to redo.
pub proof fn law_insert_discards_redo(m: TextInputModel, ins: Seq<char>)
    requires
        m.insert(ins).0,
    ensures
        !m.insert(ins).1.redo().0,
{
}

/// A successful redo leaves nothing further to redo: recording the current
/// state for undo discards the remaining redo states.
pub proof fn law_redo_empties_redo_stack(m: TextInputModel)
    requires
        m.redo().0,
    ensures
        m.redo().1.redo.len() == 0,
        !m.redo().1.redo().0,
{
}

/// Every editing operation keeps the model well formed, so neither history
/// stack ever exceeds `MAX_HISTORY` entries.
pub proof fn law_operations_keep_history_bounded(m: TextInputModel, ins: Seq<char>)
    requires
        m.wf(),
    ensures
        m.insert(ins).1.wf(),
        m.backspace().1.wf(),
        m.delete_forward().1.wf(),
        m.move_left().1.wf(),
        m.move_right().1.wf(),
        m.undo().1.wf(),
        m.redo().1.wf(),
        m.undo().1.undo.len() <= MAX_HISTORY,
        m.undo().1.redo.len() <= MAX_HISTORY,
        m.redo().1.undo.len() <= MAX_HISTORY,
{
    assert(m.undo().1.wf());
    assert(m.redo().1.wf());
}

/// Every recorded edit discards the redo history: after a successful
/// insertion, backspace or forward delete, and after any composition update or
/// commit, there is nothing to redo.
pub proof fn law_edits_discard_redo(
    m: TextInputModel,
    ins: Seq<char>,
    range: Option<Range<usize>>,
)
    ensures
        m.insert(ins).0 ==> !m.insert(ins).1.redo().0,
        m.backspace().0 ==> !m.backspace().1.redo().0,
        m.delete_forward().0 ==> !m.delete_forward().1.redo().0,
        !m.replace_marked(range, ins).redo().0,
        !m.commit_marked(range, ins).redo().0,
{
}

/// The selection lies within the text, and so does the selection of every
/// recorded history state.
pub open spec fn selection_in_text(m: TextInputModel) -> bool {
    &&& m.wf()
    &&& m.end <= m.text.len()
    &&& forall|i: int| 0 <= i < m.undo.len() ==> #[trigger] m.undo[i].end <= m.undo[i].text.len()
    &&& forall|i: int| 0 <= i < m.redo.len() ==> #[trigger] m.redo[i].end <= m.redo[i].text.len()
}

proof fn lemma_push_history_in_text(h: Seq<EditState>, st: EditState)
    requires
        h.len() <= MAX_HISTORY,
        forall|i: int| 0 <= i < h.len() ==> #[trigger] h[i].end <= h[i].text.len(),
        st.end <= st.text.len(),
    ensures
        forall|i: int|
            0 <= i < push_history(h, st).len() ==> #[trigger] push_history(h, st)[i].end
                <= push_history(h, st)[i].text.len(),
{
    if h.len() == MAX_HISTORY {
        assert forall|i: int| 0 <= i < push_history(h, st).len() implies #[trigger] push_history(
            h,
            st,
        )[i].end <= push_history(h, st)[i].text.len() by {
            if i < h.len() - 1 {
                assert(push_history(h, st)[i] == h[i + 1]);
            }
        }
    }
}

proof fn lemma_edited_in_text(m: TextInputModel, s: nat, e: nat, ins: Seq<char>)
    requires
        selection_in_text(m),
        s <= e <= m.text.len(),
    ensures
        selection_in_text(m.edited(splice(m.text, s as int, e as int, ins), s + ins.len())),
{
    lemma_push_history_in_text(m.undo, m.state());
    assert(splice(m.text, s as int, e as int, ins).len() == m.text.len() - (e - s) + ins.len());
}

/// Starting from a selection inside the text (as every constructor leaves
/// it), each operation keeps the selection and every history state's
/// selection inside their text.
pub proof fn law_operations_keep_selection_in_text(m: TextInputModel, ins: Seq<char>, text: Seq<char>)
    requires
        selection_in_text(m),
    ensures
        selection_in_text(fresh_model(text)),
        selection_in_text(m.with_selection(0, m.text.len())),
        selection_in_text(m.insert(ins).1),
        selection_in_text(m.backspace().1),
        selection_in_text(m.delete_forward().1),
        selection_in_text(m.move_left().1),
        selection_in_text(m.move_right().1),
        selection_in_text(m.undo().1),
        selection_in_text(m.redo().1),
{
    if ins.len() > 0 {
        lemma_edited_in_text(m, m.start, m.end, ins);
    }
    if m.start != m.end {
        lemma_edited_in_text(m, m.start, m.end, Seq::empty());
    } else {
        if m.start > 0 {
            lemma_edited_in_text(m, (m.start - 1) as nat, m.start, Seq::empty());
        }
        if m.end < m.text.len() {
            lemma_edited_in_text(m, m.start, m.start + 1, Seq::empty());
        }
    }
    if m.undo.len() > 0 {
        lemma_push_history_in_text(m.redo, m.state());
        let u = m.undo().1;
        assert(u.undo =~= m.undo.drop_last());
        assert(m.undo.last() == m.undo[m.undo.len() - 1]);
    }
    if m.redo.len() > 0 {
        lemma_push_history_in_text(m.undo, m.state());
        assert(m.redo.last() == m.redo[m.redo.len() - 1]);
    }
}

/// Updating the composition twice leaves the same text, selection and
/// composition as updating it once with the latest text: a new composition
/// replaces the previous one instead of being appended to it.
pub proof fn law_composition_update_replaces(m: TextInputModel, a: Seq<char>, b: Seq<char>)
    requires
        m.wf(),
        m.marked_target(None).0 <= m.without_composition().text.len(),
    ensures
        m.replace_marked(None, a).replace_marked(None, b).text == m.replace_marked(None, b).text,
        m.replace_marked(None, a).replace_marked(None, b).start == m.replace_marked(None, b).start,
        m.replace_marked(None, a).replace_marked(None, b).end == m.replace_marked(None, b).end,
        m.replace_marked(None, a).replace_marked(None, b).marked == m.replace_marked(None, b).marked,
{
    let base = m.without_composition();
    let (s, e) = m.marked_target(None);
    let t = base.text;
    let t1 = splice(t, s as int, e as int, a);
    let m1 = m.replace_marked(None, a);
    assert(m1.text == t1);
    assert(m1.marked == Some((s, s + a.len())));
    let ce = clamp(e as int, t.len() as int);
    assert(t1 =~= t.subrange(0, s as int) + a + t.subrange(ce, t.len() as int));
    assert(m1.without_composition().text =~= t.subrange(0, s as int) + t.subrange(
        ce,
        t.len() as int,
    ));
    assert(m1.marked_target(None) == (s, s));
    assert(m1.replace_marked(None, b).text =~= splice(t, s as int, e as int, b));
}

/// Reading back the UTF-16 selection designates the same characters.
pub proof fn law_utf16_selection_round_trip(m: TextInputModel)
    requires
        m.wf(),
        m.end <= m.text.len(),
    ensures
        char_index_for_utf16_offset(m.text, utf16_offset(m.text, m.start as int) as int) == m.start,
        char_index_for_utf16_offset(m.text, utf16_offset(m.text, m.end as int) as int) == m.end,
{
    crate::text::lemma_utf16_offset_round_trip(m.text, m.start as int);
    crate::text::lemma_utf16_offset_round_trip(m.text, m.end as int);
}

/// A character range `[start, end)` inside the editor's text.
#[derive(Clone, Copy, Debug, Default, Eq, PartialEq)]
struct CharRange {
    start: usize,
    end: usize,
}

#[derive(Clone, Debug, Eq, PartialEq)]
struct InputSnapshot {
    text: String,
    selection: CharRange,
}

impl InputSnapshot {
    spec fn state(&self) -> EditState {
        EditState {
            text: self.text@,
            start: self.selection.start as nat,
            end: self.selection.end as nat,
        }
    }
}

/// Editing state of one text field.
#[derive(Clone, Debug, Default, Eq, PartialEq)]
pub struct NativeTextInput {
    text: String,
    selection: CharRange,
    undo: Vec<InputSnapshot>,
    redo: Vec<InputSnapshot>,
    /// Character-index range of the current IME composition (marked text).
    /// The marked text is present in `text`; this range lets a later
    /// `replace_marked_text` call replace it instead of appending.
    marked_range: Option<CharRange>,
}

spec fn states_of(h: Seq<InputSnapshot>) -> Seq<EditState> {
    h.map_values(|s: InputSnapshot| s.state())
}

impl View for NativeTextInput {
    type V = TextInputModel;

    closed spec fn view(&self) -> TextInputModel {
        TextInputModel {
            text: self.text@,
            start: self.selection.start as nat,
            end: self.selection.end as nat,
            undo: states_of(self.undo@),
            redo: states_of(self.redo@),
            marked: match self.marked_range {
                Some(r) => Some((r.start as nat, r.end as nat)),
                None => None,
            },
        }
    }
}

impl NativeTextInput {
    pub open spec fn wf(&self) -> bool {
        self@.wf()
    }

    /// A field holding `text` with the caret at its end.
    pub fn new(text: &str) -> (input: Self)
        ensures
            input@ == fresh_model(text@),
            input.wf(),
    {
        let text = text.to_owned();
        let end = chars_of(text.as_str()).len();
        let input = Self {
            text,
            selection: CharRange { start: end, end },
            undo: Vec::new(),
            redo: Vec::new(),
            marked_range: None,
        };
        assert(input@.undo =~= Seq::<EditState>::empty());
        assert(input@.redo =~= Seq::<EditState>::empty());
        input
    }

    pub fn text(&self) -> (t: &str)
        ensures
            t@ == self@.text,
    {
        self.text.as_str()
    }

    /// Replaces the whole text; history and composition are discarded.
    pub fn set_text(&mut self, text: &str)
        ensures
            final(self)@ == fresh_model(text@),
            final(self).wf(),
    {
        self.text = text.to_owned();
        let end = chars_of(self.text.as_str()).len();
        self.selection = CharRange { start: end, end };
        self.undo.clear();
        self.redo.clear();
        self.marked_range = None;
        assert(self@.undo =~= Seq::<EditState>::empty());
        assert(self@.redo =~= Seq::<EditState>::empty());
    }

    pub fn select_all(&mut self)
        requires
            old(self).wf(),
        ensures
            final(self)@ == old(self)@.with_selection(0, old(self)@.text.len()),
            final(self).wf(),
    {
        let end = chars_of(self.text.as_str()).len();
        self.selection = CharRange { start: 0, end };
    }

    fn snapshot(&self) -> (s: InputSnapshot)
        ensures
            s.state() == self@.state(),
    {
        InputSnapshot { text: self.text.clone(), selection: self.selection }
    }

    fn restore(&mut self, snapshot: InputSnapshot)
        ensures
            final(self)@ == (TextInputModel {
                text: snapshot.state().text,
                start: snapshot.state().start,
                end: snapshot.state().end,
                ..old(self)@
            }),
    {
        self.text = snapshot.text;
        self.selection = snapshot.selection;
    }

    fn push_undo(&mut self)
        requires
            old(self).wf(),
        ensures
            final(self)@ == (TextInputModel {
                undo: push_history(old(self)@.undo, old(self)@.state()),
                redo: Seq::empty(),
                ..old(self)@
            }),
            final(self).wf(),
    {
        let ghost old_undo = self@.undo;
        if self.undo.len() == MAX_HISTORY {
            self.undo.remove(0);
            assert(states_of(self.undo@) =~= old_undo.drop_first());
        }
        let ghost mid = self.undo@;
        let snap = self.snapshot();
        self.undo.push(snap);
        assert(states_of(self.undo@) =~= states_of(mid).push(snap.state()));
        self.redo.clear();
        assert(states_of(self.redo@) =~= Seq::<EditState>::empty());
    }

    fn push_redo(&mut self)
        requires
            old(self).wf(),
        ensures
            final(self)@ == (TextInputModel {
                redo: push_history(old(self)@.redo, old(self)@.state()),
                ..old(self)@
            }),
            final(self)@.redo.len() <= MAX_HISTORY,
    {
        let ghost old_redo = self@.redo;
        if self.redo.len() == MAX_HISTORY {
            self.redo.remove(0);
            assert(states_of(self.redo@) =~= old_redo.drop_first());
        }
        let ghost mid = self.redo@;
        let snap = self.snapshot();
        self.redo.push(snap);
        assert(states_of(self.redo@) =~= states_of(mid).push(snap.state()));
    }

    /// Replaces the characters `[start, end)` (clamped to the text) with `ins`.
    fn replace_chars(&mut self, start: usize, end: usize, ins: &Vec<char>)
        requires
            clamp(start as int, old(self)@.text.len() as int) <= clamp(
                end as int,
                old(self)@.text.len() as int,
            ),
        ensures
            final(self)@ == (TextInputModel {
                text: splice(old(self)@.text, start as int, end as int, ins@),
                ..old(self)@
            }),
    {
        let chars = chars_of(self.text.as_str());
        let out = splice_chars(&chars, start, end, ins);
        self.text = string_from_chars(&out);
    }

    fn replace_selection(&mut self, text: &str) -> (changed: bool)
        requires
            old(self).wf(),
            old(self)@.start + text@.len() <= usize::MAX,
        ensures
            (changed, final(self)@) == old(self)@.replace_selection(text@),
            final(self).wf(),
    {
        if self.selection.start == self.selection.end && text.is_empty() {
            return false;
        }
        self.push_undo();
        let ins = chars_of(text);
        self.replace_chars(self.selection.start, self.selection.end, &ins);
        let cursor = self.selection.start + ins.len();
        self.selection = CharRange { start: cursor, end: cursor };
        true
    }

    /// Types `text` over the selection.
    pub fn insert_text(&mut self, text: &str) -> (changed: bool)
        requires
            old(self).wf(),
            old(self)@.start + text@.len() <= usize::MAX,
        ensures
            (changed, final(self)@) == old(self)@.insert(text@),
            final(self).wf(),
    {
        if text.is_empty() {
            return false;
        }
        self.push_undo();
        let ins = chars_of(text);
        self.replace_chars(self.selection.start, self.selection.end, &ins);
        let cursor = self.selection.start + ins.len();
        self.selection = CharRange { start: cursor, end: cursor };
        true
    }

    pub fn backspace(&mut self) -> (changed: bool)
        requires
            old(self).wf(),
        ensures
            (changed, final(self)@) == old(self)@.backspace(),
            final(self).wf(),
    {
        if self.selection.start != self.selection.end {
            proof {
                reveal_strlit("");
            }
            return self.replace_selection("");
        }
        if self.selection.start == 0 {
            return false;
        }
        self.push_undo();
        let start_char = self.selection.start - 1;
        let none: Vec<char> = Vec::new();
        self.replace_chars(start_char, self.selection.start, &none);
        self.selection = CharRange { start: start_char, end: start_char };
        true
    }

    pub fn delete_forward(&mut self) -> (changed: bool)
        requires
            old(self).wf(),
        ensures
            (changed, final(self)@) == old(self)@.delete_forward(),
            final(self).wf(),
    {
        if self.selection.start != self.selection.end {
            proof {
                reveal_strlit("");
            }
            return self.replace_selection("");
        }
        let end_char = chars_of(self.text.as_str()).len();
        if self.selection.end >= end_char {
            return false;
        }
        self.push_undo();
        let none: Vec<char> = Vec::new();
        self.replace_chars(self.selection.start, self.selection.start + 1, &none);
        true
    }

    pub fn move_left(&mut self) -> (changed: bool)
        requires
            old(self).wf(),
        ensures
            (changed, final(self)@) == old(self)@.move_left(),
            final(self).wf(),
    {
        if self.selection.start == 0 {
            return false;
        }
        let cursor = self.selection.start - 1;
        self.selection = CharRange { start: cursor, end: cursor };
        true
    }

    pub fn move_right(&mut self) -> (changed: bool)
        requires
            old(self).wf(),
        ensures
            (changed, final(self)@) == old(self)@.move_right(),
            final(self).wf(),
    {
        let end = chars_of(self.text.as_str()).len();
        if self.selection.end >= end {
            return false;
        }
        let cursor = self.selection.end + 1;
        self.selection = CharRange { start: cursor, end: cursor };
        true
    }

    pub fn undo(&mut self) -> (changed: bool)
        requires
            old(self).wf(),
        ensures
            (changed, final(self)@) == old(self)@.undo(),
            final(self).wf(),
    {
        let ghost before = self@;
        let previous = match self.undo.pop() {
            Some(previous) => previous,
            None => {
                return false;
            },
        };
        assert(states_of(self.undo@) =~= before.undo.drop_last());
        self.push_redo();
        self.restore(previous);
        true
    }

    pub fn redo(&mut self) -> (changed: bool)
        requires
            old(self).wf(),
        ensures
            (changed, final(self)@) == old(self)@.redo(),
            final(self).wf(),
    {
        let ghost before = self@;
        let next = match self.redo.pop() {
            Some(next) => next,
            None => {
                return false;
            },
        };
        assert(states_of(self.redo@) =~= before.redo.drop_last());
        self.push_undo();
        self.restore(next);
        true
    }

    /// Applies a key press (`key` is the key name, `key_char` the text it
    /// types, if any).
    pub fn handle_key(&mut self, key: &str, key_char: Option<&str>) -> (result: InputKeyResult)
        requires
            old(self).wf(),
            key_char matches Some(t) ==> old(self)@.start + t@.len() <= usize::MAX,
        ensures
            (result, final(self)@) == old(self)@.handle_key(
                key@,
                match key_char {
                    Some(t) => Some(t@),
                    None => None,
                },
            ),
            final(self).wf(),
    {
        let changed = if str_eq(key, "backspace") {
            self.backspace()
        } else if str_eq(key, "delete") {
            self.delete_forward()
        } else if str_eq(key, "left") {
            self.move_left()
        } else if str_eq(key, "right") {
            self.move_right()
        } else if str_eq(key, "enter") {
            return InputKeyResult::Submit;
        } else if str_eq(key, "escape") {
            return InputKeyResult::Cancel;
        } else {
            match key_char {
                Some(text) => {
                    if text.is_empty() {
                        return InputKeyResult::Ignored;
                    }
                    self.insert_text(text)
                },
                None => {
                    return InputKeyResult::Ignored;
                },
            }
        };
        if changed {
            InputKeyResult::Changed
        } else {
            InputKeyResult::Ignored
        }
    }

    /// The selection as a UTF-16 range.
    pub fn utf16_selection(&self) -> (range: Range<usize>)
        requires
            utf16_len(self@.text) <= usize::MAX,
        ensures
            range.start == utf16_offset(self@.text, self@.start as int),
            range.end == utf16_offset(self@.text, self@.end as int),
    {
        let chars = chars_of(self.text.as_str());
        utf16_offset_of(&chars, self.selection.start)..utf16_offset_of(&chars, self.selection.end)
    }

    /// The characters covered by a UTF-16 range (empty when it is reversed).
    pub fn text_for_utf16_range(&self, range: Range<usize>) -> (text: String)
        requires
            utf16_len(self@.text) <= usize::MAX,
        ensures
            ({
                let (s, e) = char_range_for_utf16(self@.text, range);
                text@ == self@.text.subrange(
                    s as int,
                    if s <= e {
                        e as int
                    } else {
                        s as int
                    },
                )
            }),
    {
        let chars = chars_of(self.text.as_str());
        let start = char_index_for_utf16(&chars, range.start);
        let end = char_index_for_utf16(&chars, range.end);
        proof {
            crate::text::lemma_char_index_for_utf16_bounds(chars@, range.start as int);
            crate::text::lemma_char_index_for_utf16_bounds(chars@, range.end as int);
        }
        let stop = if start <= end {
            end
        } else {
            start
        };
        let mut out: Vec<char> = Vec::new();
        let mut i = start;
        while i < stop
            invariant
                start <= i <= stop <= chars@.len(),
                out@ == chars@.subrange(start as int, i as int),
            decreases stop - i,
        {
            out.push(chars[i]);
            i += 1;
            assert(out@ =~= chars@.subrange(start as int, i as int));
        }
        string_from_chars(&out)
    }

    /// Replaces a UTF-16 range (or the selection) with `text`.
    pub fn replace_utf16_range(&mut self, range: Option<Range<usize>>, text: &str)
        requires
            old(self).wf(),
            utf16_len(old(self)@.text) <= usize::MAX,
            range matches Some(r) ==> char_range_for_utf16(old(self)@.text, r).0
                <= char_range_for_utf16(old(self)@.text, r).1,
            (match range {
                Some(r) => char_range_for_utf16(old(self)@.text, r).0,
                None => old(self)@.start,
            }) + text@.len() <= usize::MAX,
        ensures
            final(self)@ == old(self)@.replace_utf16_range(range, text@),
            final(self).wf(),
    {
        let (s, e) = match range {
            Some(r) => {
                let chars = chars_of(self.text.as_str());
                (char_index_for_utf16(&chars, r.start), char_index_for_utf16(&chars, r.end))
            },
            None => (self.selection.start, self.selection.end),
        };
        self.selection = CharRange { start: s, end: e };
        if text.is_empty() {
            self.replace_selection(text);
        } else {
            self.insert_text(text);
        }
    }

    /// Replaces any existing composition with `text`, marking it for the next
    /// update. `range` is UTF-16, as the platform bridge supplies.
    pub fn replace_marked_text(&mut self, range: Option<Range<usize>>, text: &str)
        requires
            old(self).wf(),
            utf16_len(old(self)@.text) <= usize::MAX,
            old(self)@.marked_target(range).0 <= old(self)@.marked_target(range).1,
            old(self)@.marked_target(range).0 + text@.len() <= usize::MAX,
        ensures
            final(self)@ == old(self)@.replace_marked(range, text@),
            final(self).wf(),
    {
        match self.marked_range.take() {
            Some(marked) => {
                proof {
                    lemma_utf16_len_splice_removal(self@.text, marked.start as int, marked.end as int);
                }
                let none: Vec<char> = Vec::new();
                self.replace_chars(marked.start, marked.end, &none);
                self.selection = CharRange { start: marked.start, end: marked.start };
            },
            None => {},
        }
        let (s, e) = match range {
            Some(r) => {
                let chars = chars_of(self.text.as_str());
                (char_index_for_utf16(&chars, r.start), char_index_for_utf16(&chars, r.end))
            },
            None => (self.selection.start, self.selection.end),
        };
        self.push_undo();
        let ins = chars_of(text);
        self.replace_chars(s, e, &ins);
        let cursor = s + ins.len();
        self.selection = CharRange { start: cursor, end: cursor };
        self.marked_range = Some(CharRange { start: s, end: cursor });
    }

    /// Commits the composition as real text.
    pub fn commit_marked_text(&mut self, range: Option<Range<usize>>, text: &str)
        requires
            old(self).wf(),
            utf16_len(old(self)@.text) <= usize::MAX,
            old(self)@.commit_target(range).0 <= old(self)@.commit_target(range).1,
            old(self)@.commit_target(range).0 + text@.len() <= usize::MAX,
        ensures
            final(self)@ == old(self)@.commit_marked(range, text@),
            final(self).wf(),
    {
        let marked = self.marked_range.take();
        let (s, e) = match range {
            Some(r) => {
                let chars = chars_of(self.text.as_str());
                (char_index_for_utf16(&chars, r.start), char_index_for_utf16(&chars, r.end))
            },
            None => match marked {
                Some(m) => (m.start, m.end),
                None => (self.selection.start, self.selection.end),
            },
        };
        self.push_undo();
        let ins = chars_of(text);
        self.replace_chars(s, e, &ins);
        let cursor = s + ins.len();
        self.selection = CharRange { start: cursor, end: cursor };
    }

    /// Ends the composition, keeping its text.
    pub fn unmark_text(&mut self)
        requires
            old(self).wf(),
        ensures
            final(self)@ == (TextInputModel { marked: None, ..old(self)@ }),
            final(self).wf(),
    {
        self.marked_range = None;
    }

    /// The composition as a UTF-16 range, if there is one.
    pub fn marked_text_utf16_range(&self) -> (range: Option<Range<usize>>)
        requires
            utf16_len(self@.text) <= usize::MAX,
        ensures
            match self@.marked {
                Some(m) => range matches Some(r) && r.start == utf16_offset(self@.text, m.0 as int)
                    && r.end == utf16_offset(self@.text, m.1 as int),
                None => range is None,
            },
    {
        match &self.marked_range {
            Some(m) => {
                let chars = chars_of(self.text.as_str());
                Some(utf16_offset_of(&chars, m.start)..utf16_offset_of(&chars, m.end))
            },
            None => None,
        }
    }
}

} // verus!

verus! {

/// The caret keys: right moves the caret one character past the end of the
/// selection and left one character before its start, collapsing it; at the
/// edge of the text nothing changes. Text and history stay as they were.
pub proof fn law_caret_moves_collapse_the_selection(m: TextInputModel)
    ensures
        m.move_right().0 <==> m.end < m.text.len(),
        m.move_right().0 ==> m.move_right().1.start == m.end + 1 && m.move_right().1.end == m.end + 1,
        !m.move_right().0 ==> m.move_right().1 == m,
        m.move_right().1.text == m.text && m.move_right().1.undo == m.undo
            && m.move_right().1.redo == m.redo && m.move_right().1.marked == m.marked,
        m.move_left().0 <==> m.start > 0,
        m.move_left().0 ==> m.move_left().1.start == m.start - 1 && m.move_left().1.end == m.start - 1,
        !m.move_left().0 ==> m.move_left().1 == m,
        m.move_left().1.text == m.text && m.move_left().1.undo == m.undo
            && m.move_left().1.redo == m.redo && m.move_left().1.marked == m.marked,
{
}

/// Typing replaces the selected characters with the typed ones and puts the
/// caret right after them; the previous text and selection become the newest
/// undo state and nothing is left to redo. Typing nothing changes nothing.
pub proof fn law_typing_replaces_the_selection(m: TextInputModel, ins: Seq<char>)
    requires
        m.start <= m.end <= m.text.len(),
    ensures
        ins.len() == 0 ==> !m.insert(ins).0 && m.insert(ins).1 == m,
        ins.len() > 0 ==> {
            let r = m.insert(ins).1;
            &&& m.insert(ins).0
            &&& r.text == m.text.subrange(0, m.start as int) + ins + m.text.subrange(
                m.end as int,
                m.text.len() as int,
            )
            &&& r.start == m.start + ins.len() && r.end == m.start + ins.len()
            &&& r.undo.last() == m.state() && r.redo.len() == 0
        },
{
}

/// Backspace deletes the selected characters, or else the character before
/// the caret, and leaves the caret where the deleted text began; at the start
/// of the text with nothing selected it does nothing.
pub proof fn law_backspace_deletes_before_the_caret(m: TextInputModel)
    requires
        m.start <= m.end <= m.text.len(),
    ensures
        m.start < m.end ==> m.backspace().0 && m.backspace().1.text == m.text.subrange(
            0,
            m.start as int,
        ) + m.text.subrange(m.end as int, m.text.len() as int) && m.backspace().1.start == m.start
            && m.backspace().1.end == m.start,
        m.start == m.end && m.start > 0 ==> m.backspace().0 && m.backspace().1.text
            == m.text.subrange(0, m.start - 1) + m.text.subrange(m.start as int, m.text.len() as int)
            && m.backspace().1.start == m.start - 1 && m.backspace().1.end == m.start - 1,
        m.start == m.end && m.start == 0 ==> !m.backspace().0 && m.backspace().1 == m,
        m.backspace().0 ==> m.backspace().1.undo.last() == m.state(),
{
    assert(Seq::<char>::empty().len() == 0);
    if m.start == m.end && m.start > 0 {
        assert(m.text.subrange(0, m.start - 1) + Seq::<char>::empty() =~= m.text.subrange(
            0,
            m.start - 1,
        ));
    }
    if m.start < m.end {
        assert(m.text.subrange(0, m.start as int) + Seq::<char>::empty() =~= m.text.subrange(
            0,
            m.start as int,
        ));
    }
}

/// Forward delete deletes the selected characters, or else the character
/// after the caret, keeping the caret where it was; at the end of the text
/// with nothing selected it does nothing.
pub proof fn law_delete_removes_after_the_caret(m: TextInputModel)
    requires
        m.start <= m.end <= m.text.len(),
    ensures
        m.start < m.end ==> m.delete_forward().0 && m.delete_forward().1.text == m.text.subrange(
            0,
            m.start as int,
        ) + m.text.subrange(m.end as int, m.text.len() as int) && m.delete_forward().1.start
            == m.start && m.delete_forward().1.end == m.start,
        m.start == m.end && m.end < m.text.len() ==> m.delete_forward().0
            && m.delete_forward().1.text == m.text.subrange(0, m.start as int) + m.text.subrange(
            m.start + 1 as int,
            m.text.len() as int,
        ) && m.delete_forward().1.start == m.start && m.delete_forward().1.end == m.start,
        m.start == m.end && m.end == m.text.len() ==> !m.delete_forward().0 && m.delete_forward().1
            == m,
        m.delete_forward().0 ==> m.delete_forward().1.undo.last() == m.state(),
{
    assert(m.text.subrange(0, m.start as int) + Seq::<char>::empty() =~= m.text.subrange(
        0,
        m.start as int,
    ));
}

/// Undo brings back the newest recorded state and records the current one for
/// redo; redo brings back the newest redo state and records the current one
/// for undo. With an empty stack nothing changes.
pub proof fn law_undo_redo_swap_states(m: TextInputModel)
    ensures
        m.undo().0 <==> m.undo.len() > 0,
        m.undo().0 ==> m.undo().1.state() == m.undo.last() && m.undo().1.redo.last() == m.state()
            && m.undo().1.undo == m.undo.drop_last(),
        !m.undo().0 ==> m.undo().1 == m,
        m.redo().0 <==> m.redo.len() > 0,
        m.redo().0 ==> m.redo().1.state() == m.redo.last() && m.redo().1.undo.last() == m.state(),
        !m.redo().0 ==> m.redo().1 == m,
{
}

} // verus!
