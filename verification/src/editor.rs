//! The editor controller: modal input dispatch over a line buffer.
//!
//! The controller owns the buffer, the cursor (a row and a grapheme-cluster
//! column), the viewport scroll state, the Normal/Insert mode flag, the
//! pending two-keystroke command state, and a cache of the current line's
//! grapheme decomposition.  Every input handler states exactly how the new
//! state relates to the old one, and every handler preserves the controller
//! invariant: the buffer is never empty, the cursor row addresses a line, and
//! the cursor column is at most the current line's grapheme count.

use vstd::prelude::*;
use crate::buffer::Buffer;
use crate::graphemes::{grapheme_count, grapheme_segments_of, lemma_remove_segment,
    lemma_segment_span, prefix_char_count, prefix_chars, segments_of_line, segments_wf,
    string_from_chars};
use crate::text::{join_lines, split_lines};

verus! {

/// The editing mode: Normal interprets characters as commands, Insert as
/// literal text.
#[derive(Clone, Copy, Debug, PartialEq, Eq, Structural)]
pub enum Mode {
    Normal,
    Insert,
}

/// The transient status message shown after a save attempt.
#[derive(Clone, Copy, Debug, PartialEq, Eq, Structural)]
pub enum SaveStatus {
    Saved,
    SaveFailed,
}

/// A named (non-printable) key delivered by the host.
#[derive(Clone, Copy, Debug, PartialEq, Eq, Structural)]
pub enum NamedKey {
    Up,
    Down,
    Left,
    Right,
    Home,
    End,
    Backspace,
    Enter,
    Tab,
    Escape,
}

/// One decoded input event from the host.
#[derive(Clone, Copy, Debug, PartialEq, Eq, Structural)]
pub enum InputEvent {
    Character(char),
    Named(NamedKey),
    Resize,
}

/// What the controller asks of the host after handling an event.
#[derive(Clone, Copy, Debug, PartialEq, Eq, Structural)]
pub enum EventOutcome {
    /// The event matched no handler; the host may fall back on it.
    Ignored,
    /// The event was handled.
    Consumed,
    /// The host should write the serialized buffer to disk and report the
    /// result back through `report_save_result`.
    SaveRequested,
    /// The host should shut down.
    QuitRequested,
}

/// The editor controller state.
pub struct Editor {
    pub buffer: Buffer,
    /// Cursor row: an index into the buffer's lines.
    pub row: usize,
    /// Cursor column, in grapheme clusters; equal to the grapheme count of
    /// the current line when the caret sits past the last glyph.
    pub col: usize,
    /// First visible row of the viewport.
    pub scroll_index: usize,
    /// Viewport width, as last delivered by the host's layout pass.
    pub view_width: usize,
    /// Viewport height, as last delivered by the host's layout pass.
    pub view_height: usize,
    pub mode: Mode,
    /// Pending first keystroke of a two-keystroke command.
    pub pending: Option<char>,
    pub status: Option<SaveStatus>,
    /// Set when a handler changed state the renderer shows.
    pub data_changed: bool,
    /// Set when the host reported a window resize.
    pub resize_changed: bool,
    /// Grapheme decomposition of the current line, recomputed whenever the
    /// row changes or the current line's text changes.
    pub segs: Vec<Vec<char>>,
}

/// `col` clamped to at most `gc`.
pub open spec fn clamp_to(col: int, gc: int) -> int {
    if gc < col {
        gc
    } else {
        col
    }
}

/// A scroll index one higher, held at the machine limit.
pub open spec fn bumped(s: int) -> int {
    if s == usize::MAX {
        s
    } else {
        s + 1
    }
}

impl Editor {
    /// The characters of the line the cursor is on.
    pub open spec fn cur_line(&self) -> Seq<char> {
        self.buffer@[self.row as int]
    }

    /// The cached decomposition matches the current line, and the segmenter's
    /// guarantees are known for it.
    pub open spec fn cache_ok(&self) -> bool {
        &&& self.segs.deep_view() == grapheme_segments_of(self.cur_line())
        &&& segments_wf(self.cur_line())
    }

    /// The controller invariant.
    pub open spec fn wf(&self) -> bool {
        &&& self.buffer.wf()
        &&& (self.row as int) < self.buffer@.len()
        &&& self.cache_ok()
        &&& self.col <= grapheme_count(self.cur_line())
    }
}

/// The fields no cursor or buffer operation touches are unchanged.
pub open spec fn same_admin(pre: Editor, post: Editor) -> bool {
    &&& post.mode == pre.mode
    &&& post.pending == pre.pending
    &&& post.status == pre.status
    &&& post.view_width == pre.view_width
    &&& post.view_height == pre.view_height
    &&& post.resize_changed == pre.resize_changed
}

/// `e` with the data-changed flag raised.
pub open spec fn with_data_changed(e: Editor) -> Editor {
    Editor { data_changed: true, ..e }
}

/// `e` with the status message cleared, as at the start of handling a
/// keystroke.
pub open spec fn with_status_cleared(e: Editor) -> Editor {
    Editor { status: None, ..e }
}

/// Moving up: one row less unless already on the first row; the scroll index
/// follows the cursor above the viewport; the column is clamped to the new
/// line.
pub open spec fn move_up_rel(pre: Editor, post: Editor) -> bool {
    if pre.row == 0 {
        post == pre
    } else {
        let line = pre.buffer@[pre.row - 1];
        &&& post.buffer == pre.buffer
        &&& post.row == pre.row - 1
        &&& post.col == clamp_to(pre.col as int, grapheme_count(line) as int)
        &&& post.scroll_index == if pre.row - 1 < pre.scroll_index {
            pre.scroll_index - 1
        } else {
            pre.scroll_index as int
        }
        &&& post.cache_ok()
        &&& post.data_changed == pre.data_changed
        &&& same_admin(pre, post)
    }
}

/// Moving down: one row more unless already on the last row; the scroll
/// index advances when the cursor would pass the viewport's last text row
/// (the bottom row is reserved for the status bar); the column is clamped.
pub open spec fn move_down_rel(pre: Editor, post: Editor) -> bool {
    if pre.row + 1 >= pre.buffer@.len() {
        post == pre
    } else {
        let line = pre.buffer@[pre.row + 1];
        &&& post.buffer == pre.buffer
        &&& post.row == pre.row + 1
        &&& post.col == clamp_to(pre.col as int, grapheme_count(line) as int)
        &&& post.scroll_index == if pre.row + 3 > pre.scroll_index + pre.view_height {
            bumped(pre.scroll_index as int)
        } else {
            pre.scroll_index as int
        }
        &&& post.cache_ok()
        &&& post.data_changed == pre.data_changed
        &&& same_admin(pre, post)
    }
}

/// Moving right: one column more, stopping at the last addressable glyph
/// position; an empty line admits no movement.
pub open spec fn move_right_rel(pre: Editor, post: Editor) -> bool {
    let gc = grapheme_count(pre.cur_line());
    if gc > 0 && (pre.col as int) < gc - 1 {
        post == Editor { col: (pre.col + 1) as usize, ..pre }
    } else {
        post == pre
    }
}

/// Moving left: one column less unless already at the line start; the
/// scroll index advances when the cursor row lies past the viewport, a quirk
/// kept as observed.
pub open spec fn move_left_rel(pre: Editor, post: Editor) -> bool {
    if pre.col == 0 {
        post == pre
    } else {
        &&& post.buffer == pre.buffer
        &&& post.row == pre.row
        &&& post.col == pre.col - 1
        &&& post.scroll_index == if pre.row > pre.scroll_index + pre.view_height {
            bumped(pre.scroll_index as int)
        } else {
            pre.scroll_index as int
        }
        &&& post.segs == pre.segs
        &&& post.data_changed == pre.data_changed
        &&& same_admin(pre, post)
    }
}

/// Typing a character: it is inserted at the cursor's cluster boundary and
/// the cursor advances one column, clamped to the new line's grapheme count.
pub open spec fn insert_char_rel(pre: Editor, c: char, post: Editor) -> bool {
    let off = prefix_chars(grapheme_segments_of(pre.cur_line()), pre.col as int);
    let newline = pre.cur_line().insert(off, c);
    &&& post.buffer@ == pre.buffer@.update(pre.row as int, newline)
    &&& post.row == pre.row
    &&& post.col == clamp_to(pre.col + 1, grapheme_count(newline) as int)
    &&& post.scroll_index == pre.scroll_index
    &&& post.cache_ok()
    &&& post.data_changed == pre.data_changed
    &&& same_admin(pre, post)
}

/// Backspace.  With the cursor inside a line, the whole grapheme cluster
/// before it is removed atomically.  At a line start the line is merged into
/// the previous one and the cursor lands on the former boundary, except at
/// the buffer's very first position, where nothing happens.
pub open spec fn backspace_rel(pre: Editor, post: Editor) -> bool {
    if pre.col == 0 {
        if pre.buffer@.len() == 1 || pre.row == 0 {
            post == pre
        } else {
            let prev = pre.buffer@[pre.row - 1];
            let merged = prev + pre.cur_line();
            &&& post.buffer@ == pre.buffer@.update(pre.row - 1, merged).remove(pre.row as int)
            &&& post.row == pre.row - 1
            &&& post.col == clamp_to(
                grapheme_count(prev) as int,
                grapheme_count(merged) as int,
            )
            &&& post.scroll_index == pre.scroll_index
            &&& post.cache_ok()
            &&& post.data_changed == pre.data_changed
            &&& same_admin(pre, post)
        }
    } else {
        let segs = grapheme_segments_of(pre.cur_line());
        let newline = segs.remove(pre.col - 1).flatten();
        &&& post.buffer@ == pre.buffer@.update(pre.row as int, newline)
        &&& post.row == pre.row
        &&& post.col == clamp_to(pre.col - 1, grapheme_count(newline) as int)
        &&& post.scroll_index == pre.scroll_index
        &&& post.cache_ok()
        &&& post.data_changed == pre.data_changed
        &&& same_admin(pre, post)
    }
}

/// Enter: the current line is split at the cursor's cluster boundary; the
/// prefix stays, the suffix becomes the next line, and the cursor moves to
/// its start.
pub open spec fn newline_rel(pre: Editor, post: Editor) -> bool {
    let off = prefix_chars(grapheme_segments_of(pre.cur_line()), pre.col as int);
    &&& post.buffer@ == pre.buffer@.update(pre.row as int, pre.cur_line().take(off)).insert(
        pre.row + 1,
        pre.cur_line().skip(off),
    )
    &&& post.row == pre.row + 1
    &&& post.col == 0
    &&& post.scroll_index == pre.scroll_index
    &&& post.cache_ok()
    &&& post.data_changed == pre.data_changed
    &&& same_admin(pre, post)
}

/// Tab: four spaces are inserted at the cursor's cluster boundary and the
/// cursor advances four columns, clamped to the new line's grapheme count.
pub open spec fn tab_rel(pre: Editor, post: Editor) -> bool {
    let off = prefix_chars(grapheme_segments_of(pre.cur_line()), pre.col as int);
    let newline = pre.cur_line().take(off) + seq![' ', ' ', ' ', ' '] + pre.cur_line().skip(off);
    &&& post.buffer@ == pre.buffer@.update(pre.row as int, newline)
    &&& post.row == pre.row
    &&& post.col == clamp_to(pre.col + 4, grapheme_count(newline) as int)
    &&& post.scroll_index == pre.scroll_index
    &&& post.cache_ok()
    &&& post.data_changed == pre.data_changed
    &&& same_admin(pre, post)
}

/// Delete-current-line (the second keystroke of the two-key command): a sole
/// line is cleared instead of removed, otherwise the line goes and the row
/// steps back if it fell past the end; the pending state is consumed.
pub open spec fn delete_line_rel(pre: Editor, post: Editor) -> bool {
    let newbuf = if pre.buffer@.len() == 1 {
        seq![Seq::<char>::empty()]
    } else {
        pre.buffer@.remove(pre.row as int)
    };
    let newrow = if pre.row as int >= newbuf.len() {
        pre.row - 1
    } else {
        pre.row as int
    };
    &&& post.buffer@ == newbuf
    &&& post.row == newrow
    &&& post.col == clamp_to(pre.col as int, grapheme_count(newbuf[newrow]) as int)
    &&& post.scroll_index == pre.scroll_index
    &&& post.pending is None
    &&& post.data_changed == true
    &&& post.cache_ok()
    &&& post.mode == pre.mode
    &&& post.status == pre.status
    &&& post.view_width == pre.view_width
    &&& post.view_height == pre.view_height
    &&& post.resize_changed == pre.resize_changed
}

/// Normal-mode character dispatch: `i` enters Insert mode, a repeated `d`
/// deletes the current line, `s` asks the host to save, `x` asks the host to
/// quit, and anything else records the pending first keystroke of the
/// delete-line command and is left for the host.
pub open spec fn normal_char_rel(pre: Editor, c: char, post: Editor, out: EventOutcome) -> bool {
    if c == 'i' {
        &&& (post == Editor { mode: Mode::Insert, data_changed: true, ..pre })
        &&& out == EventOutcome::Consumed
    } else if c == 'd' && pre.pending == Some('d') {
        &&& delete_line_rel(pre, post)
        &&& out == EventOutcome::Consumed
    } else if c == 's' {
        &&& post == pre
        &&& out == EventOutcome::SaveRequested
    } else if c == 'x' {
        &&& post == pre
        &&& out == EventOutcome::QuitRequested
    } else {
        &&& (post == Editor { pending: Some('d'), ..pre })
        &&& out == EventOutcome::Ignored
    }
}

/// End: the caret moves past the last glyph of the current line.
pub open spec fn end_key_rel(pre: Editor, post: Editor) -> bool {
    &&& post.buffer == pre.buffer
    &&& post.row == pre.row
    &&& post.col == grapheme_count(pre.cur_line())
    &&& post.scroll_index == pre.scroll_index
    &&& post.segs == pre.segs
    &&& post.data_changed == true
    &&& same_admin(pre, post)
}

/// Keys handled alike in both modes: arrows move the cursor, Home and End
/// jump within the line, anything else is left for the host.
pub open spec fn shared_key_rel(pre: Editor, k: NamedKey, post: Editor, out: EventOutcome) -> bool {
    match k {
        NamedKey::Up => move_up_rel(with_data_changed(pre), post) && out
            == EventOutcome::Consumed,
        NamedKey::Down => move_down_rel(with_data_changed(pre), post) && out
            == EventOutcome::Consumed,
        NamedKey::Right => move_right_rel(with_data_changed(pre), post) && out
            == EventOutcome::Consumed,
        NamedKey::Left => move_left_rel(with_data_changed(pre), post) && out
            == EventOutcome::Consumed,
        NamedKey::Home => (post == Editor { col: 0, data_changed: true, ..pre }) && out
            == EventOutcome::Consumed,
        NamedKey::End => end_key_rel(pre, post) && out == EventOutcome::Consumed,
        _ => post == pre && out == EventOutcome::Ignored,
    }
}

/// Insert-mode key dispatch: Backspace deletes backward, Enter splits the
/// line, Tab inserts four spaces, Escape returns to Normal mode, and the
/// rest behave as in both modes.
pub open spec fn insert_key_rel(pre: Editor, k: NamedKey, post: Editor, out: EventOutcome) -> bool {
    match k {
        NamedKey::Backspace => backspace_rel(with_data_changed(pre), post) && out
            == EventOutcome::Consumed,
        NamedKey::Enter => newline_rel(with_data_changed(pre), post) && out
            == EventOutcome::Consumed,
        NamedKey::Tab => tab_rel(with_data_changed(pre), post) && out == EventOutcome::Consumed,
        NamedKey::Escape => (post == Editor { mode: Mode::Normal, data_changed: true, ..pre })
            && out == EventOutcome::Consumed,
        _ => shared_key_rel(pre, k, post, out),
    }
}

/// One step of the controller: the status message is cleared at the start of
/// every keystroke, a resize only raises the resize flag, and characters and
/// keys dispatch on the current mode.
pub open spec fn event_rel(pre: Editor, ev: InputEvent, post: Editor, out: EventOutcome) -> bool {
    match ev {
        InputEvent::Resize => (post == Editor { resize_changed: true, ..pre }) && out
            == EventOutcome::Consumed,
        InputEvent::Character(c) => match pre.mode {
            Mode::Insert => insert_char_rel(with_data_changed(with_status_cleared(pre)), c, post)
                && out == EventOutcome::Consumed,
            Mode::Normal => normal_char_rel(with_status_cleared(pre), c, post, out),
        },
        InputEvent::Named(k) => match pre.mode {
            Mode::Insert => insert_key_rel(with_status_cleared(pre), k, post, out),
            Mode::Normal => shared_key_rel(with_status_cleared(pre), k, post, out),
        },
    }
}

impl Editor {
    /// Build a fresh editor over the given document: cursor at the origin,
    /// Normal mode, nothing pending, nothing scrolled.
    pub fn new(text: &str) -> (e: Editor)
        ensures
            e.wf(),
            e.buffer@ == split_lines(text@),
            e.row == 0,
            e.col == 0,
            e.scroll_index == 0,
            e.view_width == 0,
            e.view_height == 0,
            e.mode == Mode::Normal,
            e.pending is None,
            e.status is None,
            e.data_changed == false,
            e.resize_changed == false,
    {
        let buffer = Buffer::from_text(text);
        let segs = segments_of_line(buffer.line_at(0));
        Editor {
            buffer,
            row: 0,
            col: 0,
            scroll_index: 0,
            view_width: 0,
            view_height: 0,
            mode: Mode::Normal,
            pending: None,
            status: None,
            data_changed: false,
            resize_changed: false,
            segs,
        }
    }

    /// Refresh the grapheme cache from the current line and clamp the column
    /// to the line's grapheme count.
    fn refresh_cache_and_clamp(&mut self)
        requires
            old(self).buffer.wf(),
            (old(self).row as int) < old(self).buffer@.len(),
        ensures
            final(self).wf(),
            final(self).col == clamp_to(
                old(self).col as int,
                grapheme_count(old(self).cur_line()) as int,
            ),
            (*final(self) == Editor { col: final(self).col, segs: final(self).segs, ..*old(self) }),
    {
        let line = self.buffer.line_at(self.row);
        let segs = segments_of_line(line);
        self.segs = segs;
        if self.col > self.segs.len() {
            self.col = self.segs.len();
        }
    }

    /// Move the cursor up one row.
    pub fn move_cursor_up(&mut self)
        requires
            old(self).wf(),
        ensures
            final(self).wf(),
            move_up_rel(*old(self), *final(self)),
    {
        if self.row == 0 {
            return ;
        }
        self.row = self.row - 1;
        if self.row < self.scroll_index {
            self.scroll_index = self.scroll_index - 1;
        }
        self.refresh_cache_and_clamp();
    }

    /// Move the cursor down one row.
    pub fn move_cursor_down(&mut self)
        requires
            old(self).wf(),
        ensures
            final(self).wf(),
            move_down_rel(*old(self), *final(self)),
    {
        let n = self.buffer.line_count();
        if self.row >= n - 1 {
            return ;
        }
        self.row = self.row + 1;
        if (self.row as u128) + 2 > (self.scroll_index as u128) + (self.view_height as u128) {
            if self.scroll_index < usize::MAX {
                self.scroll_index = self.scroll_index + 1;
            }
        }
        self.refresh_cache_and_clamp();
    }

    /// Move the cursor right one grapheme cluster.
    pub fn move_cursor_right(&mut self)
        requires
            old(self).wf(),
        ensures
            final(self).wf(),
            move_right_rel(*old(self), *final(self)),
    {
        let gc = self.segs.len();
        if gc > 0 && self.col < gc - 1 {
            self.col = self.col + 1;
        }
    }

    /// Move the cursor left one grapheme cluster.
    pub fn move_cursor_left(&mut self)
        requires
            old(self).wf(),
        ensures
            final(self).wf(),
            move_left_rel(*old(self), *final(self)),
    {
        if self.col == 0 {
            return ;
        }
        self.col = self.col - 1;
        if (self.row as u128) > (self.scroll_index as u128) + (self.view_height as u128) {
            if self.scroll_index < usize::MAX {
                self.scroll_index = self.scroll_index + 1;
            }
        }
    }

    /// The character offset of the cursor's cluster boundary in the current
    /// line.
    fn cursor_char_offset(&self) -> (off: usize)
        requires
            self.wf(),
        ensures
            off == prefix_chars(grapheme_segments_of(self.cur_line()), self.col as int),
            off <= self.cur_line().len(),
    {
        let line = self.buffer.line_at(self.row);
        let total = line.len();
        proof {
            assert(self.segs.deep_view().flatten() == self.cur_line());
            assert(total == self.cur_line().len());
        }
        prefix_char_count(&self.segs, self.col)
    }

    /// Insert a typed character at the cursor in Insert mode.
    fn on_input_insert_mode(&mut self, c: char) -> (out: EventOutcome)
        requires
            old(self).wf(),
        ensures
            final(self).wf(),
            insert_char_rel(with_data_changed(*old(self)), c, *final(self)),
            out == EventOutcome::Consumed,
    {
        self.data_changed = true;
        let off = self.cursor_char_offset();
        self.buffer.insert_char(self.row, off, c);
        let line2 = self.buffer.line_at(self.row);
        let s2 = segments_of_line(line2);
        self.segs = s2;
        let gc2 = self.segs.len();
        self.col = if self.col < gc2 {
            self.col + 1
        } else {
            gc2
        };
        EventOutcome::Consumed
    }

    /// Backward delete at the cursor.
    fn on_backspace(&mut self)
        requires
            old(self).wf(),
        ensures
            final(self).wf(),
            backspace_rel(*old(self), *final(self)),
    {
        let ghost segsd = self.segs.deep_view();
        let ghost l = self.cur_line();
        if self.col == 0 {
            if self.buffer.line_count() == 1 || self.row == 0 {
                return ;
            }
            let prev_line = self.buffer.line_at(self.row - 1);
            let prev_segs = segments_of_line(prev_line);
            let prev_gc = prev_segs.len();
            self.buffer.merge_with_previous(self.row);
            self.row = self.row - 1;
            self.col = prev_gc;
            self.refresh_cache_and_clamp();
        } else {
            let line = self.buffer.line_at(self.row);
            let total = line.len();
            proof {
                assert(segsd.flatten() == l);
                assert(total == l.len());
            }
            let start = prefix_char_count(&self.segs, self.col - 1);
            let count = self.segs[self.col - 1].len();
            proof {
                lemma_segment_span(segsd, self.col - 1);
                lemma_remove_segment(segsd, self.col - 1);
                assert(count == segsd[self.col - 1].len());
                assert(start + count <= l.len());
                assert(l.subrange(0, start as int) =~= segsd.take(self.col - 1).flatten());
                assert(l.subrange(start + count, l.len() as int) =~= segsd.skip(
                    self.col as int,
                ).flatten());
            }
            self.buffer.remove_chars(self.row, start, count);
            self.col = self.col - 1;
            self.refresh_cache_and_clamp();
        }
    }

    /// Split the current line at the cursor.
    fn on_newline(&mut self)
        requires
            old(self).wf(),
        ensures
            final(self).wf(),
            newline_rel(*old(self), *final(self)),
    {
        let n = self.buffer.line_count();
        proof {
            assert(self.row < n);
        }
        let off = self.cursor_char_offset();
        self.buffer.split_line(self.row, off);
        self.row = self.row + 1;
        self.col = 0;
        self.refresh_cache_and_clamp();
    }

    /// Insert a four-space run at the cursor.
    fn on_tab(&mut self)
        requires
            old(self).wf(),
        ensures
            final(self).wf(),
            tab_rel(*old(self), *final(self)),
    {
        let ghost l = self.cur_line();
        let off = self.cursor_char_offset();
        self.buffer.insert_char(self.row, off, ' ');
        self.buffer.insert_char(self.row, off, ' ');
        self.buffer.insert_char(self.row, off, ' ');
        self.buffer.insert_char(self.row, off, ' ');
        proof {
            assert(self.buffer@[self.row as int] =~= l.take(off as int) + seq![' ', ' ', ' ', ' ']
                + l.skip(off as int));
            assert(self.buffer@ =~~= old(self).buffer@.update(self.row as int, l.take(off as int)
                + seq![' ', ' ', ' ', ' '] + l.skip(off as int)));
        }
        let line2 = self.buffer.line_at(self.row);
        let s2 = segments_of_line(line2);
        self.segs = s2;
        let gc2 = self.segs.len();
        self.col = if gc2 >= 4 && self.col <= gc2 - 4 {
            self.col + 4
        } else {
            gc2
        };
    }

    /// Delete the current line as the two-keystroke command demands.
    fn delete_current_line(&mut self)
        requires
            old(self).wf(),
        ensures
            final(self).wf(),
            delete_line_rel(*old(self), *final(self)),
    {
        let n = self.buffer.line_count();
        self.buffer.delete_line(self.row);
        self.pending = None;
        self.data_changed = true;
        if n > 1 && self.row >= n - 1 {
            self.row = self.row - 1;
        }
        self.refresh_cache_and_clamp();
    }

    /// Normal-mode character dispatch.
    fn on_input_normal_mode(&mut self, c: char) -> (out: EventOutcome)
        requires
            old(self).wf(),
        ensures
            final(self).wf(),
            normal_char_rel(*old(self), c, *final(self), out),
    {
        let pending_d = match self.pending {
            Some(p) => p == 'd',
            None => false,
        };
        if c == 'i' {
            self.mode = Mode::Insert;
            self.data_changed = true;
            EventOutcome::Consumed
        } else if c == 'd' && pending_d {
            self.delete_current_line();
            EventOutcome::Consumed
        } else if c == 's' {
            EventOutcome::SaveRequested
        } else if c == 'x' {
            EventOutcome::QuitRequested
        } else {
            self.pending = Some('d');
            EventOutcome::Ignored
        }
    }

    /// Keys handled alike in both modes.
    fn on_key_shared(&mut self, k: NamedKey) -> (out: EventOutcome)
        requires
            old(self).wf(),
        ensures
            final(self).wf(),
            shared_key_rel(*old(self), k, *final(self), out),
    {
        match k {
            NamedKey::Up => {
                self.data_changed = true;
                self.move_cursor_up();
                EventOutcome::Consumed
            },
            NamedKey::Down => {
                self.data_changed = true;
                self.move_cursor_down();
                EventOutcome::Consumed
            },
            NamedKey::Right => {
                self.data_changed = true;
                self.move_cursor_right();
                EventOutcome::Consumed
            },
            NamedKey::Left => {
                self.data_changed = true;
                self.move_cursor_left();
                EventOutcome::Consumed
            },
            NamedKey::Home => {
                self.col = 0;
                self.data_changed = true;
                EventOutcome::Consumed
            },
            NamedKey::End => {
                self.col = self.segs.len();
                self.data_changed = true;
                EventOutcome::Consumed
            },
            _ => EventOutcome::Ignored,
        }
    }

    /// Insert-mode key dispatch.
    fn on_key_insert_mode(&mut self, k: NamedKey) -> (out: EventOutcome)
        requires
            old(self).wf(),
        ensures
            final(self).wf(),
            insert_key_rel(*old(self), k, *final(self), out),
    {
        match k {
            NamedKey::Backspace => {
                self.data_changed = true;
                self.on_backspace();
                EventOutcome::Consumed
            },
            NamedKey::Enter => {
                self.data_changed = true;
                self.on_newline();
                EventOutcome::Consumed
            },
            NamedKey::Tab => {
                self.data_changed = true;
                self.on_tab();
                EventOutcome::Consumed
            },
            NamedKey::Escape => {
                self.mode = Mode::Normal;
                self.data_changed = true;
                EventOutcome::Consumed
            },
            _ => self.on_key_shared(k),
        }
    }

    /// Handle one decoded input event from the host.
    pub fn on_event(&mut self, ev: InputEvent) -> (out: EventOutcome)
        requires
            old(self).wf(),
        ensures
            final(self).wf(),
            event_rel(*old(self), ev, *final(self), out),
    {
        match ev {
            InputEvent::Resize => {
                self.resize_changed = true;
                EventOutcome::Consumed
            },
            InputEvent::Character(c) => {
                self.status = None;
                match self.mode {
                    Mode::Insert => self.on_input_insert_mode(c),
                    Mode::Normal => self.on_input_normal_mode(c),
                }
            },
            InputEvent::Named(k) => {
                self.status = None;
                match self.mode {
                    Mode::Insert => self.on_key_insert_mode(k),
                    Mode::Normal => self.on_key_shared(k),
                }
            },
        }
    }

    /// Record the viewport size of a layout pass and lower both dirty flags.
    pub fn on_layout(&mut self, width: usize, height: usize)
        requires
            old(self).wf(),
        ensures
            final(self).wf(),
            (*final(self) == Editor {
                view_width: width,
                view_height: height,
                data_changed: false,
                resize_changed: false,
                ..*old(self)
            }),
    {
        self.view_width = width;
        self.view_height = height;
        self.data_changed = false;
        self.resize_changed = false;
    }

    /// Whether the host needs a new layout pass.
    pub fn needs_relayout(&self) -> (r: bool)
        ensures
            r == (self.data_changed || self.resize_changed),
    {
        self.data_changed || self.resize_changed
    }

    /// Record whether the host's save succeeded; the status message says so.
    pub fn report_save_result(&mut self, ok: bool)
        requires
            old(self).wf(),
        ensures
            final(self).wf(),
            (*final(self) == Editor {
                status: if ok {
                    Some(SaveStatus::Saved)
                } else {
                    Some(SaveStatus::SaveFailed)
                },
                data_changed: true,
                ..*old(self)
            }),
    {
        self.status = if ok {
            Some(SaveStatus::Saved)
        } else {
            Some(SaveStatus::SaveFailed)
        };
        self.data_changed = true;
    }

    /// The whole document, for the host to persist.
    pub fn serialize(&self) -> (out: String)
        ensures
            out@ == join_lines(self.buffer@),
    {
        self.buffer.serialize()
    }

    /// How many lines the buffer holds.
    pub fn line_count(&self) -> (n: usize)
        ensures
            n == self.buffer@.len(),
    {
        self.buffer.line_count()
    }

    /// The text of line `row`, for the host to render.
    pub fn line_string(&self, row: usize) -> (s: String)
        requires
            (row as int) < self.buffer@.len(),
        ensures
            s@ == self.buffer@[row as int],
    {
        string_from_chars(self.buffer.line_at(row))
    }

    /// The grapheme cluster under the cursor, or nothing when the caret sits
    /// past the last glyph.
    pub fn cursor_grapheme(&self) -> (g: Option<String>)
        requires
            self.wf(),
        ensures
            (g is Some) <==> (self.col as int) < grapheme_count(self.cur_line()),
            (g matches Some(s) ==> s@ == grapheme_segments_of(self.cur_line())[self.col as int]),
    {
        if self.col < self.segs.len() {
            Some(string_from_chars(&self.segs[self.col]))
        } else {
            None
        }
    }

    /// The lines a viewport of the given height shows, starting at the
    /// scroll index and stopping at the buffer's end.
    pub fn visible_lines(&self, height: usize) -> (ls: Vec<String>)
        ensures
            ls.deep_view() == visible_slice(self.buffer@, self.scroll_index as int, height as int),
    {
        let n = self.buffer.line_count();
        let start = if self.scroll_index < n {
            self.scroll_index
        } else {
            n
        };
        let remaining = n - start;
        let span = if height < remaining {
            height
        } else {
            remaining
        };
        let end = start + span;
        let mut ls: Vec<String> = Vec::new();
        let mut i = start;
        proof {
            assert(ls.deep_view() =~~= self.buffer@.subrange(start as int, start as int));
        }
        while i < end
            invariant
                start <= i <= end,
                end <= n,
                n == self.buffer@.len(),
                ls.deep_view() == self.buffer@.subrange(start as int, i as int),
            decreases end - i,
        {
            let s = string_from_chars(self.buffer.line_at(i));
            let ghost prev_dv = ls.deep_view();
            let ghost s_view = s@;
            ls.push(s);
            proof {
                assert(ls.deep_view() =~~= prev_dv.push(s_view));
                assert(prev_dv.push(s_view) =~~= self.buffer@.subrange(start as int, i + 1));
            }
            i = i + 1;
        }
        proof {
            assert(ls.deep_view() =~~= visible_slice(
                self.buffer@,
                self.scroll_index as int,
                height as int,
            ));
        }
        ls
    }
}

/// The slice of the buffer a viewport shows: up to `height` lines starting
/// at the scroll index, clipped to the buffer.
pub open spec fn visible_slice(buf: Seq<Seq<char>>, scroll: int, height: int) -> Seq<Seq<char>> {
    let start = if scroll < buf.len() {
        scroll
    } else {
        buf.len() as int
    };
    let end = if scroll + height < buf.len() {
        scroll + height
    } else {
        buf.len() as int
    };
    buf.subrange(start, end)
}

/// For every well-formed editor the buffer holds at least one line and the
/// cursor lies within its bounds: the row addresses a line and the column is
/// at most that line's grapheme count.
pub proof fn lemma_editor_bounds(e: Editor)
    requires
        e.wf(),
    ensures
        e.buffer@.len() >= 1,
        (e.row as int) < e.buffer@.len(),
        e.col <= grapheme_count(e.buffer@[e.row as int]),
{
}

/// Deleting the current line never leaves the buffer empty, however often
/// the command repeats.
pub proof fn lemma_delete_line_keeps_a_line(pre: Editor, post: Editor)
    requires
        pre.wf(),
        delete_line_rel(pre, post),
    ensures
        post.buffer@.len() >= 1,
{
}

/// Escape while already in Normal mode changes neither the mode, nor the
/// buffer, nor the cursor, and the event is not consumed.
pub proof fn lemma_escape_normal_noop(pre: Editor, post: Editor, out: EventOutcome)
    requires
        pre.mode == Mode::Normal,
        event_rel(pre, InputEvent::Named(NamedKey::Escape), post, out),
    ensures
        post.mode == Mode::Normal,
        post.buffer == pre.buffer,
        post.row == pre.row,
        post.col == pre.col,
        post.pending == pre.pending,
        out == EventOutcome::Ignored,
{
}

/// Backspace at the buffer's very first position is a no-op.
pub proof fn lemma_backspace_at_origin_noop(pre: Editor, post: Editor)
    requires
        pre.col == 0,
        pre.row == 0,
        backspace_rel(pre, post),
    ensures
        post == pre,
{
}

/// Backspace with the cursor inside a line removes the grapheme cluster
/// before it whole — never a partial code point — and leaves every other
/// line alone.
pub proof fn lemma_backspace_removes_whole_cluster(pre: Editor, post: Editor)
    requires
        pre.wf(),
        pre.col > 0,
        backspace_rel(pre, post),
    ensures
        post.buffer@[pre.row as int] == grapheme_segments_of(pre.cur_line()).remove(
            pre.col - 1,
        ).flatten(),
        post.buffer@.len() == pre.buffer@.len(),
        post.row == pre.row,
        forall|i: int|
            0 <= i < pre.buffer@.len() && i != pre.row as int ==> post.buffer@[i]
                == pre.buffer@[i],
{
}

/// Backspace at the start of a later line merges it into the previous one
/// and puts the cursor on the former boundary: the previous line's grapheme
/// count, clamped to the merged line's.
pub proof fn lemma_backspace_merges_lines(pre: Editor, post: Editor)
    requires
        pre.wf(),
        pre.col == 0,
        pre.row > 0,
        pre.buffer@.len() > 1,
        backspace_rel(pre, post),
    ensures
        post.buffer@ == pre.buffer@.update(
            pre.row - 1,
            pre.buffer@[pre.row - 1] + pre.buffer@[pre.row as int],
        ).remove(pre.row as int),
        post.buffer@.len() == pre.buffer@.len() - 1,
        post.row == pre.row - 1,
        post.col == clamp_to(
            grapheme_count(pre.buffer@[pre.row - 1]) as int,
            grapheme_count(pre.buffer@[pre.row - 1] + pre.buffer@[pre.row as int]) as int,
        ),
{
}

} // verus!
