use crate::log::{LogView, UI};
use vstd::prelude::*;

verus! {

/// Rows at the bottom of the viewport kept out of the message area: the
/// status line (second-to-last row) and the input row (last row).
pub const RESERVED_ROWS: u16 = 2;

/// Why a frame could not be laid out.
#[derive(Debug, Clone, Copy, PartialEq, Eq, Structural)]
pub enum RenderError {
    /// The viewport size could not be determined.
    TerminalUnavailable,
    /// The viewport has fewer than `RESERVED_ROWS` rows.
    ViewportTooSmall,
}

/// One message written at the start of a viewport row.
#[derive(Debug, Clone, PartialEq, Eq)]
pub struct Line {
    pub row: u16,
    pub text: String,
}

/// What one redraw writes: rows `0..cleared_rows` are cleared, the status
/// line goes on `status_row`, then each of `lines` on its row.
#[derive(Debug, Clone, PartialEq, Eq)]
pub struct Frame {
    pub cleared_rows: u16,
    pub status_row: u16,
    pub status: String,
    pub lines: Vec<Line>,
}

/// A frame as plain values; each line is a row and its text.
pub struct FrameView {
    pub cleared_rows: u16,
    pub status_row: u16,
    pub status: Seq<char>,
    pub lines: Seq<(u16, Seq<char>)>,
}

impl View for Frame {
    type V = FrameView;

    open spec fn view(&self) -> FrameView {
        FrameView {
            cleared_rows: self.cleared_rows,
            status_row: self.status_row,
            status: self.status@,
            lines: self.lines@.map_values(|l: Line| (l.row, l.text@)),
        }
    }
}

/// How many messages fit on a viewport of `rows` rows: as many as there are
/// rows above the reserved ones, or fewer if the log is shorter.
pub open spec fn shown(count: nat, rows: u16) -> nat {
    let free = (rows - RESERVED_ROWS) as nat;
    if count < free {
        count
    } else {
        free
    }
}

/// The frame for log `v` on `rows` rows: everything above the input row is
/// cleared, the status line sits just above the input row, and message `i`
/// (newest first) sits `i + 1` rows above the status line.
pub open spec fn frame_for(v: LogView, rows: u16) -> FrameView {
    FrameView {
        cleared_rows: (rows - 1) as u16,
        status_row: (rows - 2) as u16,
        status: v.status,
        lines: Seq::new(
            shown(v.messages.len(), rows),
            |i: int| (((rows - 3) - i) as u16, v.messages[i]),
        ),
    }
}

/// The outcome of rendering `v` on a viewport of `viewport_rows` rows, `None`
/// when the size is unknown.
pub open spec fn render_spec(v: LogView, viewport_rows: Option<u16>) -> Result<
    FrameView,
    RenderError,
> {
    match viewport_rows {
        None => Err(RenderError::TerminalUnavailable),
        Some(rows) => if rows < RESERVED_ROWS {
            Err(RenderError::ViewportTooSmall)
        } else {
            Ok(frame_for(v, rows))
        },
    }
}

/// Relies on termsize::get: the size of the terminal on standard output, or
/// `None` when standard output is no terminal or its size cannot be read.
/// Nothing is promised of the number of rows.
#[verifier::external_body]
fn viewport_rows() -> (r: Option<u16>) {
    termsize::get().map(|s| s.rows)
}

impl UI {
    /// Lays the log out on a viewport of `viewport_rows` rows (`None` when the
    /// size is unknown).
    pub fn render(&self, viewport_rows: Option<u16>) -> (r: Result<Frame, RenderError>)
        ensures
            match render_spec(self@, viewport_rows) {
                Ok(fv) => r is Ok && r->Ok_0@ == fv,
                Err(e) => r is Err && r->Err_0 == e,
            },
    {
        let rows = match viewport_rows {
            None => return Err(RenderError::TerminalUnavailable),
            Some(rows) => rows,
        };
        if rows < RESERVED_ROWS {
            return Err(RenderError::ViewportTooSmall);
        }
        let free = rows - RESERVED_ROWS;
        let count = self.len();
        let n: usize = if count < free as usize {
            count
        } else {
            free as usize
        };
        let ghost target = frame_for(self@, rows);
        let mut lines: Vec<Line> = Vec::new();
        let mut i: usize = 0;
        while i < n
            invariant
                target == frame_for(self@, rows),
                rows >= RESERVED_ROWS,
                n == shown(self@.messages.len(), rows),
                n == target.lines.len(),
                n <= count,
                n <= free,
                free == rows - RESERVED_ROWS,
                count == self@.messages.len(),
                i <= n,
                lines@.map_values(|l: Line| (l.row, l.text@)) =~= target.lines.take(i as int),
            decreases n - i,
        {
            let text = self.get(i).unwrap().clone();
            let ghost prev = lines@;
            lines.push(Line { row: rows - 3 - i as u16, text });
            assert(lines@.map_values(|l: Line| (l.row, l.text@)) =~= prev.map_values(
                |l: Line| (l.row, l.text@),
            ).push(target.lines[i as int]));
            i = i + 1;
        }
        assert(target.lines.take(i as int) =~= target.lines);
        Ok(Frame { cleared_rows: rows - 1, status_row: rows - 2, status: self.info().clone(), lines })
    }

    /// Lays the log out on the current terminal viewport.
    pub fn draw(&self) -> (r: Result<Frame, RenderError>)
        ensures
            r is Ok ==> exists|rows: u16|
                rows >= RESERVED_ROWS && #[trigger] frame_for(self@, rows) == r->Ok_0@,
    {
        let rows = viewport_rows();
        let r = self.render(rows);
        proof {
            if r is Ok {
                let x = rows->Some_0;
                assert(frame_for(self@, x) == r->Ok_0@);
            }
        }
        r
    }

    /// Appends `msg` as the newest message, then lays the log out on the
    /// current viewport; `None` when that fails, which leaves the log as
    /// `push` left it.
    pub fn push_draw(&mut self, msg: String) -> (r: Option<Frame>)
        ensures
            final(self)@ == old(self)@.push(msg@),
            old(self).wf() ==> final(self).wf(),
            r is Some ==> exists|rows: u16|
                rows >= RESERVED_ROWS && #[trigger] frame_for(final(self)@, rows) == r->Some_0@,
    {
        self.push(msg);
        match self.draw() {
            Ok(f) => Some(f),
            Err(_) => None,
        }
    }
}

/// A log with no messages renders on any viewport of at least
/// `RESERVED_ROWS` rows, and the frame shows its status line.
pub proof fn lemma_empty_log_shows_status(v: LogView, rows: u16)
    requires
        v.messages.len() == 0,
        rows >= RESERVED_ROWS,
    ensures
        render_spec(v, Some(rows)) is Ok,
        render_spec(v, Some(rows))->Ok_0.status == v.status,
        render_spec(v, Some(rows))->Ok_0.status_row == rows - 2,
        render_spec(v, Some(rows))->Ok_0.lines.len() == 0,
{
}

/// With more messages than free rows, the frame shows exactly the newest
/// `rows - RESERVED_ROWS` of them, the newest just above the status line and
/// each older one a row higher; the log itself is left as it was.
pub proof fn lemma_overfull_log_shows_newest(v: LogView, rows: u16)
    requires
        rows >= RESERVED_ROWS,
        v.messages.len() > rows - RESERVED_ROWS,
    ensures
        render_spec(v, Some(rows)) is Ok,
        render_spec(v, Some(rows))->Ok_0.lines.len() == rows - RESERVED_ROWS,
        forall|i: int|
            0 <= i < rows - RESERVED_ROWS ==> #[trigger] render_spec(v, Some(rows))->Ok_0.lines[i]
                == (((rows - 3) - i) as u16, v.messages[i]),
{
}

} // verus!
