//! A drawn input (its lines and cursor position) and the renderer that puts
//! successive drawings on a terminal, each replacing the previous one.

use vstd::prelude::*;

use crate::input::layout::{render_fits, render_model, sat_sub};
use crate::input::state::{lines_view, SlashInput};
use crate::text::{
    decimal, lemma_visible_from_bound, min_nat, push_decimal, push_str, string_push,
    visible_text_width, visible_width, ESC,
};

verus! {

broadcast use vstd::string::group_string_axioms;

/// The lines of a drawing and the cursor position within them.
#[derive(Debug, Clone, PartialEq, Eq)]
pub struct InputView {
    pub lines: Vec<String>,
    /// Line of the cursor.
    pub cursor_row: usize,
    /// Display column of the cursor within its line.
    pub cursor_column: usize,
}

/// The mathematical value of an [`InputView`].
pub struct ViewModel {
    pub lines: Seq<Seq<char>>,
    pub cursor_row: nat,
    pub cursor_column: nat,
}

impl View for InputView {
    type V = ViewModel;

    open spec fn view(&self) -> ViewModel {
        ViewModel {
            lines: lines_view(self.lines@),
            cursor_row: self.cursor_row as nat,
            cursor_column: self.cursor_column as nat,
        }
    }
}

/// The lines joined, with `sep` between two consecutive lines.
pub open spec fn join(lines: Seq<Seq<char>>, sep: Seq<char>) -> Seq<char>
    decreases lines.len(),
{
    if lines.len() == 0 {
        Seq::empty()
    } else if lines.len() == 1 {
        lines[0]
    } else {
        join(lines.drop_last(), sep) + sep + lines.last()
    }
}

/// Appends the lines of `lines` to `s`, with `sep` between two consecutive lines.
fn push_joined(s: &mut String, lines: &Vec<String>, sep: &str)
    ensures
        final(s)@ == old(s)@ + join(lines_view(lines@), sep@),
{
    let ghost all = lines_view(lines@);
    let n = lines.len();
    let mut i: usize = 0;
    while i < n
        invariant
            n == lines@.len(),
            all == lines_view(lines@),
            i <= n,
            s@ == old(s)@ + join(all.take(i as int), sep@),
        decreases n - i,
    {
        proof {
            assert(all.take(i + 1).drop_last() =~= all.take(i as int));
        }
        if i > 0 {
            push_str(s, sep);
        }
        push_str(s, lines[i].as_str());
        proof {
            if i == 0 {
                assert(all.take(1) =~= seq![all[0]]);
                assert(s@ =~= old(s)@ + join(all.take(1), sep@));
            } else {
                assert(s@ =~= old(s)@ + join(all.take(i + 1), sep@));
            }
        }
        i = i + 1;
    }
    assert(all.take(n as int) =~= all);
}

impl InputView {
    /// The lines joined by newlines.
    pub fn as_string(&self) -> (s: String)
        ensures
            s@ == join(self@.lines, seq!['\n']),
    {
        let mut s = String::new();
        push_joined(&mut s, &self.lines, "\n");
        proof {
            reveal_strlit("\n");
            assert("\n"@ =~= seq!['\n']);
        }
        assert(s@ =~= join(self@.lines, seq!['\n']));
        s
    }
}

/// Puts drawings on a terminal, remembering how many rows the last one took
/// and on which of them it left the cursor.
#[derive(Debug, Clone)]
pub struct InputRenderer {
    rendered_rows: usize,
    cursor_row: usize,
    terminal_columns: usize,
}

/// The mathematical value of an [`InputRenderer`].
pub struct RendererModel {
    /// Terminal rows taken by the last drawing (0 when nothing is drawn).
    pub rendered_rows: nat,
    /// Row of the cursor within the last drawing.
    pub cursor_row: nat,
    /// Width of the terminal, at least one column.
    pub terminal_columns: nat,
}

impl View for InputRenderer {
    type V = RendererModel;

    closed spec fn view(&self) -> RendererModel {
        RendererModel {
            rendered_rows: self.rendered_rows as nat,
            cursor_row: self.cursor_row as nat,
            terminal_columns: self.terminal_columns as nat,
        }
    }
}

/// A control sequence `ESC [ body final`.
pub open spec fn csi(body: Seq<char>, final_char: char) -> Seq<char> {
    seq![ESC, '['] + body + seq![final_char]
}

/// Erases the screen below the cursor and shows the cursor.
pub open spec fn erase_below_and_show() -> Seq<char> {
    csi(seq!['0'], 'J') + show_cursor()
}

/// Shows the cursor.
pub open spec fn show_cursor() -> Seq<char> {
    csi(seq!['?', '2', '5'], 'h')
}

/// Clearing the last drawing: back to the first column, up to its first row,
/// erase everything below; nothing to do when nothing is drawn.
pub open spec fn clear_step(m: RendererModel) -> (RendererModel, Seq<char>) {
    if m.rendered_rows == 0 {
        (m, Seq::empty())
    } else {
        (
            RendererModel { rendered_rows: 0, cursor_row: 0, ..m },
            seq!['\r'] + (if m.cursor_row > 0 {
                csi(decimal(m.cursor_row), 'A')
            } else {
                Seq::empty()
            }) + erase_below_and_show(),
        )
    }
}

/// `a / b` rounded up (`b > 0`).
pub open spec fn div_ceil(a: nat, b: nat) -> nat {
    if a % b == 0 {
        a / b
    } else {
        a / b + 1
    }
}

/// Terminal rows a line takes on a terminal `columns` wide: its visible width
/// (at least one column) divided by the width, rounded up.
pub open spec fn line_rows(line: Seq<char>, columns: nat) -> nat {
    let w = visible_width(line);
    div_ceil(if w < 1 {
        1
    } else {
        w
    }, if columns < 1 {
        1
    } else {
        columns
    })
}

/// Terminal rows taken by `lines`.
pub open spec fn rows_total(lines: Seq<Seq<char>>, columns: nat) -> nat
    decreases lines.len(),
{
    if lines.len() == 0 {
        0
    } else {
        rows_total(lines.drop_last(), columns) + line_rows(lines.last(), columns)
    }
}

/// The terminal row of the cursor of `v`: the rows of the lines above it plus
/// the rows that its column wraps over.
pub open spec fn cursor_display_row(v: ViewModel, columns: nat) -> nat {
    rows_total(v.lines.take(min_nat(v.cursor_row, v.lines.len()) as int), columns)
        + v.cursor_column / columns
}

/// The renderer after the drawing `v` is on the terminal: it took all the
/// rows of `v`, and left the cursor on the cursor's row.
pub open spec fn drawn(m: RendererModel, v: ViewModel) -> RendererModel {
    RendererModel {
        rendered_rows: rows_total(v.lines, m.terminal_columns),
        cursor_row: cursor_display_row(v, m.terminal_columns),
        terminal_columns: m.terminal_columns,
    }
}

/// The text that puts `v` on a cleared terminal: the lines separated by
/// `\r\n`, then up from the last row to the cursor row and right to the cursor
/// column, then show the cursor.
pub open spec fn drawing_text(m: RendererModel, v: ViewModel) -> Seq<char> {
    let columns = m.terminal_columns;
    let total = rows_total(v.lines, columns);
    let row = cursor_display_row(v, columns);
    let column = v.cursor_column % columns;
    let lines_up = sat_sub(total as int, row + 1 as int);
    join(v.lines, seq!['\r', '\n']) + (if lines_up > 0 {
        csi(decimal(lines_up), 'A')
    } else {
        Seq::empty()
    }) + seq!['\r'] + (if column > 0 {
        csi(decimal(column), 'C')
    } else {
        Seq::empty()
    }) + show_cursor()
}

/// Putting the drawing `v` on the terminal: clear the last drawing, then draw
/// `v` (see [`drawing_text`]).
pub open spec fn render_view_step(m: RendererModel, v: ViewModel) -> (RendererModel, Seq<char>) {
    (drawn(m, v), clear_step(m).1 + drawing_text(m, v))
}

/// The row counts of the drawing `v` stay within `usize`.
pub open spec fn view_fits(m: RendererModel, v: ViewModel) -> bool {
    &&& rows_total(v.lines, m.terminal_columns) <= usize::MAX
    &&& cursor_display_row(v, m.terminal_columns) + 1 <= usize::MAX
}

/// Terminal rows `line` takes on a terminal `terminal_columns` wide.
pub fn display_rows(line: &str, terminal_columns: usize) -> (r: usize)
    ensures
        r == line_rows(line@, terminal_columns as nat),
{
    let width = visible_text_width(line);
    let width = if width < 1 {
        1
    } else {
        width
    };
    let columns = if terminal_columns < 1 {
        1
    } else {
        terminal_columns
    };
    if columns == 1 {
        assert(width % 1 == 0 && width / 1 == width) by (nonlinear_arith);
        width
    } else if width % columns == 0 {
        width / columns
    } else {
        assert(width / columns < width) by (nonlinear_arith)
            requires
                columns >= 2,
                width >= 1,
        ;
        width / columns + 1
    }
}

/// Appends `ESC [ n final` to `s`.
fn push_csi_number(s: &mut String, n: usize, final_char: char)
    ensures
        final(s)@ == old(s)@ + csi(decimal(n as nat), final_char),
{
    string_push(s, ESC);
    string_push(s, '[');
    push_decimal(s, n as u64);
    string_push(s, final_char);
    assert(s@ =~= old(s)@ + csi(decimal(n as nat), final_char));
}

/// Appends the escape that erases below the cursor and shows it.
fn push_erase_below_and_show(s: &mut String)
    ensures
        final(s)@ == old(s)@ + erase_below_and_show(),
{
    string_push(s, ESC);
    string_push(s, '[');
    string_push(s, '0');
    string_push(s, 'J');
    push_show_cursor(s);
    assert(s@ =~= old(s)@ + erase_below_and_show());
}

/// Appends the escape that shows the cursor.
fn push_show_cursor(s: &mut String)
    ensures
        final(s)@ == old(s)@ + show_cursor(),
{
    string_push(s, ESC);
    string_push(s, '[');
    string_push(s, '?');
    string_push(s, '2');
    string_push(s, '5');
    string_push(s, 'h');
    assert(s@ =~= old(s)@ + show_cursor());
}

impl InputRenderer {
    /// The invariant of the renderer: the terminal is at least one column wide.
    pub open spec fn wf(&self) -> bool {
        self@.terminal_columns >= 1
    }

    /// A renderer for a terminal `terminal_columns` wide (at least one column)
    /// that has drawn nothing yet.
    pub fn new(terminal_columns: usize) -> (r: Self)
        ensures
            r@ == (RendererModel {
                rendered_rows: 0,
                cursor_row: 0,
                terminal_columns: if terminal_columns < 1 {
                    1
                } else {
                    terminal_columns as nat
                },
            }),
            r.wf(),
    {
        InputRenderer {
            rendered_rows: 0,
            cursor_row: 0,
            terminal_columns: if terminal_columns < 1 {
                1
            } else {
                terminal_columns
            },
        }
    }

    /// The text that draws `input` on the terminal in place of the last drawing.
    pub fn render(&mut self, input: &SlashInput) -> (out: String)
        requires
            old(self).wf(),
            input.wf(),
            render_fits(input@, Some(old(self)@.terminal_columns as usize)),
            view_fits(old(self)@, render_model(input@, Some(old(self)@.terminal_columns as usize))),
        ensures
            (final(self)@, out@) == render_view_step(
                old(self)@,
                render_model(input@, Some(old(self)@.terminal_columns as usize)),
            ),
            final(self).wf(),
    {
        let view = input.render_with_terminal_width(self.terminal_columns);
        self.render_view(&view)
    }

    /// The text that draws `view` on the terminal in place of the last drawing
    /// (see [`render_view_step`]). The renderer takes the state of a finished
    /// drawing at once; a caller whose writes can fail writes
    /// [`clear_text`](Self::clear_text) and [`drawing_text`](Self::drawing_text)
    /// in turn instead, and moves the state on with
    /// [`commit_clear`](Self::commit_clear) and
    /// [`commit_drawing`](Self::commit_drawing) only after each is written.
    pub fn render_view(&mut self, view: &InputView) -> (out: String)
        requires
            old(self).wf(),
            view_fits(old(self)@, view@),
        ensures
            (final(self)@, out@) == render_view_step(old(self)@, view@),
            final(self).wf(),
    {
        let mut out = self.clear();
        let drawing = self.drawing_text(view);
        push_str(&mut out, drawing.as_str());
        self.commit_drawing(view);
        out
    }

    /// The rows taken by `view` and the row of its cursor.
    fn measure(&self, view: &InputView) -> (r: (usize, usize))
        requires
            self.wf(),
            view_fits(self@, view@),
        ensures
            r.0 == drawn(self@, view@).rendered_rows,
            r.1 == drawn(self@, view@).cursor_row,
    {
        let ghost v = view@;
        let columns = self.terminal_columns;
        let n = view.lines.len();
        let ghost lines = v.lines;
        let mut total: usize = 0;
        let mut above: usize = 0;
        let mut i: usize = 0;
        while i < n
            invariant
                n == lines.len(),
                lines == lines_view(view.lines@),
                columns == self@.terminal_columns,
                columns >= 1,
                i <= n,
                total == rows_total(lines.take(i as int), columns as nat),
                above == rows_total(lines.take(min_nat(i as nat, v.cursor_row) as int), columns as nat),
                above <= total,
                v == view@,
                rows_total(lines, columns as nat) <= usize::MAX,
            decreases n - i,
        {
            proof {
                assert(lines.take(i + 1).drop_last() =~= lines.take(i as int));
                lemma_rows_total_prefix(lines, i as int + 1, columns as nat);
            }
            assert(lines[i as int] == view.lines@[i as int]@);
            let rows = display_rows(view.lines[i].as_str(), columns);
            total = total + rows;
            if i < view.cursor_row {
                above = above + rows;
            }
            i = i + 1;
        }
        assert(lines.take(n as int) =~= lines);
        assert(lines.take(min_nat(n as nat, v.cursor_row) as int) =~= lines.take(
            min_nat(v.cursor_row, lines.len()) as int,
        ));
        (total, above + view.cursor_column / columns)
    }

    /// The text that puts `view` on a terminal cleared of the last drawing
    /// (see [`drawing_text`]); the renderer does not change.
    pub fn drawing_text(&self, view: &InputView) -> (out: String)
        requires
            self.wf(),
            view_fits(self@, view@),
        ensures
            out@ == drawing_text(self@, view@),
    {
        let ghost m = self@;
        let ghost v = view@;
        let columns = self.terminal_columns;
        let mut out = String::new();
        push_joined(&mut out, &view.lines, "\r\n");
        proof {
            reveal_strlit("\r\n");
            assert("\r\n"@ =~= seq!['\r', '\n']);
        }
        let (total, row) = self.measure(view);
        let column = view.cursor_column % columns;
        let lines_up = if total >= row + 1 {
            total - (row + 1)
        } else {
            0
        };
        if lines_up > 0 {
            push_csi_number(&mut out, lines_up, 'A');
        }
        string_push(&mut out, '\r');
        if column > 0 {
            push_csi_number(&mut out, column, 'C');
        }
        push_show_cursor(&mut out);
        assert(out@ =~= drawing_text(m, v));
        out
    }

    /// Records that `view` is on the terminal, once its text is written.
    pub fn commit_drawing(&mut self, view: &InputView)
        requires
            old(self).wf(),
            view_fits(old(self)@, view@),
        ensures
            final(self)@ == drawn(old(self)@, view@),
            final(self).wf(),
    {
        let (total, row) = self.measure(view);
        self.rendered_rows = total;
        self.cursor_row = row;
    }

    /// The text that removes the last drawing from the terminal (see
    /// [`clear_step`]); the renderer does not change.
    pub fn clear_text(&self) -> (out: String)
        ensures
            out@ == clear_step(self@).1,
    {
        let mut out = String::new();
        if self.rendered_rows == 0 {
            assert(out@ =~= Seq::<char>::empty());
            return out;
        }
        string_push(&mut out, '\r');
        if self.cursor_row > 0 {
            push_csi_number(&mut out, self.cursor_row, 'A');
        }
        push_erase_below_and_show(&mut out);
        assert(out@ =~= clear_step(self@).1);
        out
    }

    /// Records that the last drawing is removed, once the clearing text is
    /// written.
    pub fn commit_clear(&mut self)
        ensures
            final(self)@ == clear_step(old(self)@).0,
    {
        if self.rendered_rows != 0 {
            self.rendered_rows = 0;
            self.cursor_row = 0;
        }
    }

    /// The text that removes the last drawing from the terminal (see
    /// [`clear_step`]). The renderer forgets the drawing at once; a caller whose
    /// write can fail uses [`clear_text`](Self::clear_text) and
    /// [`commit_clear`](Self::commit_clear) instead.
    pub fn clear(&mut self) -> (out: String)
        ensures
            (final(self)@, out@) == clear_step(old(self)@),
    {
        let out = self.clear_text();
        self.commit_clear();
        out
    }
}

/// The rows of a prefix of the lines are at most the rows of all of them.
pub proof fn lemma_rows_total_prefix(lines: Seq<Seq<char>>, k: int, columns: nat)
    requires
        0 <= k <= lines.len(),
    ensures
        rows_total(lines.take(k), columns) <= rows_total(lines, columns),
    decreases lines.len() - k,
{
    if k < lines.len() {
        lemma_rows_total_prefix(lines, k + 1, columns);
        assert(lines.take(k + 1).drop_last() =~= lines.take(k));
    } else {
        assert(lines.take(k) =~= lines);
    }
}

/// Clearing forgets the drawing, so a second clear writes nothing.
pub proof fn law_clear_twice_writes_nothing(m: RendererModel)
    ensures
        clear_step(m).0.rendered_rows == 0,
        clear_step(clear_step(m).0).1 == Seq::<char>::empty(),
        clear_step(m).0.terminal_columns == m.terminal_columns,
{
}

/// Clearing right after a drawing goes back to the first column, up over the
/// rows above the cursor, and erases everything below (when the drawing took
/// any row at all); the renderer then holds no drawing, so a further clear
/// writes nothing.
pub proof fn law_clear_after_drawing(m: RendererModel, v: ViewModel)
    ensures
        ({
            let total = rows_total(v.lines, m.terminal_columns);
            let row = cursor_display_row(v, m.terminal_columns);
            let cleared = clear_step(render_view_step(m, v).0);
            &&& cleared.1 == if total > 0 {
                seq!['\r'] + (if row > 0 {
                    csi(decimal(row), 'A')
                } else {
                    Seq::empty()
                }) + erase_below_and_show()
            } else {
                Seq::empty()
            }
            &&& cleared.0.rendered_rows == 0
            &&& cleared.0.terminal_columns == m.terminal_columns
            &&& clear_step(cleared.0).1 == Seq::<char>::empty()
        }),
{
}

/// Every line takes at least one terminal row, so a drawing takes at least
/// as many rows as it has lines.
pub proof fn law_lines_take_at_least_a_row(lines: Seq<Seq<char>>, columns: nat)
    requires
        columns >= 1,
    ensures
        rows_total(lines, columns) >= lines.len(),
    decreases lines.len(),
{
    if lines.len() > 0 {
        law_lines_take_at_least_a_row(lines.drop_last(), columns);
        let w = visible_width(lines.last());
        let a: nat = if w < 1 {
            1
        } else {
            w
        };
        assert(div_ceil(a, columns) >= 1) by (nonlinear_arith)
            requires
                a >= 1,
                columns >= 1,
        {
            if a % columns == 0 {
                assert(a >= columns);
            }
        }
    }
}

/// After a drawing, the renderer remembers the rows it took and the row of
/// its cursor, which lies within them.
pub proof fn law_render_remembers_drawing(m: RendererModel, v: ViewModel)
    requires
        m.terminal_columns >= 1,
        v.cursor_row < v.lines.len(),
        v.cursor_column < m.terminal_columns,
    ensures
        render_view_step(m, v).0.rendered_rows == rows_total(v.lines, m.terminal_columns),
        render_view_step(m, v).0.cursor_row < render_view_step(m, v).0.rendered_rows,
        render_view_step(m, v).0.terminal_columns == m.terminal_columns,
{
    let c = m.terminal_columns;
    let k = v.cursor_row as int;
    assert(v.cursor_column / c == 0) by (nonlinear_arith)
        requires
            v.cursor_column < c,
    ;
    lemma_rows_total_prefix(v.lines, k + 1, c);
    law_lines_take_at_least_a_row(v.lines.take(k + 1).drop_last(), c);
    assert(v.lines.take(k + 1).drop_last() =~= v.lines.take(k));
    law_lines_take_at_least_a_row(seq![v.lines[k]], c);
    assert(seq![v.lines[k]].drop_last() =~= Seq::<Seq<char>>::empty());
    assert(v.lines.take(k + 1).last() == v.lines[k]);
    assert(rows_total(Seq::<Seq<char>>::empty(), c) == 0);
    assert(rows_total(seq![v.lines[k]], c) == line_rows(v.lines[k], c));
    assert(line_rows(v.lines[k], c) >= 1);
    assert(rows_total(v.lines.take(k + 1), c) == rows_total(v.lines.take(k), c) + line_rows(
        v.lines[k],
        c,
    ));
    assert(min_nat(v.cursor_row, v.lines.len()) == k);
    assert(v.lines.take(k) == v.lines.take(min_nat(v.cursor_row, v.lines.len()) as int));
}

} // verus!
