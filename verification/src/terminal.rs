//! The progress display: a block of terminal lines, one slot per line, that
//! several workers rewrite independently.
//!
//! `SubTerminal` only keeps track of the line the cursor is on. Every method
//! returns the text to send to the terminal; the caller writes it out in one
//! piece while it holds whatever lock guards the display.

use crate::text::decimal;
use crossterm::cursor::MoveDown;
use crossterm::cursor::MoveToColumn;
use crossterm::cursor::MoveToPreviousLine;
use crossterm::cursor::MoveUp;
use crossterm::terminal::Clear;
use crossterm::terminal::ClearType;
use crossterm::Command;
use vstd::arithmetic::div_mod::lemma_small_mod;
use vstd::prelude::*;
use vstd::string::StringExecFns;

verus! {

/// One thing the display asks of the terminal.
pub enum Op {
    /// Cursor up by so many lines, column kept.
    Up(u16),
    /// Cursor down by so many lines, column kept.
    Down(u16),
    /// Cursor to a column of the current line; column 0 is the leftmost.
    Column(u16),
    /// Cursor up by so many lines and to the first column.
    PreviousLine(u16),
    /// Blank the line the cursor is on.
    ClearLine,
    /// Print text at the cursor.
    Text(Seq<char>),
    /// A carriage return followed by a line feed.
    ReturnFeed,
    /// A line feed.
    Feed,
}

/// The control sequence introducer followed by a decimal parameter and the
/// letter that ends the sequence.
pub open spec fn control(parameter: nat, letter: char) -> Seq<char> {
    seq!['\u{1b}', '['] + decimal(parameter).push(letter)
}

/// The characters that carry out `op` on an ANSI terminal.
pub open spec fn encoding(op: Op) -> Seq<char> {
    match op {
        Op::Up(lines) => control(lines as nat, 'A'),
        Op::Down(lines) => control(lines as nat, 'B'),
        Op::Column(column) => control((column + 1) as nat, 'G'),
        Op::PreviousLine(lines) => control(lines as nat, 'F'),
        Op::ClearLine => control(2, 'K'),
        Op::Text(text) => text,
        Op::ReturnFeed => seq!['\r', '\n'],
        Op::Feed => seq!['\n'],
    }
}

/// The encodings of `ops`, one after the other.
pub open spec fn encoded(ops: Seq<Op>) -> Seq<char>
    decreases ops.len(),
{
    if ops.len() == 0 {
        Seq::empty()
    } else {
        encoded(ops.drop_last()) + encoding(ops.last())
    }
}

/// Appending an operation appends its encoding.
pub proof fn lemma_encoded_push(ops: Seq<Op>, op: Op)
    ensures
        encoded(ops.push(op)) == encoded(ops) + encoding(op),
{
    assert(ops.push(op).drop_last() =~= ops);
}

/// The encoding of a run of operations is the encodings of its two parts.
pub proof fn lemma_encoded_concat(front: Seq<Op>, back: Seq<Op>)
    ensures
        encoded(front + back) == encoded(front) + encoded(back),
    decreases back.len(),
{
    if back.len() == 0 {
        assert(front + back =~= front);
        assert(encoded(front) + encoded(back) =~= encoded(front));
    } else {
        lemma_encoded_concat(front, back.drop_last());
        assert((front + back).drop_last() =~= front + back.drop_last());
        assert(encoded(front + back) =~= encoded(front) + encoded(back));
    }
}

/// `count` copies of `op`.
pub open spec fn repeated(op: Op, count: nat) -> Seq<Op> {
    Seq::new(count, |i: int| op)
}

/// Writes `crossterm::cursor::MoveUp(lines)` as ANSI text with
/// `Command::write_ansi`. Trusted: crossterm formats it as the introducer, the
/// decimal count and `A`.
#[verifier::external_body]
fn up_text(lines: u16) -> (text: String)
    ensures
        text@ == encoding(Op::Up(lines)),
{
    let mut text = String::new();
    let _ = MoveUp(lines).write_ansi(&mut text);
    text
}

/// Writes `crossterm::cursor::MoveDown(lines)` as ANSI text with
/// `Command::write_ansi`. Trusted: crossterm formats it as the introducer, the
/// decimal count and `B`.
#[verifier::external_body]
fn down_text(lines: u16) -> (text: String)
    ensures
        text@ == encoding(Op::Down(lines)),
{
    let mut text = String::new();
    let _ = MoveDown(lines).write_ansi(&mut text);
    text
}

/// Writes `crossterm::cursor::MoveToColumn(column)` as ANSI text with
/// `Command::write_ansi`. Trusted: crossterm formats it as the introducer, the
/// decimal of `column + 1` and `G`. crossterm adds the one in `u16`, so the
/// largest column is left out.
#[verifier::external_body]
fn column_text(column: u16) -> (text: String)
    requires
        column < u16::MAX,
    ensures
        text@ == encoding(Op::Column(column)),
{
    let mut text = String::new();
    let _ = MoveToColumn(column).write_ansi(&mut text);
    text
}

/// Writes `crossterm::cursor::MoveToPreviousLine(lines)` as ANSI text with
/// `Command::write_ansi`. Trusted: crossterm formats it as the introducer, the
/// decimal count and `F`.
#[verifier::external_body]
fn previous_line_text(lines: u16) -> (text: String)
    ensures
        text@ == encoding(Op::PreviousLine(lines)),
{
    let mut text = String::new();
    let _ = MoveToPreviousLine(lines).write_ansi(&mut text);
    text
}

/// Writes `crossterm::terminal::Clear(ClearType::CurrentLine)` as ANSI text
/// with `Command::write_ansi`. Trusted: crossterm writes the introducer and
/// `2K`.
#[verifier::external_body]
fn clear_line_text() -> (text: String)
    ensures
        text@ == encoding(Op::ClearLine),
{
    let mut text = String::new();
    let _ = Clear(ClearType::CurrentLine).write_ansi(&mut text);
    text
}

/// Cursor bookkeeping for a block of `n_lines` terminal lines.
#[derive(Debug)]
pub struct SubTerminal {
    n_lines: u16,
    current_line: usize,
}

impl SubTerminal {
    /// The block has at least one line and the cursor is on one of them.
    #[verifier::type_invariant]
    pub closed spec fn well_formed(self) -> bool {
        1 <= self.n_lines && self.current_line < self.n_lines
    }

    /// Number of lines in the block.
    pub closed spec fn height(self) -> nat {
        self.n_lines as nat
    }

    /// The line of the block that the cursor is on, counted from 0.
    pub closed spec fn cursor(self) -> nat {
        self.current_line as nat
    }

    /// The line that a slot index lands on: slots wrap around the block.
    pub open spec fn slot(self, line: nat) -> nat {
        line % self.height()
    }

    /// The display once its cursor has gone to `line`'s slot.
    pub closed spec fn at(self, line: nat) -> SubTerminal {
        SubTerminal { n_lines: self.n_lines, current_line: self.slot(line) as usize }
    }

    /// What it takes to put the cursor at the start of `line`'s slot: the
    /// vertical move, if the cursor is on another line, then column 0.
    pub open spec fn travel(self, line: nat) -> Seq<Op> {
        let target = self.slot(line);
        if target < self.cursor() {
            seq![Op::Up((self.cursor() - target) as u16), Op::Column(0)]
        } else if target > self.cursor() {
            seq![Op::Down((target - self.cursor()) as u16), Op::Column(0)]
        } else {
            seq![Op::Column(0)]
        }
    }

    /// What reserves the block when the display is created: `height - 1` line
    /// breaks, which make room below the cursor's line, then as many steps
    /// back up, so that the cursor is on the first line of the block again.
    pub open spec fn opening(height: nat) -> Seq<Op> {
        repeated(Op::ReturnFeed, (height - 1) as nat) + repeated(
            Op::PreviousLine(1),
            (height - 1) as nat,
        )
    }

    /// What `write_to` sends: the travel to the slot, then the text.
    pub open spec fn write_ops(self, text: Seq<char>, line: nat) -> Seq<Op> {
        self.travel(line).push(Op::Text(text))
    }

    /// What `rewrite_to` sends: the travel to the slot, column 0 again, a blank
    /// line, then the text.
    pub open spec fn rewrite_ops(self, text: Seq<char>, line: nat) -> Seq<Op> {
        self.travel(line) + seq![Op::Column(0), Op::ClearLine, Op::Text(text)]
    }

    /// What `move_to_last_line_and_new_line` sends: the travel to the last
    /// line, then a line feed.
    pub open spec fn closing_ops(self) -> Seq<Op> {
        self.travel((self.height() - 1) as nat).push(Op::Feed)
    }

    /// A display of `n_lines` lines with the cursor on its first line, and the
    /// text that reserves the block on the terminal.
    pub fn new(n_lines: u16) -> (made: (SubTerminal, String))
        requires
            n_lines >= 1,
        ensures
            made.0.well_formed(),
            made.0.height() == n_lines,
            made.0.cursor() == 0,
            made.1@ == encoded(Self::opening(n_lines as nat)),
    {
        let mut text = String::new();
        let mut i: u16 = 0;
        while i < n_lines - 1
            invariant
                n_lines >= 1,
                i <= n_lines - 1,
                text@ == encoded(repeated(Op::ReturnFeed, i as nat)),
            decreases n_lines - 1 - i,
        {
            text.push('\r');
            text.push('\n');
            proof {
                let next = repeated(Op::ReturnFeed, (i + 1) as nat);
                assert(next.drop_last() =~= repeated(Op::ReturnFeed, i as nat));
                assert(text@ =~= encoded(next.drop_last()) + encoding(next.last()));
            }
            i += 1;
        }
        let ghost feeds = repeated(Op::ReturnFeed, (n_lines - 1) as nat);
        let mut j: u16 = 0;
        while j < n_lines - 1
            invariant
                n_lines >= 1,
                j <= n_lines - 1,
                feeds == repeated(Op::ReturnFeed, (n_lines - 1) as nat),
                text@ == encoded(feeds + repeated(Op::PreviousLine(1), j as nat)),
            decreases n_lines - 1 - j,
        {
            let step = previous_line_text(1);
            text.append(step.as_str());
            proof {
                let next = feeds + repeated(Op::PreviousLine(1), (j + 1) as nat);
                assert(next.drop_last() =~= feeds + repeated(Op::PreviousLine(1), j as nat));
                assert(next.last() == Op::PreviousLine(1));
            }
            j += 1;
        }
        (SubTerminal { n_lines, current_line: 0 }, text)
    }

    /// Moves the bookkeeping to `line`'s slot and returns the text that moves
    /// the terminal's cursor there.
    fn move_to(&mut self, line: usize) -> (text: String)
        ensures
            *final(self) == old(self).at(line as nat),
            final(self).height() == old(self).height(),
            final(self).cursor() == old(self).slot(line as nat),
            text@ == encoded(old(self).travel(line as nat)),
    {
        proof {
            use_type_invariant(&*self);
        }
        let target: usize = line % (self.n_lines as usize);
        let mut text = if target < self.current_line {
            let lines: u16 = (self.current_line - target) as u16;
            proof {
                lemma_encoded_push(Seq::empty(), Op::Up(lines));
            }
            up_text(lines)
        } else if target > self.current_line {
            let lines: u16 = (target - self.current_line) as u16;
            proof {
                lemma_encoded_push(Seq::empty(), Op::Down(lines));
            }
            down_text(lines)
        } else {
            String::new()
        };
        let ghost vertical = self.travel(line as nat).drop_last();
        proof {
            if target < self.current_line {
                assert(vertical =~= Seq::<Op>::empty().push(
                    Op::Up((self.current_line - target) as u16),
                ));
            } else if target > self.current_line {
                assert(vertical =~= Seq::<Op>::empty().push(
                    Op::Down((target - self.current_line) as u16),
                ));
            } else {
                assert(vertical =~= Seq::<Op>::empty());
            }
            assert(text@ =~= encoded(vertical));
        }
        let column = column_text(0);
        text.append(column.as_str());
        proof {
            lemma_encoded_push(vertical, Op::Column(0));
            assert(vertical.push(Op::Column(0)) =~= self.travel(line as nat));
        }
        self.current_line = target;
        text
    }

    /// First message of a slot: goes to `line`'s slot and prints `text` there
    /// without clearing the line. Returns what to send to the terminal.
    pub fn write_to(&mut self, text: &str, line: usize) -> (output: String)
        ensures
            *final(self) == old(self).at(line as nat),
            final(self).height() == old(self).height(),
            final(self).cursor() == old(self).slot(line as nat),
            output@ == encoded(old(self).write_ops(text@, line as nat)),
    {
        let mut output = self.move_to(line);
        output.append(text);
        proof {
            lemma_encoded_push(old(self).travel(line as nat), Op::Text(text@));
        }
        output
    }

    /// Replaces the message of a slot: goes to `line`'s slot, blanks the line
    /// and prints `text`. Returns what to send to the terminal.
    pub fn rewrite_to(&mut self, text: &str, line: usize) -> (output: String)
        ensures
            *final(self) == old(self).at(line as nat),
            final(self).height() == old(self).height(),
            final(self).cursor() == old(self).slot(line as nat),
            output@ == encoded(old(self).rewrite_ops(text@, line as nat)),
    {
        let ghost travel = self.travel(line as nat);
        let mut output = self.move_to(line);
        let column = column_text(0);
        output.append(column.as_str());
        let clear = clear_line_text();
        output.append(clear.as_str());
        output.append(text);
        proof {
            let tail = seq![Op::Column(0), Op::ClearLine, Op::Text(text@)];
            lemma_encoded_push(Seq::empty(), Op::Column(0));
            lemma_encoded_push(seq![Op::Column(0)], Op::ClearLine);
            lemma_encoded_push(seq![Op::Column(0), Op::ClearLine], Op::Text(text@));
            assert(seq![Op::Column(0)] =~= Seq::<Op>::empty().push(Op::Column(0)));
            assert(seq![Op::Column(0), Op::ClearLine] =~= seq![Op::Column(0)].push(Op::ClearLine));
            assert(tail =~= seq![Op::Column(0), Op::ClearLine].push(Op::Text(text@)));
            lemma_encoded_concat(travel, tail);
            assert(output@ =~= encoded(travel) + encoded(tail));
        }
        output
    }

    /// Leaves the block: goes to its last line and breaks the line, so that
    /// what is printed next scrolls as usual. Returns what to send.
    pub fn move_to_last_line_and_new_line(&mut self) -> (output: String)
        ensures
            *final(self) == old(self).at((old(self).height() - 1) as nat),
            final(self).height() == old(self).height(),
            final(self).cursor() == old(self).height() - 1,
            output@ == encoded(old(self).closing_ops()),
    {
        proof {
            use_type_invariant(&*self);
        }
        let last: usize = self.n_lines as usize - 1;
        proof {
            lemma_small_mod(last as nat, self.n_lines as nat);
        }
        let mut output = self.move_to(last);
        output.push('\n');
        proof {
            lemma_encoded_push(old(self).travel(last as nat), Op::Feed);
            assert(output@ =~= encoded(old(self).closing_ops()));
        }
        output
    }
}

/// A picture of the block as the terminal shows it: the text of each line
/// and the place of the cursor. Lines are counted from the top of the block;
/// the cursor may stand outside it.
pub struct Screen {
    pub lines: Seq<Seq<char>>,
    pub row: int,
    pub column: int,
}

/// How far a vertical move goes: terminals read a count of zero as one.
pub open spec fn reach(lines: u16) -> int {
    if lines == 0 {
        1
    } else {
        lines as int
    }
}

/// `line` with `text` printed over it from `column` on; cells between the end
/// of a shorter line and the text are blank.
pub open spec fn overlay(line: Seq<char>, column: int, text: Seq<char>) -> Seq<char> {
    let width = if line.len() > column + text.len() {
        line.len() as int
    } else {
        column + text.len()
    };
    Seq::new(
        width as nat,
        |i: int|
            if column <= i < column + text.len() {
                text[i - column]
            } else if i < line.len() {
                line[i]
            } else {
                ' '
            },
    )
}

impl Screen {
    /// Whether the cursor stands on a line of the block.
    pub open spec fn inside(self) -> bool {
        0 <= self.row < self.lines.len()
    }

    /// The picture after the terminal has carried out `op`. Printed text is
    /// taken to fill cells of the cursor's line and nothing else.
    pub open spec fn apply(self, op: Op) -> Screen {
        match op {
            Op::Up(lines) => Screen { row: self.row - reach(lines), ..self },
            Op::Down(lines) => Screen { row: self.row + reach(lines), ..self },
            Op::Column(column) => Screen { column: column as int, ..self },
            Op::PreviousLine(lines) => Screen { row: self.row - reach(lines), column: 0, ..self },
            Op::ClearLine => if self.inside() {
                Screen { lines: self.lines.update(self.row, Seq::empty()), ..self }
            } else {
                self
            },
            Op::Text(text) => if self.inside() && self.column >= 0 {
                Screen {
                    lines: self.lines.update(
                        self.row,
                        overlay(self.lines[self.row], self.column, text),
                    ),
                    column: self.column + text.len(),
                    ..self
                }
            } else {
                self
            },
            Op::ReturnFeed => Screen { row: self.row + 1, column: 0, ..self },
            Op::Feed => Screen { row: self.row + 1, column: 0, ..self },
        }
    }

    /// The picture after `ops`, carried out in order.
    pub open spec fn run(self, ops: Seq<Op>) -> Screen
        decreases ops.len(),
    {
        if ops.len() == 0 {
            self
        } else {
            self.run(ops.drop_last()).apply(ops.last())
        }
    }

    /// The picture and the bookkeeping agree: as many lines, the same cursor
    /// line.
    pub open spec fn tracks(self, terminal: SubTerminal) -> bool {
        self.lines.len() == terminal.height() && self.row == terminal.cursor()
    }
}

/// Running one more operation applies it to the picture so far.
pub proof fn lemma_run_push(screen: Screen, ops: Seq<Op>, op: Op)
    ensures
        screen.run(ops.push(op)) == screen.run(ops).apply(op),
{
    assert(ops.push(op).drop_last() =~= ops);
}

/// Running two lists of operations one after the other is running them
/// joined.
pub proof fn lemma_run_concat(screen: Screen, front: Seq<Op>, back: Seq<Op>)
    ensures
        screen.run(front + back) == screen.run(front).run(back),
    decreases back.len(),
{
    if back.len() == 0 {
        assert(front + back =~= front);
    } else {
        lemma_run_concat(screen, front, back.drop_last());
        assert((front + back).drop_last() =~= front + back.drop_last());
    }
}

/// Line breaks take the cursor down a line each, and steps back up take it
/// up a line each; neither changes what the lines show.
pub proof fn lemma_repeated_moves(screen: Screen, count: nat)
    ensures
        screen.run(repeated(Op::ReturnFeed, count)).row == screen.row + count,
        screen.run(repeated(Op::ReturnFeed, count)).lines == screen.lines,
        screen.run(repeated(Op::PreviousLine(1), count)).row == screen.row - count,
        screen.run(repeated(Op::PreviousLine(1), count)).lines == screen.lines,
        count > 0 ==> screen.run(repeated(Op::PreviousLine(1), count)).column == 0,
    decreases count,
{
    if count > 0 {
        lemma_repeated_moves(screen, (count - 1) as nat);
        assert(repeated(Op::ReturnFeed, count).drop_last() =~= repeated(
            Op::ReturnFeed,
            (count - 1) as nat,
        ));
        assert(repeated(Op::PreviousLine(1), count).drop_last() =~= repeated(
            Op::PreviousLine(1),
            (count - 1) as nat,
        ));
    }
}

/// The opening reserves the block and comes back. Run from the line on which
/// the display starts, it leaves the cursor on that line, which is line 0 of
/// the block, and changes no line: a display that was just made and the
/// picture of its block agree, so the slot lemmas apply from the first
/// message on.
pub proof fn lemma_opening_comes_back(terminal: SubTerminal, screen: Screen)
    requires
        terminal.well_formed(),
        terminal.cursor() == 0,
        screen.lines.len() == terminal.height(),
        screen.row == 0,
    ensures
        screen.run(SubTerminal::opening(terminal.height())).row == 0,
        screen.run(SubTerminal::opening(terminal.height())).lines == screen.lines,
        screen.run(SubTerminal::opening(terminal.height())).tracks(terminal),
{
    let count = (terminal.height() - 1) as nat;
    let feeds = repeated(Op::ReturnFeed, count);
    let steps = repeated(Op::PreviousLine(1), count);
    lemma_run_concat(screen, feeds, steps);
    lemma_repeated_moves(screen, count);
    lemma_repeated_moves(screen.run(feeds), count);
}

/// Travelling to a slot puts the cursor at the start of that slot's line and
/// changes no line.
pub proof fn lemma_travel_arrives(terminal: SubTerminal, screen: Screen, line: nat)
    requires
        terminal.well_formed(),
        screen.tracks(terminal),
    ensures
        screen.run(terminal.travel(line)) == (Screen {
            row: terminal.slot(line) as int,
            column: 0,
            ..screen
        }),
        terminal.slot(line) < terminal.height(),
        terminal.at(line).well_formed(),
        terminal.at(line).height() == terminal.height(),
        terminal.at(line).cursor() == terminal.slot(line),
{
    let target = terminal.slot(line);
    let none = Seq::<Op>::empty();
    if target < terminal.cursor() {
        let up = Op::Up((terminal.cursor() - target) as u16);
        lemma_run_push(screen, none, up);
        lemma_run_push(screen, none.push(up), Op::Column(0));
        assert(terminal.travel(line) =~= none.push(up).push(Op::Column(0)));
    } else if target > terminal.cursor() {
        let down = Op::Down((target - terminal.cursor()) as u16);
        lemma_run_push(screen, none, down);
        lemma_run_push(screen, none.push(down), Op::Column(0));
        assert(terminal.travel(line) =~= none.push(down).push(Op::Column(0)));
    } else {
        lemma_run_push(screen, none, Op::Column(0));
        assert(terminal.travel(line) =~= none.push(Op::Column(0)));
    }
}

/// A first message lands in its own slot: after `write_to` the slot's line
/// is the old line with the text printed over it from the first column, every
/// other line is as it was, and picture and bookkeeping still agree.
pub proof fn lemma_write_stays_in_slot(
    terminal: SubTerminal,
    screen: Screen,
    text: Seq<char>,
    line: nat,
)
    requires
        terminal.well_formed(),
        screen.tracks(terminal),
    ensures
        ({
            let after = screen.run(terminal.write_ops(text, line));
            let slot = terminal.slot(line) as int;
            &&& after.tracks(terminal.at(line))
            &&& terminal.at(line).well_formed()
            &&& after.lines == screen.lines.update(slot, overlay(screen.lines[slot], 0, text))
        }),
{
    lemma_travel_arrives(terminal, screen, line);
    lemma_run_push(screen, terminal.travel(line), Op::Text(text));
}

/// A replacement lands in its own slot: after `rewrite_to` the slot's line
/// shows exactly the new text, every other line is as it was, and picture and
/// bookkeeping still agree.
pub proof fn lemma_rewrite_stays_in_slot(
    terminal: SubTerminal,
    screen: Screen,
    text: Seq<char>,
    line: nat,
)
    requires
        terminal.well_formed(),
        screen.tracks(terminal),
    ensures
        ({
            let after = screen.run(terminal.rewrite_ops(text, line));
            let slot = terminal.slot(line) as int;
            &&& after.tracks(terminal.at(line))
            &&& terminal.at(line).well_formed()
            &&& after.lines == screen.lines.update(slot, text)
        }),
{
    lemma_travel_arrives(terminal, screen, line);
    let travel = terminal.travel(line);
    let slot = terminal.slot(line) as int;
    lemma_run_push(screen, travel, Op::Column(0));
    lemma_run_push(screen, travel.push(Op::Column(0)), Op::ClearLine);
    lemma_run_push(screen, travel.push(Op::Column(0)).push(Op::ClearLine), Op::Text(text));
    assert(terminal.rewrite_ops(text, line) =~= travel.push(Op::Column(0)).push(
        Op::ClearLine,
    ).push(Op::Text(text)));
    assert(overlay(Seq::<char>::empty(), 0, text) =~= text);
    let after = screen.run(terminal.rewrite_ops(text, line));
    assert(after.lines =~= screen.lines.update(slot, text));
}

/// Slot safety. Two workers that hold different slots and each replace their
/// message, one whole `rewrite_to` after the other, leave the same picture in
/// either order: each slot shows its own worker's text, and no other line has
/// changed.
pub proof fn lemma_slots_do_not_interfere(
    terminal: SubTerminal,
    screen: Screen,
    first_text: Seq<char>,
    first_line: nat,
    second_text: Seq<char>,
    second_line: nat,
)
    requires
        terminal.well_formed(),
        screen.tracks(terminal),
        terminal.slot(first_line) != terminal.slot(second_line),
    ensures
        ({
            let one_way = screen.run(terminal.rewrite_ops(first_text, first_line)).run(
                terminal.at(first_line).rewrite_ops(second_text, second_line),
            );
            let other_way = screen.run(terminal.rewrite_ops(second_text, second_line)).run(
                terminal.at(second_line).rewrite_ops(first_text, first_line),
            );
            let first_slot = terminal.slot(first_line) as int;
            let second_slot = terminal.slot(second_line) as int;
            &&& one_way.lines == other_way.lines
            &&& one_way.lines[first_slot] == first_text
            &&& one_way.lines[second_slot] == second_text
            &&& forall|row: int|
                0 <= row < screen.lines.len() && row != first_slot && row != second_slot
                    ==> one_way.lines[row] == screen.lines[row]
        }),
{
    let after_first = screen.run(terminal.rewrite_ops(first_text, first_line));
    let after_second = screen.run(terminal.rewrite_ops(second_text, second_line));
    lemma_rewrite_stays_in_slot(terminal, screen, first_text, first_line);
    lemma_rewrite_stays_in_slot(terminal, screen, second_text, second_line);
    lemma_travel_arrives(terminal, screen, first_line);
    lemma_travel_arrives(terminal, screen, second_line);
    lemma_rewrite_stays_in_slot(terminal.at(first_line), after_first, second_text, second_line);
    lemma_rewrite_stays_in_slot(terminal.at(second_line), after_second, first_text, first_line);
    let one_way = after_first.run(terminal.at(first_line).rewrite_ops(second_text, second_line));
    let other_way = after_second.run(
        terminal.at(second_line).rewrite_ops(first_text, first_line),
    );
    assert(one_way.lines =~= other_way.lines);
}

} // verus!
