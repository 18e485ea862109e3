//! The editable state of the remote controller's terminal: the command line being typed and
//! the scroll position of the log view.

use vstd::prelude::*;

verus! {

/// The command line being typed, one character at a time.
pub struct CommandLine {
    /// The characters typed so far, in order.
    characters: Vec<char>,
}

impl View for CommandLine {
    type V = Seq<char>;

    closed spec fn view(&self) -> Seq<char> {
        self.characters@
    }
}

impl CommandLine {
    /// An empty command line.
    pub fn new() -> (target_line: Self)
        ensures
            target_line@ == Seq::<char>::empty(),
    {
        CommandLine { characters: Vec::new() }
    }

    /// Type a character at the end of the line.
    pub fn push(&mut self, target_char: char)
        ensures
            final(self)@ == old(self)@.push(target_char),
    {
        self.characters.push(target_char);
    }

    /// Erase the last character of the line, if there is one.
    pub fn backspace(&mut self)
        ensures
            final(self)@ == (if old(self)@.len() == 0 {
                old(self)@
            } else {
                old(self)@.drop_last()
            }),
    {
        let _ = self.characters.pop();
    }

    /// Erase the whole line.
    pub fn clear(&mut self)
        ensures
            final(self)@ == Seq::<char>::empty(),
    {
        self.characters.clear();
    }

    /// The characters of the line, in order.
    pub fn characters(&self) -> (target_chars: &[char])
        ensures
            target_chars@ == self@,
    {
        self.characters.as_slice()
    }
}

/// The scroll position of the log view: how many lines down and columns right it is shifted.
#[derive(Debug, Clone, Copy, PartialEq, Eq, Structural, Default)]
pub struct Scroll {
    /// The number of lines scrolled down.
    pub vertical: u16,
    /// The number of columns scrolled right.
    pub horizontal: u16,
}

/// `position - 1`, or `0` where there is no line or column before.
pub open spec fn step_back(position: u16) -> u16 {
    if position == 0 {
        0
    } else {
        (position - 1) as u16
    }
}

/// `position + 1`, or `u16::MAX` where the position is already the last one.
pub open spec fn step_forward(position: u16) -> u16 {
    if position == u16::MAX {
        u16::MAX
    } else {
        (position + 1) as u16
    }
}

impl Scroll {
    /// Scroll one line up, stopping at the top.
    pub fn up(&mut self)
        ensures
            final(self).vertical == step_back(old(self).vertical),
            final(self).horizontal == old(self).horizontal,
    {
        self.vertical = self.vertical.saturating_sub(1);
    }

    /// Scroll one line down, stopping at the last representable line.
    pub fn down(&mut self)
        ensures
            final(self).vertical == step_forward(old(self).vertical),
            final(self).horizontal == old(self).horizontal,
    {
        self.vertical = self.vertical.saturating_add(1);
    }

    /// Scroll one column left, stopping at the first column.
    pub fn left(&mut self)
        ensures
            final(self).horizontal == step_back(old(self).horizontal),
            final(self).vertical == old(self).vertical,
    {
        self.horizontal = self.horizontal.saturating_sub(1);
    }

    /// Scroll one column right, stopping at the last representable column.
    pub fn right(&mut self)
        ensures
            final(self).horizontal == step_forward(old(self).horizontal),
            final(self).vertical == old(self).vertical,
    {
        self.horizontal = self.horizontal.saturating_add(1);
    }
}

/// Typing a character and erasing it gives back the line as it was.
pub proof fn lemma_backspace_undoes_push(line: Seq<char>, target_char: char)
    ensures
        line.push(target_char).drop_last() == line,
{
    assert(line.push(target_char).drop_last() =~= line);
}

/// Scrolling down then up again returns to the same line, unless the view was already at
/// the last representable line.
pub proof fn lemma_scroll_down_up(position: u16)
    requires
        position < u16::MAX,
    ensures
        step_back(step_forward(position)) == position,
{
}

} // verus!
