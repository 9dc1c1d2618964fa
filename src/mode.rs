use vstd::prelude::*;

verus! {

/// The active input mode.
#[derive(Debug, Clone, Copy, PartialEq, Eq, Structural)]
pub enum Mode {
    /// Typed characters go into the document.
    Insert,
    /// Keys move the cursor and run edit commands.
    Normal,
    /// Keys accumulate a command line, run on Enter.
    Command,
    /// The first key of a two-key operator was typed; the next key completes
    /// or cancels it.
    Spatial(char),
}

impl Default for Mode {
    fn default() -> (r: Mode)
        ensures
            r == Mode::Normal,
    {
        Mode::Normal
    }
}

impl Mode {
    /// The label shown for this mode in the status bar.
    pub fn name(&self) -> (r: &'static str)
        ensures
            r@ == (match *self {
                Mode::Insert => "INSERT"@,
                Mode::Normal => "NORMAL"@,
                Mode::Command => "COMMAND"@,
                Mode::Spatial(_) => "SPATIAL"@,
            }),
    {
        match self {
            Mode::Insert => "INSERT",
            Mode::Normal => "NORMAL",
            Mode::Command => "COMMAND",
            Mode::Spatial(_) => "SPATIAL",
        }
    }
}

/// A key event. Enter arrives as `Char('\n')` and Tab as `Char('\t')`.
#[derive(Debug, Clone, Copy, PartialEq, Eq, Structural)]
pub enum Key {
    Char(char),
    Ctrl(char),
    Backspace,
    Esc,
    Left,
    Right,
    Up,
    Down,
    /// Any key that no mode handles.
    Other,
}

/// What the surrounding program must do after a key was handled.
#[derive(Debug, Clone, Copy, PartialEq, Eq, Structural)]
pub enum Action {
    /// Nothing beyond redrawing.
    Nothing,
    /// Write the document to its file.
    Save,
    /// Write the document to its file, then end the session whatever the
    /// outcome of the write.
    SaveAndQuit,
    /// End the session without writing.
    Quit,
}

} // verus!
