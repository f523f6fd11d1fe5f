use vstd::prelude::*;

verus! {

/// A key press, as the input source decodes it.
#[derive(Debug, Clone, Copy, PartialEq, Eq, Structural)]
pub enum Keys {
    ArrowLeft,
    ArrowRight,
    ArrowUp,
    ArrowDown,
    Enter,
    Backspace,
    Esc,
    AltChar(char),
    CtrlChar(char),
    Char(char),
    Unknown,
}

} // verus!
