//! Output modes for the final text and the delivery steps each one takes.

use vstd::prelude::*;
use crate::text::str_eq;

verus! {

/// Output mode for transcribed text.
#[derive(Debug, Clone, Copy, PartialEq, Eq, Structural)]
pub enum OutputMode {
    /// Copy to clipboard, paste, then restore the clipboard.
    Paste,
    /// Paste and keep the text in the clipboard.
    PasteAndClipboard,
    /// Copy to clipboard only.
    Clipboard,
    /// Type each character as keystrokes.
    Keystrokes,
    /// Copy to clipboard and type as keystrokes.
    KeystrokesAndClipboard,
}

/// One delivery action on the final text.
#[derive(Debug, Clone, Copy, PartialEq, Eq, Structural)]
pub enum OutputStep {
    /// Paste through the clipboard, then restore what it held before.
    PasteRestoringClipboard,
    /// Paste through the clipboard and leave the text there.
    PasteKeepingClipboard,
    /// Put the text into the clipboard.
    CopyToClipboard,
    /// Type the text character by character.
    TypeKeystrokes,
}

/// The key that types a character.
#[derive(Debug, Clone, Copy, PartialEq, Eq, Structural)]
pub enum Keystroke {
    /// The return key, for a line feed.
    Return,
    /// The tab key.
    Tab,
    /// The character itself.
    Unicode(char),
}

impl Default for OutputMode {
    fn default() -> (m: Self)
        ensures
            m == OutputMode::Paste,
    {
        OutputMode::Paste
    }
}

/// The mode that a settings value names; unknown values and the legacy
/// value `auto_paste` mean `Paste`.
pub open spec fn mode_named(s: Seq<char>) -> OutputMode {
    if s == "paste_and_clipboard"@ {
        OutputMode::PasteAndClipboard
    } else if s == "clipboard"@ {
        OutputMode::Clipboard
    } else if s == "keystrokes"@ {
        OutputMode::Keystrokes
    } else if s == "keystrokes_and_clipboard"@ {
        OutputMode::KeystrokesAndClipboard
    } else {
        OutputMode::Paste
    }
}

/// The delivery steps of a mode, in order. Only the combined keystroke mode
/// takes two: it fills the clipboard first and stops there if that fails.
pub open spec fn steps_of(mode: OutputMode) -> Seq<OutputStep> {
    match mode {
        OutputMode::Paste => seq![OutputStep::PasteRestoringClipboard],
        OutputMode::PasteAndClipboard => seq![OutputStep::PasteKeepingClipboard],
        OutputMode::Clipboard => seq![OutputStep::CopyToClipboard],
        OutputMode::Keystrokes => seq![OutputStep::TypeKeystrokes],
        OutputMode::KeystrokesAndClipboard => seq![
            OutputStep::CopyToClipboard,
            OutputStep::TypeKeystrokes,
        ],
    }
}

impl OutputMode {
    /// Read a mode from its settings value.
    pub fn from_str(s: &str) -> (mode: Self)
        ensures
            mode == mode_named(s@),
    {
        if str_eq(s, "paste_and_clipboard") {
            OutputMode::PasteAndClipboard
        } else if str_eq(s, "clipboard") {
            OutputMode::Clipboard
        } else if str_eq(s, "keystrokes") {
            OutputMode::Keystrokes
        } else if str_eq(s, "keystrokes_and_clipboard") {
            OutputMode::KeystrokesAndClipboard
        } else {
            OutputMode::Paste
        }
    }
}

/// The steps that deliver text in the given mode, in order.
pub fn output_text_with_mode(mode: OutputMode) -> (steps: Vec<OutputStep>)
    ensures
        steps@ == steps_of(mode),
{
    let mut steps: Vec<OutputStep> = Vec::new();
    match mode {
        OutputMode::Paste => steps.push(OutputStep::PasteRestoringClipboard),
        OutputMode::PasteAndClipboard => steps.push(OutputStep::PasteKeepingClipboard),
        OutputMode::Clipboard => steps.push(OutputStep::CopyToClipboard),
        OutputMode::Keystrokes => steps.push(OutputStep::TypeKeystrokes),
        OutputMode::KeystrokesAndClipboard => {
            steps.push(OutputStep::CopyToClipboard);
            steps.push(OutputStep::TypeKeystrokes);
        },
    }
    assert(steps@ =~= steps_of(mode));
    steps
}

/// The key that types `c`: return for a line feed, tab for a tab, the
/// character itself otherwise.
pub fn keystroke_for(c: char) -> (key: Keystroke)
    ensures
        key == if c == '\n' {
            Keystroke::Return
        } else if c == '\t' {
            Keystroke::Tab
        } else {
            Keystroke::Unicode(c)
        },
{
    if c == '\n' {
        Keystroke::Return
    } else if c == '\t' {
        Keystroke::Tab
    } else {
        Keystroke::Unicode(c)
    }
}

} // verus!
