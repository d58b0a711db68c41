//! The named escape codes and the table that ties each to its byte pair.
use crate::key::{pack, packed_key};
use vstd::prelude::*;

verus! {

/// The escape sequences that have a name.
#[derive(Debug, Clone, Copy, PartialEq, Eq, Structural)]
pub enum EscCode {
    /// RIS - Full Reset
    FullReset,
    /// IND - Index.  Note that for Vt52 and Windows 10 ANSI consoles,
    /// this is interpreted as CursorUp
    Index,
    /// NEL - Next Line
    NextLine,
    /// Move the cursor to the bottom left corner of the screen
    CursorPositionLowerLeft,
    /// HTS - Horizontal Tab Set
    HorizontalTabSet,
    /// RI - Reverse Index: the reverse of a line feed, moves the cursor up one
    /// line, keeps its column, scrolls the buffer if necessary
    ReverseIndex,
    /// SS2 - Single shift of G2 character set, affects the next character only
    SingleShiftG2,
    /// SS3 - Single shift of G3 character set, affects the next character only
    SingleShiftG3,
    /// SPA - Start of Guarded Area
    StartOfGuardedArea,
    /// EPA - End of Guarded Area
    EndOfGuardedArea,
    /// SOS - Start of String
    StartOfString,
    /// DECID - Return Terminal ID (obsolete form of CSI c, aka DA)
    ReturnTerminalId,
    /// ST - String Terminator
    StringTerminator,
    /// PM - Privacy Message
    PrivacyMessage,
    /// APC - Application Program Command
    ApplicationProgramCommand,
    /// DECSC - Save cursor position
    DecSaveCursorPosition,
    /// DECSR - Restore saved cursor position
    DecRestoreCursorPosition,
    /// DECPAM - Application Keypad
    DecApplicationKeyPad,
    /// DECPNM - Normal Keypad
    DecNormalKeyPad,
    /// Designate Character Set: DEC Line Drawing
    DecLineDrawing,
    /// Designate Character Set: US ASCII
    AsciiCharacterSet,
    /// Sent by the terminal when the up arrow is pressed in application mode
    ApplicationModeArrowUpPress,
    /// Sent by the terminal when the down arrow is pressed in application mode
    ApplicationModeArrowDownPress,
    /// Sent by the terminal when the right arrow is pressed in application mode
    ApplicationModeArrowRightPress,
    /// Sent by the terminal when the left arrow is pressed in application mode
    ApplicationModeArrowLeftPress,
    /// Sent by the terminal when Home is pressed in application mode
    ApplicationModeHomePress,
    /// Sent by the terminal when End is pressed in application mode
    ApplicationModeEndPress,
    /// Sent by the terminal when F1 is pressed
    F1Press,
    /// Sent by the terminal when F2 is pressed
    F2Press,
    /// Sent by the terminal when F3 is pressed
    F3Press,
    /// Sent by the terminal when F4 is pressed
    F4Press,
}

impl EscCode {
    /// The recognition table: the byte pair that follows the marker byte in
    /// the sequence of this code, the intermediate byte first.
    pub open spec fn bytes(self) -> (Option<u8>, u8) {
        match self {
            EscCode::FullReset => (None, 'c' as u8),
            EscCode::Index => (None, 'D' as u8),
            EscCode::NextLine => (None, 'E' as u8),
            EscCode::CursorPositionLowerLeft => (None, 'F' as u8),
            EscCode::HorizontalTabSet => (None, 'H' as u8),
            EscCode::ReverseIndex => (None, 'M' as u8),
            EscCode::SingleShiftG2 => (None, 'N' as u8),
            EscCode::SingleShiftG3 => (None, 'O' as u8),
            EscCode::StartOfGuardedArea => (None, 'V' as u8),
            EscCode::EndOfGuardedArea => (None, 'W' as u8),
            EscCode::StartOfString => (None, 'X' as u8),
            EscCode::ReturnTerminalId => (None, 'Z' as u8),
            EscCode::StringTerminator => (None, '\\' as u8),
            EscCode::PrivacyMessage => (None, '^' as u8),
            EscCode::ApplicationProgramCommand => (None, '_' as u8),
            EscCode::DecSaveCursorPosition => (None, '7' as u8),
            EscCode::DecRestoreCursorPosition => (None, '8' as u8),
            EscCode::DecApplicationKeyPad => (None, '=' as u8),
            EscCode::DecNormalKeyPad => (None, '>' as u8),
            EscCode::DecLineDrawing => (Some('(' as u8), '0' as u8),
            EscCode::AsciiCharacterSet => (Some('(' as u8), 'B' as u8),
            EscCode::ApplicationModeArrowUpPress => (Some('O' as u8), 'A' as u8),
            EscCode::ApplicationModeArrowDownPress => (Some('O' as u8), 'B' as u8),
            EscCode::ApplicationModeArrowRightPress => (Some('O' as u8), 'C' as u8),
            EscCode::ApplicationModeArrowLeftPress => (Some('O' as u8), 'D' as u8),
            EscCode::ApplicationModeHomePress => (Some('O' as u8), 'H' as u8),
            EscCode::ApplicationModeEndPress => (Some('O' as u8), 'F' as u8),
            EscCode::F1Press => (Some('O' as u8), 'P' as u8),
            EscCode::F2Press => (Some('O' as u8), 'Q' as u8),
            EscCode::F3Press => (Some('O' as u8), 'R' as u8),
            EscCode::F4Press => (Some('O' as u8), 'S' as u8),
        }
    }

    /// The packed key of this code's byte pair.
    pub open spec fn key(self) -> int {
        packed_key(self.bytes().0, self.bytes().1)
    }

    /// The recognition table read the other way: the code whose byte pair
    /// packs to `key`, if there is one.
    pub open spec fn of_key(key: int) -> Option<EscCode> {
        if EscCode::FullReset.key() == key {
            Some(EscCode::FullReset)
        } else if EscCode::Index.key() == key {
            Some(EscCode::Index)
        } else if EscCode::NextLine.key() == key {
            Some(EscCode::NextLine)
        } else if EscCode::CursorPositionLowerLeft.key() == key {
            Some(EscCode::CursorPositionLowerLeft)
        } else if EscCode::HorizontalTabSet.key() == key {
            Some(EscCode::HorizontalTabSet)
        } else if EscCode::ReverseIndex.key() == key {
            Some(EscCode::ReverseIndex)
        } else if EscCode::SingleShiftG2.key() == key {
            Some(EscCode::SingleShiftG2)
        } else if EscCode::SingleShiftG3.key() == key {
            Some(EscCode::SingleShiftG3)
        } else if EscCode::StartOfGuardedArea.key() == key {
            Some(EscCode::StartOfGuardedArea)
        } else if EscCode::EndOfGuardedArea.key() == key {
            Some(EscCode::EndOfGuardedArea)
        } else if EscCode::StartOfString.key() == key {
            Some(EscCode::StartOfString)
        } else if EscCode::ReturnTerminalId.key() == key {
            Some(EscCode::ReturnTerminalId)
        } else if EscCode::StringTerminator.key() == key {
            Some(EscCode::StringTerminator)
        } else if EscCode::PrivacyMessage.key() == key {
            Some(EscCode::PrivacyMessage)
        } else if EscCode::ApplicationProgramCommand.key() == key {
            Some(EscCode::ApplicationProgramCommand)
        } else if EscCode::DecSaveCursorPosition.key() == key {
            Some(EscCode::DecSaveCursorPosition)
        } else if EscCode::DecRestoreCursorPosition.key() == key {
            Some(EscCode::DecRestoreCursorPosition)
        } else if EscCode::DecApplicationKeyPad.key() == key {
            Some(EscCode::DecApplicationKeyPad)
        } else if EscCode::DecNormalKeyPad.key() == key {
            Some(EscCode::DecNormalKeyPad)
        } else if EscCode::DecLineDrawing.key() == key {
            Some(EscCode::DecLineDrawing)
        } else if EscCode::AsciiCharacterSet.key() == key {
            Some(EscCode::AsciiCharacterSet)
        } else if EscCode::ApplicationModeArrowUpPress.key() == key {
            Some(EscCode::ApplicationModeArrowUpPress)
        } else if EscCode::ApplicationModeArrowDownPress.key() == key {
            Some(EscCode::ApplicationModeArrowDownPress)
        } else if EscCode::ApplicationModeArrowRightPress.key() == key {
            Some(EscCode::ApplicationModeArrowRightPress)
        } else if EscCode::ApplicationModeArrowLeftPress.key() == key {
            Some(EscCode::ApplicationModeArrowLeftPress)
        } else if EscCode::ApplicationModeHomePress.key() == key {
            Some(EscCode::ApplicationModeHomePress)
        } else if EscCode::ApplicationModeEndPress.key() == key {
            Some(EscCode::ApplicationModeEndPress)
        } else if EscCode::F1Press.key() == key {
            Some(EscCode::F1Press)
        } else if EscCode::F2Press.key() == key {
            Some(EscCode::F2Press)
        } else if EscCode::F3Press.key() == key {
            Some(EscCode::F3Press)
        } else if EscCode::F4Press.key() == key {
            Some(EscCode::F4Press)
        } else {
            None
        }
    }

    /// The packed key of this code.
    pub fn to_u16(self) -> (key: u16)
        ensures
            key as int == self.key(),
    {
        match self {
            EscCode::FullReset => pack(None, 'c' as u8),
            EscCode::Index => pack(None, 'D' as u8),
            EscCode::NextLine => pack(None, 'E' as u8),
            EscCode::CursorPositionLowerLeft => pack(None, 'F' as u8),
            EscCode::HorizontalTabSet => pack(None, 'H' as u8),
            EscCode::ReverseIndex => pack(None, 'M' as u8),
            EscCode::SingleShiftG2 => pack(None, 'N' as u8),
            EscCode::SingleShiftG3 => pack(None, 'O' as u8),
            EscCode::StartOfGuardedArea => pack(None, 'V' as u8),
            EscCode::EndOfGuardedArea => pack(None, 'W' as u8),
            EscCode::StartOfString => pack(None, 'X' as u8),
            EscCode::ReturnTerminalId => pack(None, 'Z' as u8),
            EscCode::StringTerminator => pack(None, '\\' as u8),
            EscCode::PrivacyMessage => pack(None, '^' as u8),
            EscCode::ApplicationProgramCommand => pack(None, '_' as u8),
            EscCode::DecSaveCursorPosition => pack(None, '7' as u8),
            EscCode::DecRestoreCursorPosition => pack(None, '8' as u8),
            EscCode::DecApplicationKeyPad => pack(None, '=' as u8),
            EscCode::DecNormalKeyPad => pack(None, '>' as u8),
            EscCode::DecLineDrawing => pack(Some('(' as u8), '0' as u8),
            EscCode::AsciiCharacterSet => pack(Some('(' as u8), 'B' as u8),
            EscCode::ApplicationModeArrowUpPress => pack(Some('O' as u8), 'A' as u8),
            EscCode::ApplicationModeArrowDownPress => pack(Some('O' as u8), 'B' as u8),
            EscCode::ApplicationModeArrowRightPress => pack(Some('O' as u8), 'C' as u8),
            EscCode::ApplicationModeArrowLeftPress => pack(Some('O' as u8), 'D' as u8),
            EscCode::ApplicationModeHomePress => pack(Some('O' as u8), 'H' as u8),
            EscCode::ApplicationModeEndPress => pack(Some('O' as u8), 'F' as u8),
            EscCode::F1Press => pack(Some('O' as u8), 'P' as u8),
            EscCode::F2Press => pack(Some('O' as u8), 'Q' as u8),
            EscCode::F3Press => pack(Some('O' as u8), 'R' as u8),
            EscCode::F4Press => pack(Some('O' as u8), 'S' as u8),
        }
    }

    /// Looks `key` up in the table.
    pub fn from_u16(key: u16) -> (code: Option<EscCode>)
        ensures
            code == EscCode::of_key(key as int),
    {
        match key {
            0x0063 => Some(EscCode::FullReset),
            0x0044 => Some(EscCode::Index),
            0x0045 => Some(EscCode::NextLine),
            0x0046 => Some(EscCode::CursorPositionLowerLeft),
            0x0048 => Some(EscCode::HorizontalTabSet),
            0x004d => Some(EscCode::ReverseIndex),
            0x004e => Some(EscCode::SingleShiftG2),
            0x004f => Some(EscCode::SingleShiftG3),
            0x0056 => Some(EscCode::StartOfGuardedArea),
            0x0057 => Some(EscCode::EndOfGuardedArea),
            0x0058 => Some(EscCode::StartOfString),
            0x005a => Some(EscCode::ReturnTerminalId),
            0x005c => Some(EscCode::StringTerminator),
            0x005e => Some(EscCode::PrivacyMessage),
            0x005f => Some(EscCode::ApplicationProgramCommand),
            0x0037 => Some(EscCode::DecSaveCursorPosition),
            0x0038 => Some(EscCode::DecRestoreCursorPosition),
            0x003d => Some(EscCode::DecApplicationKeyPad),
            0x003e => Some(EscCode::DecNormalKeyPad),
            0x2830 => Some(EscCode::DecLineDrawing),
            0x2842 => Some(EscCode::AsciiCharacterSet),
            0x4f41 => Some(EscCode::ApplicationModeArrowUpPress),
            0x4f42 => Some(EscCode::ApplicationModeArrowDownPress),
            0x4f43 => Some(EscCode::ApplicationModeArrowRightPress),
            0x4f44 => Some(EscCode::ApplicationModeArrowLeftPress),
            0x4f48 => Some(EscCode::ApplicationModeHomePress),
            0x4f46 => Some(EscCode::ApplicationModeEndPress),
            0x4f50 => Some(EscCode::F1Press),
            0x4f51 => Some(EscCode::F2Press),
            0x4f52 => Some(EscCode::F3Press),
            0x4f53 => Some(EscCode::F4Press),
            _ => None,
        }
    }
}

/// Whether the table holds a code with this key.
pub open spec fn recognized(key: int) -> bool {
    EscCode::of_key(key) is Some
}

/// No two codes share a key: two codes with one key are one code.
pub proof fn lemma_keys_distinct(a: EscCode, b: EscCode)
    ensures
        a.key() == b.key() <==> a == b,
{
}

/// The table holds `code` under `key` exactly if `key` is the key of `code`:
/// every code is found under its own key, and under no other.
pub proof fn lemma_of_key_inverts_key(key: int, code: EscCode)
    ensures
        EscCode::of_key(key) == Some(code) <==> code.key() == key,
{
}

/// A key is recognized exactly if some code has it.
pub proof fn lemma_recognized_keys(key: int)
    ensures
        recognized(key) <==> exists|code: EscCode| code.key() == key,
{
    if recognized(key) {
        assert(EscCode::of_key(key).unwrap().key() == key);
    }
}

} // verus!
