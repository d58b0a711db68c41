//! The typed escape sequence, read from a byte pair and written back to bytes.
use crate::code::EscCode;
use crate::key::{pack, packed_key, unpack};
use vstd::prelude::*;

verus! {

/// The marker byte that opens every sequence.
pub const ESC: u8 = 0x1b;

/// A simple escape sequence: a named code, or the bytes of one without a name.
#[derive(Debug, Clone, Copy, PartialEq, Eq, Structural)]
pub enum Esc {
    /// A sequence that the table does not hold, kept byte for byte.
    Unspecified {
        intermediate: Option<u8>,
        /// The final character in the Escape sequence; this typically
        /// defines how to interpret the other parameters.
        control: u8,
    },
    /// A sequence that the table holds.
    Code(EscCode),
}

/// The bytes on the wire of a sequence with this byte pair: the marker, the
/// intermediate byte if there is one, the control byte.
pub open spec fn wire(intermediate: Option<u8>, control: u8) -> Seq<u8> {
    match intermediate {
        Some(high) => seq![ESC, high, control],
        None => seq![ESC, control],
    }
}

impl Esc {
    /// What a byte pair is read as: the code that the table holds under the
    /// pair's key, or else the pair itself.
    pub open spec fn parsed(intermediate: Option<u8>, control: u8) -> Esc {
        match EscCode::of_key(packed_key(intermediate, control)) {
            Some(code) => Esc::Code(code),
            None => Esc::Unspecified { intermediate, control },
        }
    }

    /// The byte pair of this sequence: for a code the pair that the table
    /// gives, else the pair that is stored.
    pub open spec fn bytes(self) -> (Option<u8>, u8) {
        match self {
            Esc::Code(code) => code.bytes(),
            Esc::Unspecified { intermediate, control } => (intermediate, control),
        }
    }

    /// The bytes that this sequence is written as.
    pub open spec fn encoding(self) -> Seq<u8> {
        wire(self.bytes().0, self.bytes().1)
    }

    /// Reads the byte pair that followed the marker byte.  Every pair is
    /// read; one without a name comes back as `Unspecified`, unchanged.
    pub fn parse(intermediate: Option<u8>, control: u8) -> (esc: Esc)
        ensures
            esc == Esc::parsed(intermediate, control),
    {
        match Esc::internal_parse(intermediate, control) {
            Ok(esc) => esc,
            Err(_) => Esc::Unspecified { intermediate, control },
        }
    }

    fn internal_parse(intermediate: Option<u8>, control: u8) -> (found: Result<Esc, ()>)
        ensures
            found == match EscCode::of_key(packed_key(intermediate, control)) {
                Some(code) => Ok::<Esc, ()>(Esc::Code(code)),
                None => Err::<Esc, ()>(()),
            },
    {
        let packed = pack(intermediate, control);
        match EscCode::from_u16(packed) {
            Some(code) => Ok(Esc::Code(code)),
            None => Err(()),
        }
    }

    /// Appends the bytes of this sequence to `w`: the marker byte, then for a
    /// code the one or two bytes of its key, the high byte first, and for an
    /// unnamed sequence the bytes that it stores.
    pub fn encode_escape(&self, w: &mut Vec<u8>)
        ensures
            final(w)@ == old(w)@ + self.encoding(),
    {
        let (intermediate, control) = match self {
            Esc::Code(code) => unpack(code.to_u16()),
            Esc::Unspecified { intermediate, control } => (*intermediate, *control),
        };
        w.push(ESC);
        if let Some(high) = intermediate {
            w.push(high);
        }
        w.push(control);
    }
}

} // verus!
