//! What holds of reading and writing together.
use crate::code::{recognized, EscCode};
use crate::esc::{wire, Esc};
use crate::key::packed_key;
use vstd::prelude::*;

verus! {

/// Reading a byte pair and writing the result gives the marker byte and then
/// the pair as it was, named or not.  The one exception is a zero
/// intermediate byte before the control byte of a one-byte code: its key is
/// that of the code alone (see `lemma_zero_intermediate_is_dropped`).
pub proof fn lemma_round_trip(intermediate: Option<u8>, control: u8)
    requires
        !(intermediate == Some(0u8) && recognized(control as int)),
    ensures
        Esc::parsed(intermediate, control).encoding() == wire(intermediate, control),
{
    match EscCode::of_key(packed_key(intermediate, control)) {
        Some(code) => {
            assert(code.key() == packed_key(intermediate, control));
            assert(code.bytes() == (intermediate, control));
        },
        None => {},
    }
}

/// A zero intermediate byte before the control byte of a one-byte code is
/// read as that code, and written without the zero.
pub proof fn lemma_zero_intermediate_is_dropped(control: u8)
    requires
        recognized(control as int),
    ensures
        Esc::parsed(Some(0u8), control) == Esc::parsed(None, control),
        Esc::parsed(Some(0u8), control).encoding() == wire(None, control),
{
    lemma_round_trip(None, control);
}

/// Writing a code and reading the pair that was written gives the code.
pub proof fn lemma_code_parses_back(code: EscCode)
    ensures
        Esc::parsed(code.bytes().0, code.bytes().1) == Esc::Code(code),
        Esc::Code(code).encoding() == wire(code.bytes().0, code.bytes().1),
{
    crate::code::lemma_of_key_inverts_key(code.key(), code);
}

/// A pair that is read as `Unspecified` is stored as it came, and the table
/// holds no code under its key.
pub proof fn lemma_unspecified_is_unrecognized(intermediate: Option<u8>, control: u8)
    requires
        Esc::parsed(intermediate, control) is Unspecified,
    ensures
        Esc::parsed(intermediate, control) == (Esc::Unspecified { intermediate, control }),
        !recognized(packed_key(intermediate, control)),
{
}

/// Reading depends on the byte pair alone: equal pairs are read as equal
/// sequences.
pub proof fn lemma_parse_is_deterministic(
    intermediate: Option<u8>,
    control: u8,
    same_intermediate: Option<u8>,
    same_control: u8,
)
    requires
        intermediate == same_intermediate,
        control == same_control,
    ensures
        Esc::parsed(intermediate, control) == Esc::parsed(same_intermediate, same_control),
{
}

/// Writing depends on the sequence alone: what one value appends to two
/// sinks is the same, whatever each sink held before.
pub proof fn lemma_encoding_is_repeatable(esc: Esc, first_sink: Seq<u8>, second_sink: Seq<u8>)
    ensures
        (first_sink + esc.encoding()).skip(first_sink.len() as int) == (second_sink
            + esc.encoding()).skip(second_sink.len() as int),
        first_sink == second_sink ==> first_sink + esc.encoding() == second_sink + esc.encoding(),
{
    assert((first_sink + esc.encoding()).skip(first_sink.len() as int) =~= esc.encoding());
    assert((second_sink + esc.encoding()).skip(second_sink.len() as int) =~= esc.encoding());
}

} // verus!
