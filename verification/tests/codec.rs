use esc_codec::code::EscCode;
use esc_codec::esc::{Esc, ESC};
use esc_codec::key::{pack, unpack};

const ALL_CODES: [EscCode; 31] = [
    EscCode::FullReset,
    EscCode::Index,
    EscCode::NextLine,
    EscCode::CursorPositionLowerLeft,
    EscCode::HorizontalTabSet,
    EscCode::ReverseIndex,
    EscCode::SingleShiftG2,
    EscCode::SingleShiftG3,
    EscCode::StartOfGuardedArea,
    EscCode::EndOfGuardedArea,
    EscCode::StartOfString,
    EscCode::ReturnTerminalId,
    EscCode::StringTerminator,
    EscCode::PrivacyMessage,
    EscCode::ApplicationProgramCommand,
    EscCode::DecSaveCursorPosition,
    EscCode::DecRestoreCursorPosition,
    EscCode::DecApplicationKeyPad,
    EscCode::DecNormalKeyPad,
    EscCode::DecLineDrawing,
    EscCode::AsciiCharacterSet,
    EscCode::ApplicationModeArrowUpPress,
    EscCode::ApplicationModeArrowDownPress,
    EscCode::ApplicationModeArrowRightPress,
    EscCode::ApplicationModeArrowLeftPress,
    EscCode::ApplicationModeHomePress,
    EscCode::ApplicationModeEndPress,
    EscCode::F1Press,
    EscCode::F2Press,
    EscCode::F3Press,
    EscCode::F4Press,
];

fn encode_bytes(esc: &Esc) -> Vec<u8> {
    let mut res = Vec::new();
    esc.encode_escape(&mut res);
    res
}

fn encode(osc: &Esc) -> String {
    String::from_utf8(encode_bytes(osc)).unwrap()
}

fn parse(esc: &str) -> Esc {
    let result = if esc.len() == 1 {
        Esc::parse(None, esc.as_bytes()[0])
    } else {
        Esc::parse(Some(esc.as_bytes()[0]), esc.as_bytes()[1])
    };

    assert_eq!(encode(&result), format!("\x1b{}", esc));

    result
}

fn is_one_byte_code(control: u8) -> bool {
    ALL_CODES.iter().any(|code| code.to_u16() == control as u16)
}

#[test]
fn test() {
    assert_eq!(parse("(0"), Esc::Code(EscCode::DecLineDrawing));
    assert_eq!(parse("(B"), Esc::Code(EscCode::AsciiCharacterSet));
}

#[test]
fn known_mappings() {
    assert_eq!(Esc::parse(Some(b'('), b'0'), Esc::Code(EscCode::DecLineDrawing));
    assert_eq!(encode_bytes(&Esc::Code(EscCode::DecLineDrawing)), b"\x1b(0".to_vec());
    assert_eq!(Esc::parse(None, b'c'), Esc::Code(EscCode::FullReset));
    assert_eq!(encode_bytes(&Esc::Code(EscCode::FullReset)), b"\x1bc".to_vec());
    assert_eq!(Esc::parse(Some(b'O'), b'P'), Esc::Code(EscCode::F1Press));
    assert_eq!(encode_bytes(&Esc::Code(EscCode::F1Press)), b"\x1bOP".to_vec());
}

#[test]
fn every_code_by_its_characters() {
    let table: [(&str, EscCode); 31] = [
        ("c", EscCode::FullReset),
        ("D", EscCode::Index),
        ("E", EscCode::NextLine),
        ("F", EscCode::CursorPositionLowerLeft),
        ("H", EscCode::HorizontalTabSet),
        ("M", EscCode::ReverseIndex),
        ("N", EscCode::SingleShiftG2),
        ("O", EscCode::SingleShiftG3),
        ("V", EscCode::StartOfGuardedArea),
        ("W", EscCode::EndOfGuardedArea),
        ("X", EscCode::StartOfString),
        ("Z", EscCode::ReturnTerminalId),
        ("\\", EscCode::StringTerminator),
        ("^", EscCode::PrivacyMessage),
        ("_", EscCode::ApplicationProgramCommand),
        ("7", EscCode::DecSaveCursorPosition),
        ("8", EscCode::DecRestoreCursorPosition),
        ("=", EscCode::DecApplicationKeyPad),
        (">", EscCode::DecNormalKeyPad),
        ("(0", EscCode::DecLineDrawing),
        ("(B", EscCode::AsciiCharacterSet),
        ("OA", EscCode::ApplicationModeArrowUpPress),
        ("OB", EscCode::ApplicationModeArrowDownPress),
        ("OC", EscCode::ApplicationModeArrowRightPress),
        ("OD", EscCode::ApplicationModeArrowLeftPress),
        ("OH", EscCode::ApplicationModeHomePress),
        ("OF", EscCode::ApplicationModeEndPress),
        ("OP", EscCode::F1Press),
        ("OQ", EscCode::F2Press),
        ("OR", EscCode::F3Press),
        ("OS", EscCode::F4Press),
    ];
    for (text, code) in table.iter() {
        assert_eq!(parse(text), Esc::Code(*code));
    }
}

#[test]
fn unknown_sequence_is_preserved() {
    let esc = Esc::parse(Some(b'Z'), 0x99);
    assert_eq!(
        esc,
        Esc::Unspecified {
            intermediate: Some(b'Z'),
            control: 0x99
        }
    );
    assert_eq!(encode_bytes(&esc), vec![0x1b, b'Z', 0x99]);
}

#[test]
fn unknown_single_byte_is_preserved() {
    let esc = Esc::parse(None, 0x00);
    assert_eq!(
        esc,
        Esc::Unspecified {
            intermediate: None,
            control: 0x00
        }
    );
    assert_eq!(encode_bytes(&esc), vec![0x1b, 0x00]);
    let esc = Esc::parse(None, 0xff);
    assert_eq!(encode_bytes(&esc), vec![0x1b, 0xff]);
}

#[test]
fn round_trip_of_every_pair() {
    for control in 0..=255u8 {
        let esc = Esc::parse(None, control);
        assert_eq!(encode_bytes(&esc), vec![ESC, control]);
        for intermediate in 0..=255u8 {
            if intermediate == 0 && is_one_byte_code(control) {
                continue;
            }
            let esc = Esc::parse(Some(intermediate), control);
            assert_eq!(encode_bytes(&esc), vec![ESC, intermediate, control]);
        }
    }
}

#[test]
fn zero_intermediate_before_a_one_byte_code() {
    assert_eq!(Esc::parse(Some(0), b'c'), Esc::Code(EscCode::FullReset));
    assert_eq!(encode_bytes(&Esc::parse(Some(0), b'c')), vec![0x1b, b'c']);
    assert_eq!(
        Esc::parse(Some(0), b'a'),
        Esc::Unspecified {
            intermediate: Some(0),
            control: b'a'
        }
    );
    assert_eq!(encode_bytes(&Esc::parse(Some(0), b'a')), vec![0x1b, 0, b'a']);
}

#[test]
fn keys_do_not_collide() {
    for (i, a) in ALL_CODES.iter().enumerate() {
        for (j, b) in ALL_CODES.iter().enumerate() {
            assert_eq!(a.to_u16() == b.to_u16(), i == j);
            assert_eq!(a == b, i == j);
        }
    }
}

#[test]
fn from_u16_inverts_to_u16() {
    for code in ALL_CODES.iter() {
        assert_eq!(EscCode::from_u16(code.to_u16()), Some(*code));
    }
    let mut found = 0;
    for key in 0..=u16::MAX {
        if let Some(code) = EscCode::from_u16(key) {
            assert_eq!(code.to_u16(), key);
            found += 1;
        }
    }
    assert_eq!(found, 31);
}

#[test]
fn exact_keys() {
    assert_eq!(EscCode::FullReset.to_u16(), 0x63);
    assert_eq!(EscCode::StringTerminator.to_u16(), 0x5c);
    assert_eq!(EscCode::DecLineDrawing.to_u16(), 0x2830);
    assert_eq!(EscCode::F4Press.to_u16(), 0x4f53);
    assert_eq!(EscCode::from_u16(0x4f48), Some(EscCode::ApplicationModeHomePress));
    assert_eq!(EscCode::from_u16(0x4f54), None);
    assert_eq!(EscCode::from_u16(0), None);
    assert_eq!(EscCode::from_u16(0x6300), None);
}

#[test]
fn pack_and_unpack() {
    assert_eq!(pack(None, 0x63), 0x0063);
    assert_eq!(pack(Some(0x28), 0x30), 0x2830);
    assert_eq!(pack(Some(0xff), 0xff), 0xffff);
    assert_eq!(pack(Some(0), 0x63), 0x0063);
    assert_eq!(pack(Some(1), 0), 0x0100);
    assert_eq!(unpack(0x0063), (None, 0x63));
    assert_eq!(unpack(0x00ff), (None, 0xff));
    assert_eq!(unpack(0x0100), (Some(1), 0));
    assert_eq!(unpack(0x2830), (Some(0x28), 0x30));
    assert_eq!(unpack(0xffff), (Some(0xff), 0xff));
    for key in 0..=u16::MAX {
        let (intermediate, control) = unpack(key);
        assert_eq!(pack(intermediate, control), key);
    }
}

#[test]
fn encode_appends_to_the_sink() {
    let mut sink = vec![b'a', b'b'];
    Esc::Code(EscCode::Index).encode_escape(&mut sink);
    assert_eq!(sink, vec![b'a', b'b', 0x1b, b'D']);
    Esc::Unspecified {
        intermediate: None,
        control: 0x07,
    }
    .encode_escape(&mut sink);
    assert_eq!(sink, vec![b'a', b'b', 0x1b, b'D', 0x1b, 0x07]);
}

#[test]
fn encode_writes_what_is_stored() {
    let esc = Esc::Unspecified {
        intermediate: None,
        control: b'c',
    };
    assert_eq!(encode_bytes(&esc), vec![0x1b, b'c']);
    let esc = Esc::Unspecified {
        intermediate: Some(0),
        control: b'c',
    };
    assert_eq!(encode_bytes(&esc), vec![0x1b, 0, b'c']);
}

#[test]
fn encoding_twice_gives_the_same_bytes() {
    for code in ALL_CODES.iter() {
        let esc = Esc::Code(*code);
        assert_eq!(encode_bytes(&esc), encode_bytes(&esc));
    }
    let esc = Esc::parse(Some(b'Z'), 0x99);
    let mut first = Vec::new();
    let mut second = vec![1, 2, 3];
    esc.encode_escape(&mut first);
    esc.encode_escape(&mut second);
    assert_eq!(first, vec![0x1b, b'Z', 0x99]);
    assert_eq!(&second[3..], &first[..]);
}

#[test]
fn parsing_twice_gives_equal_values() {
    for control in 0..=255u8 {
        assert_eq!(Esc::parse(None, control), Esc::parse(None, control));
        assert_eq!(Esc::parse(Some(b'O'), control), Esc::parse(Some(b'O'), control));
    }
    assert_eq!(Esc::parse(Some(b'('), b'B').clone(), Esc::Code(EscCode::AsciiCharacterSet));
}
