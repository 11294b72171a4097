use mapping_parser::{Axis, AxisRange, Button, Error, ErrorKind, Parser, Token};

const GUID: &str = "030000004c050000c405000000010000";

fn guid_value() -> u128 {
    uuid::Uuid::parse_str(GUID).unwrap().as_u128()
}

/// Consumes the identifier and name tokens of a well-formed line.
fn skip_header(p: &mut Parser) {
    assert!(matches!(p.next_token(), Some(Ok(Token::Uuid(_)))));
    assert!(matches!(p.next_token(), Some(Ok(Token::Name(_)))));
}

#[test]
fn full_line() {
    let line = format!("{},PS4 Controller,a:b1,leftx:a0,platform:Mac OS X", GUID);
    let mut p = Parser::new(&line);
    let g = guid_value();
    assert!(matches!(p.next_token(), Some(Ok(Token::Uuid(v))) if v == g));
    assert!(matches!(p.next_token(), Some(Ok(Token::Name(n))) if n == "PS4 Controller"));
    assert!(matches!(
        p.next_token(),
        Some(Ok(Token::ButtonMapping { from: 1, to: Button::South }))
    ));
    assert!(matches!(
        p.next_token(),
        Some(Ok(Token::AxisMapping {
            from: 0,
            to: Axis::LeftStickX,
            input: AxisRange::Full,
            output: AxisRange::Full,
            inverted: false,
        }))
    ));
    assert!(matches!(p.next_token(), Some(Ok(Token::Platform(s))) if s == "Mac OS X"));
    assert!(p.next_token().is_none());
    assert!(p.next_token().is_none());
}

#[test]
fn hyphenated_guid_accepted() {
    let line = "550e8400-e29b-41d4-a716-446655440000,Pad,a:b0";
    let mut p = Parser::new(line);
    let g = uuid::Uuid::parse_str("550e8400-e29b-41d4-a716-446655440000")
        .unwrap()
        .as_u128();
    assert!(matches!(p.next_token(), Some(Ok(Token::Uuid(v))) if v == g));
}

#[test]
fn invalid_guid_is_fatal() {
    let line = "not a guid,Name,a:b0";
    let mut p = Parser::new(line);
    match p.next_token() {
        Some(Err(e)) => assert_eq!(e, Error::new(ErrorKind::InvalidGuid, 0)),
        other => panic!("expected InvalidGuid, got {:?}", other),
    }
    for _ in 0..3 {
        match p.next_token() {
            Some(Err(e)) => {
                assert_eq!(e.kind, ErrorKind::InvalidParserState);
                assert_eq!(e.position, 0);
            }
            other => panic!("expected InvalidParserState, got {:?}", other),
        }
    }
}

#[test]
fn guid_only_line_yields_unexpected_end() {
    let mut p = Parser::new(GUID);
    match p.next_token() {
        Some(Err(e)) => {
            assert_eq!(e.kind, ErrorKind::UnexpectedEnd);
            assert_eq!(e.position, 0);
        }
        other => panic!("expected UnexpectedEnd, got {:?}", other),
    }
    for _ in 0..3 {
        match p.next_token() {
            Some(Err(e)) => assert_eq!(e.kind, ErrorKind::InvalidParserState),
            other => panic!("expected InvalidParserState, got {:?}", other),
        }
    }
}

#[test]
fn empty_line_yields_nothing() {
    let mut p = Parser::new("");
    assert!(p.next_token().is_none());
}

#[test]
fn empty_name_accepted() {
    let line = format!("{},,a:b2", GUID);
    let mut p = Parser::new(&line);
    assert!(matches!(p.next_token(), Some(Ok(Token::Uuid(_)))));
    assert!(matches!(p.next_token(), Some(Ok(Token::Name(n))) if n == ""));
    assert!(matches!(
        p.next_token(),
        Some(Ok(Token::ButtonMapping { from: 2, to: Button::South }))
    ));
}

#[test]
fn name_taken_verbatim() {
    let line = format!("{},We:ird N@me!,a:b0", GUID);
    let mut p = Parser::new(&line);
    assert!(matches!(p.next_token(), Some(Ok(Token::Uuid(_)))));
    assert!(matches!(p.next_token(), Some(Ok(Token::Name(n))) if n == "We:ird N@me!"));
}

#[test]
fn pair_without_colon_is_field_local() {
    let line = format!("{},Name,junk,a:b3", GUID);
    let mut p = Parser::new(&line);
    skip_header(&mut p);
    let at = line.find(",junk").unwrap() + 1;
    match p.next_token() {
        Some(Err(e)) => {
            assert_eq!(e.kind, ErrorKind::InvalidKeyValPair);
            assert_eq!(e.position, at);
        }
        other => panic!("expected InvalidKeyValPair, got {:?}", other),
    }
    assert!(matches!(
        p.next_token(),
        Some(Ok(Token::ButtonMapping { from: 3, to: Button::South }))
    ));
    assert!(p.next_token().is_none());
}

#[test]
fn pair_with_two_colons_is_field_local() {
    let line = format!("{},Name,a:b:c,b:b4", GUID);
    let mut p = Parser::new(&line);
    skip_header(&mut p);
    match p.next_token() {
        Some(Err(e)) => assert_eq!(e.kind, ErrorKind::InvalidKeyValPair),
        other => panic!("expected InvalidKeyValPair, got {:?}", other),
    }
    assert!(matches!(
        p.next_token(),
        Some(Ok(Token::ButtonMapping { from: 4, to: Button::East }))
    ));
}

#[test]
fn platform_value_passed_through() {
    let line = format!("{},Name,platform:foo", GUID);
    let mut p = Parser::new(&line);
    skip_header(&mut p);
    assert!(matches!(p.next_token(), Some(Ok(Token::Platform(s))) if s == "foo"));
    assert!(p.next_token().is_none());
}

#[test]
fn platform_with_second_colon_rejected() {
    let line = format!("{},Name,platform:a:b", GUID);
    let mut p = Parser::new(&line);
    skip_header(&mut p);
    match p.next_token() {
        Some(Err(e)) => assert_eq!(e.kind, ErrorKind::InvalidKeyValPair),
        other => panic!("expected InvalidKeyValPair, got {:?}", other),
    }
}

#[test]
fn plain_axis_mapping() {
    let line = format!("{},Name,leftx:a3", GUID);
    let mut p = Parser::new(&line);
    skip_header(&mut p);
    assert!(matches!(
        p.next_token(),
        Some(Ok(Token::AxisMapping {
            from: 3,
            to: Axis::LeftStickX,
            input: AxisRange::Full,
            output: AxisRange::Full,
            inverted: false,
        }))
    ));
}

#[test]
fn axis_mapping_with_all_modifiers() {
    let line = format!("{},Name,+leftx:-a3~", GUID);
    let mut p = Parser::new(&line);
    skip_header(&mut p);
    assert!(matches!(
        p.next_token(),
        Some(Ok(Token::AxisMapping {
            from: 3,
            to: Axis::LeftStickX,
            input: AxisRange::LowerHalf,
            output: AxisRange::UpperHalf,
            inverted: true,
        }))
    ));
}

#[test]
fn axis_mapping_lower_key_upper_value() {
    let line = format!("{},Name,-righty:+a2", GUID);
    let mut p = Parser::new(&line);
    skip_header(&mut p);
    assert!(matches!(
        p.next_token(),
        Some(Ok(Token::AxisMapping {
            from: 2,
            to: Axis::RightStickY,
            input: AxisRange::UpperHalf,
            output: AxisRange::LowerHalf,
            inverted: false,
        }))
    ));
}

#[test]
fn button_mapping() {
    let line = format!("{},Name,a:b5", GUID);
    let mut p = Parser::new(&line);
    skip_header(&mut p);
    assert!(matches!(
        p.next_token(),
        Some(Ok(Token::ButtonMapping { from: 5, to: Button::South }))
    ));
}

#[test]
fn hat_mapping() {
    let line = format!("{},Name,a:h0.2", GUID);
    let mut p = Parser::new(&line);
    skip_header(&mut p);
    assert!(matches!(
        p.next_token(),
        Some(Ok(Token::HatMapping { hat: 0, direction: 2, to: Button::South }))
    ));
}

#[test]
fn unknown_button_key() {
    let line = format!("{},Name,foobar:b1", GUID);
    let mut p = Parser::new(&line);
    skip_header(&mut p);
    let at = line.find(",foobar").unwrap() + 1;
    match p.next_token() {
        Some(Err(e)) => {
            assert_eq!(e.kind, ErrorKind::UnknownButton);
            assert_eq!(e.position, at);
        }
        other => panic!("expected UnknownButton, got {:?}", other),
    }
}

#[test]
fn unknown_axis_key() {
    let line = format!("{},Name,foobar:a1", GUID);
    let mut p = Parser::new(&line);
    skip_header(&mut p);
    match p.next_token() {
        Some(Err(e)) => assert_eq!(e.kind, ErrorKind::UnknownAxis),
        other => panic!("expected UnknownAxis, got {:?}", other),
    }
}

#[test]
fn unknown_value_shape() {
    let line = format!("{},Name,a:q1", GUID);
    let mut p = Parser::new(&line);
    skip_header(&mut p);
    let at = line.find(",a:q1").unwrap() + 1;
    match p.next_token() {
        Some(Err(e)) => {
            assert_eq!(e.kind, ErrorKind::InvalidValue);
            assert_eq!(e.position, at);
        }
        other => panic!("expected InvalidValue, got {:?}", other),
    }
}

#[test]
fn hat_errors_at_field_start() {
    // A missing dot, a bad hat index and a bad direction are all
    // reported at the offset where the field began.
    for v in ["a:h02", "a:h.2", "a:h0.x"] {
        let line = format!("{},Name,{}", GUID, v);
        let mut p = Parser::new(&line);
        skip_header(&mut p);
        let at = line.find(",a:h").unwrap() + 1;
        match p.next_token() {
            Some(Err(e)) => {
                assert_eq!(e.kind, ErrorKind::InvalidValue, "case {}", v);
                assert_eq!(e.position, at, "case {}", v);
            }
            other => panic!("case {}: expected InvalidValue, got {:?}", v, other),
        }
    }
}

#[test]
fn source_id_bounds() {
    let line = format!("{},Name,a:b65535,b:b65536", GUID);
    let mut p = Parser::new(&line);
    skip_header(&mut p);
    assert!(matches!(
        p.next_token(),
        Some(Ok(Token::ButtonMapping { from: 65535, to: Button::South }))
    ));
    match p.next_token() {
        Some(Err(e)) => assert_eq!(e.kind, ErrorKind::InvalidValue),
        other => panic!("expected InvalidValue, got {:?}", other),
    }
}

#[test]
fn source_id_leading_forms() {
    // std's u16 parser accepts a leading plus and leading zeros.
    let line = format!("{},Name,a:b+7,b:b007", GUID);
    let mut p = Parser::new(&line);
    skip_header(&mut p);
    assert!(matches!(
        p.next_token(),
        Some(Ok(Token::ButtonMapping { from: 7, to: Button::South }))
    ));
    assert!(matches!(
        p.next_token(),
        Some(Ok(Token::ButtonMapping { from: 7, to: Button::East }))
    ));
}

#[test]
fn empty_and_tilde_values_rejected() {
    for v in ["a:", "a:a", "a:+a", "a:-a~", "a:b5~", "a:b", "x:"] {
        let line = format!("{},Name,{}", GUID, v);
        let mut p = Parser::new(&line);
        skip_header(&mut p);
        match p.next_token() {
            Some(Err(e)) => assert_eq!(e.kind, ErrorKind::InvalidValue, "case {}", v),
            other => panic!("case {}: expected InvalidValue, got {:?}", v, other),
        }
    }
}

#[test]
fn trailing_comma_ends_line() {
    let line = format!("{},Name,a:b1,", GUID);
    let mut p = Parser::new(&line);
    skip_header(&mut p);
    assert!(matches!(p.next_token(), Some(Ok(Token::ButtonMapping { .. }))));
    assert!(p.next_token().is_none());
}

#[test]
fn empty_pair_field_rejected_then_continues() {
    let line = format!("{},Name,,a:b1", GUID);
    let mut p = Parser::new(&line);
    skip_header(&mut p);
    match p.next_token() {
        Some(Err(e)) => assert_eq!(e.kind, ErrorKind::InvalidKeyValPair),
        other => panic!("expected InvalidKeyValPair, got {:?}", other),
    }
    assert!(matches!(
        p.next_token(),
        Some(Ok(Token::ButtonMapping { from: 1, to: Button::South }))
    ));
}

#[test]
fn every_button_name_resolves() {
    let cases: [(&str, Button); 19] = [
        ("a", Button::South),
        ("b", Button::East),
        ("back", Button::Select),
        ("c", Button::C),
        ("dpdown", Button::DPadDown),
        ("dpleft", Button::DPadLeft),
        ("dpright", Button::DPadRight),
        ("dpup", Button::DPadUp),
        ("guide", Button::Mode),
        ("leftshoulder", Button::LeftTrigger),
        ("leftstick", Button::LeftThumb),
        ("lefttrigger", Button::LeftTrigger2),
        ("rightshoulder", Button::RightTrigger),
        ("rightstick", Button::RightThumb),
        ("righttrigger", Button::RightTrigger2),
        ("start", Button::Start),
        ("x", Button::West),
        ("y", Button::North),
        ("z", Button::Z),
    ];
    for (name, want) in cases {
        let line = format!("{},Name,{}:b1", GUID, name);
        let mut p = Parser::new(&line);
        skip_header(&mut p);
        match p.next_token() {
            Some(Ok(Token::ButtonMapping { from: 1, to })) => assert_eq!(to, want, "{}", name),
            other => panic!("{}: expected ButtonMapping, got {:?}", name, other),
        }
    }
}

#[test]
fn every_axis_name_resolves() {
    let cases: [(&str, Axis); 10] = [
        ("leftshoulder", Axis::LeftTrigger),
        ("lefttrigger", Axis::LeftTrigger2),
        ("leftx", Axis::LeftStickX),
        ("lefty", Axis::LeftStickY),
        ("leftz", Axis::LeftZ),
        ("rightshoulder", Axis::RightTrigger),
        ("righttrigger", Axis::RightTrigger2),
        ("rightx", Axis::RightStickX),
        ("righty", Axis::RightStickY),
        ("rightz", Axis::RightZ),
    ];
    for (name, want) in cases {
        let line = format!("{},Name,{}:a1", GUID, name);
        let mut p = Parser::new(&line);
        skip_header(&mut p);
        match p.next_token() {
            Some(Ok(Token::AxisMapping { from: 1, to, .. })) => assert_eq!(to, want, "{}", name),
            other => panic!("{}: expected AxisMapping, got {:?}", name, other),
        }
    }
}

#[test]
fn near_miss_names_rejected() {
    for name in ["aa", "ba", "lefty2", "dp", "righttriggerx", "LEFTX", ""] {
        let line = format!("{},Name,{}:b1", GUID, name);
        let mut p = Parser::new(&line);
        skip_header(&mut p);
        match p.next_token() {
            Some(Err(e)) => assert_eq!(e.kind, ErrorKind::UnknownButton, "{}", name),
            other => panic!("{}: expected UnknownButton, got {:?}", name, other),
        }
    }
}

#[test]
fn hat_key_resolved_against_button_table() {
    let line = format!("{},Name,leftx:h0.4", GUID);
    let mut p = Parser::new(&line);
    skip_header(&mut p);
    // `leftx` names an axis, not a button, and a hat key needs a button.
    match p.next_token() {
        Some(Err(e)) => assert_eq!(e.kind, ErrorKind::UnknownButton),
        other => panic!("expected UnknownButton, got {:?}", other),
    }
}

#[test]
fn error_descriptions() {
    let cases = [
        (ErrorKind::InvalidGuid, "GUID is invalid"),
        (ErrorKind::InvalidKeyValPair, "expected key value pair"),
        (ErrorKind::InvalidValue, "value is not valid"),
        (ErrorKind::UnknownAxis, "invalid axis name"),
        (ErrorKind::UnknownButton, "invalid button name"),
        (
            ErrorKind::InvalidParserState,
            "attempt to parse after unrecoverable error",
        ),
        (
            ErrorKind::UnexpectedEnd,
            "mapping does not have all required fields",
        ),
    ];
    for (kind, text) in cases {
        assert_eq!(Error::new(kind, 7).description(), text);
        assert_eq!(Error::new(kind, 7), Error { position: 7, kind });
    }
}
