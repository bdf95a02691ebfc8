use telnet_animations::telnet::{
    interpret_subnegotiation, respond_to_option, terminal_type_offer, Action, Negotiator, Phase,
    ProtocolError, DO, DONT, IAC, SB, SE, WILL, WONT,
};

/// Feeds every byte and collects the reactions that call for something.
fn feed_all(n: &mut Negotiator, bytes: &[u8]) -> Result<Vec<Action>, ProtocolError> {
    let mut out = Vec::new();
    for &b in bytes {
        match n.feed(b)? {
            Action::Nothing => {}
            other => out.push(other),
        }
    }
    Ok(out)
}

fn starts(actions: &[Action]) -> usize {
    actions.iter().filter(|a| matches!(a, Action::StartAnimation { .. })).count()
}

#[test]
fn will_terminal_type_asks_for_it() {
    let mut n = Negotiator::new();
    let actions = feed_all(&mut n, &[IAC, WILL, 24]).unwrap();
    assert_eq!(actions.len(), 1);
    match &actions[0] {
        Action::Reply(bytes) => assert_eq!(bytes, &vec![IAC, SB, 24, 1, IAC, SE]),
        other => panic!("unexpected {:?}", other),
    }
    assert_eq!(starts(&actions), 0);
    assert_eq!(n.phase(), Phase::Idle);
}

#[test]
fn terminal_type_report_starts_one_animation() {
    let mut n = Negotiator::new();
    let actions = feed_all(&mut n, &[IAC, SB, 24, 0, b't', b'e', b'r', b'm', IAC, SE]).unwrap();
    assert_eq!(actions.len(), 1);
    assert_eq!(starts(&actions), 1);
    match &actions[0] {
        Action::StartAnimation { terminal_type: Some(name) } => assert_eq!(name, &b"term".to_vec()),
        other => panic!("unexpected {:?}", other),
    }
}

#[test]
fn window_size_is_big_endian() {
    let mut n = Negotiator::new();
    let actions = feed_all(&mut n, &[IAC, SB, 31, 1, 2, 0, 24, IAC, SE]).unwrap();
    assert_eq!(actions.len(), 1);
    assert_eq!(starts(&actions), 0);
    match &actions[0] {
        Action::WindowSize { columns, rows } => {
            assert_eq!(*columns, 258);
            assert_eq!(*rows, 24);
        }
        other => panic!("unexpected {:?}", other),
    }
}

#[test]
fn window_size_of_wrong_length_fails() {
    let mut n = Negotiator::new();
    assert_eq!(
        feed_all(&mut n, &[IAC, SB, 31, 0, 80, 0, IAC, SE]).unwrap_err(),
        ProtocolError::WrongWindowSizeBytes { byte_count: 4 }
    );
    let mut n = Negotiator::new();
    assert_eq!(
        feed_all(&mut n, &[IAC, SB, 31, 0, 80, 0, 24, 7, IAC, SE]).unwrap_err(),
        ProtocolError::WrongWindowSizeBytes { byte_count: 6 }
    );
}

#[test]
fn escaped_iac_in_terminal_type_is_one_byte() {
    let mut n = Negotiator::new();
    let actions = feed_all(&mut n, &[IAC, SB, 24, 0, b'a', IAC, IAC, b'b', IAC, SE]).unwrap();
    assert_eq!(actions.len(), 1);
    match &actions[0] {
        Action::StartAnimation { terminal_type: Some(name) } => assert_eq!(name, &vec![b'a', IAC, b'b']),
        other => panic!("unexpected {:?}", other),
    }
}

#[test]
fn escaped_iac_does_not_end_payload() {
    let mut n = Negotiator::new();
    assert!(feed_all(&mut n, &[IAC, SB, 24, 0, IAC, IAC]).unwrap().is_empty());
    assert_eq!(n.phase(), Phase::Subnegotiation);
}

#[test]
fn unexpected_byte_after_iac_in_subnegotiation_fails() {
    let mut n = Negotiator::new();
    assert_eq!(
        feed_all(&mut n, &[IAC, SB, 24, 0, IAC, 7]).unwrap_err(),
        ProtocolError::UnexpectedSubNegotiationByte { byte: 7 }
    );
}

#[test]
fn empty_subnegotiation_fails() {
    let mut n = Negotiator::new();
    assert_eq!(feed_all(&mut n, &[IAC, SB, IAC, SE]).unwrap_err(), ProtocolError::NoSubNegotiationCommand);
}

#[test]
fn terminal_type_without_subcommand_fails() {
    let mut n = Negotiator::new();
    assert_eq!(
        feed_all(&mut n, &[IAC, SB, 24, IAC, SE]).unwrap_err(),
        ProtocolError::NoTerminalTypeSubNegotiationCommand
    );
}

#[test]
fn terminal_type_with_wrong_subcommand_fails() {
    let mut n = Negotiator::new();
    assert_eq!(
        feed_all(&mut n, &[IAC, SB, 24, 1, IAC, SE]).unwrap_err(),
        ProtocolError::UnexpectedTerminalTypeSubNegotiationCommand { byte: 1 }
    );
}

#[test]
fn unknown_subnegotiation_is_ignored() {
    let mut n = Negotiator::new();
    let actions = feed_all(&mut n, &[IAC, SB, 42, 1, 2, IAC, SE]).unwrap();
    assert_eq!(actions.len(), 1);
    assert!(matches!(actions[0], Action::UnknownSubnegotiation { option: 42 }));
}

#[test]
fn wont_terminal_type_starts_default_animation() {
    let mut n = Negotiator::new();
    let actions = feed_all(&mut n, &[IAC, WONT, 24]).unwrap();
    assert_eq!(actions.len(), 1);
    assert!(matches!(actions[0], Action::StartAnimation { terminal_type: None }));
}

#[test]
fn option_responses() {
    match respond_to_option(DO, 3) {
        Action::Reply(b) => assert_eq!(b, vec![IAC, WONT, 3]),
        other => panic!("unexpected {:?}", other),
    }
    match respond_to_option(WILL, 31) {
        Action::Reply(b) => assert_eq!(b, vec![IAC, DO, 31]),
        other => panic!("unexpected {:?}", other),
    }
    match respond_to_option(WILL, 5) {
        Action::Reply(b) => assert_eq!(b, vec![IAC, DONT, 5]),
        other => panic!("unexpected {:?}", other),
    }
    assert!(matches!(respond_to_option(DONT, 24), Action::Ignored { command: DONT, option: 24 }));
    assert!(matches!(respond_to_option(WONT, 31), Action::Ignored { command: WONT, option: 31 }));
}

#[test]
fn bytes_outside_commands_are_passed_over() {
    let mut n = Negotiator::new();
    assert!(feed_all(&mut n, b"hello").unwrap().is_empty());
    assert!(feed_all(&mut n, &[IAC, 241]).unwrap().is_empty());
    assert_eq!(n.phase(), Phase::Idle);
    let actions = feed_all(&mut n, &[b'x', IAC, DO, 1]).unwrap();
    assert_eq!(actions.len(), 1);
}

#[test]
fn interpret_payload_directly() {
    assert!(matches!(
        interpret_subnegotiation(&vec![31, 0, 80, 0, 25]),
        Ok(Action::WindowSize { columns: 80, rows: 25 })
    ));
    assert_eq!(interpret_subnegotiation(&vec![]).unwrap_err(), ProtocolError::NoSubNegotiationCommand);
}

#[test]
fn offer_asks_for_terminal_type() {
    assert_eq!(terminal_type_offer(), vec![IAC, DO, 24]);
}
