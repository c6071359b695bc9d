use sowm::listener::{parse_command, process_payload, Command};
use sowm::messages::{ClientMessage, ServerMessage};

#[test]
fn ack_is_owed_before_any_engine_runs() {
    // No engine exists anywhere in this test: the acknowledgement is a
    // function of the request alone, so a backlogged (or absent) engine
    // cannot delay or change it.
    let start = ClientMessage::Start.serialize().unwrap();
    let (cmd, ack) = process_payload(&start);
    assert_eq!(cmd, Some(ClientMessage::Start));
    assert_eq!(ack, ServerMessage::Okay);

    let stop = ClientMessage::Stop.serialize().unwrap();
    let (cmd, ack) = process_payload(&stop);
    assert_eq!(cmd, Some(ClientMessage::Stop));
    assert_eq!(ack, ServerMessage::Okay);

    let next = ClientMessage::Next.serialize().unwrap();
    let (cmd, ack) = process_payload(&next);
    assert_eq!(cmd, Some(ClientMessage::Next));
    assert_eq!(ack, ServerMessage::Okay);
}

#[test]
fn undecodable_payload_is_acknowledged_invalid() {
    for payload in [&[][..], &[9][..], &[0, 0][..], &[3, 1][..]] {
        let (cmd, ack) = process_payload(payload);
        assert_eq!(cmd, None);
        assert_eq!(ack, ServerMessage::InvalidCommand);
    }
}

#[test]
fn text_commands_take_the_first_word() {
    assert_eq!(parse_command("reset"), Command::Reset);
    assert_eq!(parse_command("stop"), Command::Stop);
    assert_eq!(parse_command("start"), Command::Start);
    assert_eq!(parse_command("start now please"), Command::Start);
    assert_eq!(parse_command("  \t\nreset"), Command::Reset);
}

#[test]
fn words_split_on_any_unicode_white_space() {
    assert_eq!(parse_command("\u{000C}start"), Command::Start);
    assert_eq!(parse_command("\u{000B}stop"), Command::Stop);
    assert_eq!(parse_command("\u{00A0}\u{3000}reset"), Command::Reset);
    assert_eq!(parse_command("start\u{2028}ignored"), Command::Start);
    assert_eq!(parse_command("\u{0085}"), Command::Noop);
}

#[test]
fn unknown_or_blank_text_is_a_noop() {
    assert_eq!(parse_command(""), Command::Noop);
    assert_eq!(parse_command("   \t  "), Command::Noop);
    assert_eq!(parse_command("bogus"), Command::Noop);
    assert_eq!(parse_command("startx"), Command::Noop);
    assert_eq!(parse_command("stopreset"), Command::Noop);
    assert_eq!(parse_command("RESET"), Command::Noop);
}
