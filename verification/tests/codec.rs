use twitch_chat::twitch::decode::{
    decode_frame, decode_line, read_acknowledgment, read_chat, read_color, read_membership,
    read_notice, ChatParts, Fields, ServerMessage,
};
use twitch_chat::twitch::wire::{encode, WireCommand};
use twitch_chat::twitch::Color;

fn text(s: &str) -> String {
    s.to_string()
}

fn bytes_of(command: WireCommand) -> Vec<u8> {
    encode(&vec![command]).expect("the command encodes")
}

#[test]
fn join_puts_the_hash_before_a_bare_channel() {
    assert_eq!(bytes_of(WireCommand::Join { channel: text("museun") }), b"JOIN #museun\r\n");
}

#[test]
fn join_keeps_a_channel_that_has_its_hash() {
    assert_eq!(bytes_of(WireCommand::Join { channel: text("#museun") }), b"JOIN #museun\r\n");
}

#[test]
fn part_encodes_like_join() {
    assert_eq!(bytes_of(WireCommand::Part { channel: text("museun") }), b"PART #museun\r\n");
    assert_eq!(bytes_of(WireCommand::Part { channel: text("#museun") }), b"PART #museun\r\n");
}

#[test]
fn privmsg_carries_channel_and_text() {
    let command = WireCommand::Privmsg { channel: text("#foo"), data: text("hi there") };
    assert_eq!(bytes_of(command), b"PRIVMSG #foo :hi there\r\n");
}

#[test]
fn privmsg_encodes_text_as_utf8() {
    let command = WireCommand::Privmsg { channel: text("foo"), data: text("h\u{e9}") };
    assert_eq!(bytes_of(command), "PRIVMSG #foo :h\u{e9}\r\n".as_bytes());
}

#[test]
fn pong_echoes_the_token() {
    assert_eq!(bytes_of(WireCommand::Pong { token: text("1234567890") }), b"PONG :1234567890\r\n");
}

#[test]
fn quit_is_a_bare_line() {
    assert_eq!(bytes_of(WireCommand::Quit), b"QUIT\r\n");
}

#[test]
fn register_asks_for_all_capabilities_then_logs_in() {
    let command = WireCommand::Register { name: text("bob"), oauth: text("oauth:abc") };
    assert_eq!(
        bytes_of(command),
        b"CAP REQ twitch.tv/commands\r\nCAP REQ twitch.tv/membership\r\nCAP REQ twitch.tv/tags\r\nPASS oauth:abc\r\nNICK bob\r\n"
    );
}

#[test]
fn a_batch_is_one_write_in_order() {
    let batch = vec![
        WireCommand::Join { channel: text("x") },
        WireCommand::Join { channel: text("#y") },
        WireCommand::Pong { token: text("t") },
    ];
    assert_eq!(encode(&batch).unwrap(), b"JOIN #x\r\nJOIN #y\r\nPONG :t\r\n");
}

#[test]
fn an_empty_batch_is_no_bytes() {
    assert_eq!(encode(&Vec::new()).unwrap(), b"");
}

#[test]
fn ping_decodes_with_its_token() {
    match decode_frame("PING :1234567890") {
        ServerMessage::Ping { token } => assert_eq!(token, "1234567890"),
        other => panic!("not a ping: {other:?}"),
    }
}

#[test]
fn ping_without_a_token_is_ignored() {
    assert!(matches!(decode_frame("PING"), ServerMessage::Ignored));
}

#[test]
fn ready_decodes_with_the_login_name() {
    match decode_frame(":tmi.twitch.tv 376 museun :>") {
        ServerMessage::Ready { name } => assert_eq!(name, "museun"),
        other => panic!("not a ready: {other:?}"),
    }
}

#[test]
fn reconnect_decodes() {
    assert!(matches!(decode_frame(":tmi.twitch.tv RECONNECT"), ServerMessage::Reconnect));
}

#[test]
fn login_failure_notice_decodes() {
    let frame = ":tmi.twitch.tv NOTICE * :Login authentication failed";
    assert!(matches!(decode_frame(frame), ServerMessage::AuthenticationFailed));
}

#[test]
fn another_notice_is_ignored() {
    let frame = ":tmi.twitch.tv NOTICE * :Improperly formatted auth";
    assert!(matches!(decode_frame(frame), ServerMessage::Ignored));
}

#[test]
fn a_notice_without_a_target_is_ignored() {
    let frame = ":tmi.twitch.tv NOTICE :Login authentication failed";
    assert!(matches!(decode_frame(frame), ServerMessage::Ignored));
}

#[test]
fn global_user_state_decodes_with_color_and_id() {
    let frame = "@badge-info=;badges=premium/1;color=#008000;display-name=museun;user-id=23196011;user-type= :tmi.twitch.tv GLOBALUSERSTATE";
    match decode_frame(frame) {
        ServerMessage::CapabilityReady { color, user_id } => {
            assert_eq!(color, Color(0x00, 0x80, 0x00));
            assert_eq!(user_id, "23196011");
        }
        other => panic!("not a capability-ready: {other:?}"),
    }
}

#[test]
fn global_user_state_without_color_is_white() {
    let frame = "@color=;user-id=7 :tmi.twitch.tv GLOBALUSERSTATE";
    match decode_frame(frame) {
        ServerMessage::CapabilityReady { color, user_id } => {
            assert_eq!(color, Color(0xFF, 0xFF, 0xFF));
            assert_eq!(user_id, "7");
        }
        other => panic!("not a capability-ready: {other:?}"),
    }
}

#[test]
fn global_user_state_without_an_id_is_ignored() {
    let frame = "@color=#008000 :tmi.twitch.tv GLOBALUSERSTATE";
    assert!(matches!(decode_frame(frame), ServerMessage::Ignored));
}

#[test]
fn privmsg_decodes_to_a_chat_line() {
    let frame = "@color=#FF0000;user-id=99 :alice!alice@alice.tmi.twitch.tv PRIVMSG #foo :hello world";
    match decode_frame(frame) {
        ServerMessage::Chat { color, user_id, sender, channel, data } => {
            assert_eq!(color, Color(0xFF, 0x00, 0x00));
            assert_eq!(user_id, "99");
            assert_eq!(sender, "alice");
            assert_eq!(channel, "#foo");
            assert_eq!(data, "hello world");
        }
        other => panic!("not a chat line: {other:?}"),
    }
}

#[test]
fn privmsg_from_a_server_prefix_is_ignored() {
    let frame = "@user-id=99 :tmi.twitch.tv PRIVMSG #foo :hello world";
    assert!(matches!(decode_frame(frame), ServerMessage::Ignored));
}

#[test]
fn privmsg_without_a_user_id_is_ignored() {
    let frame = ":alice!alice@alice.tmi.twitch.tv PRIVMSG #foo :hello world";
    assert!(matches!(decode_frame(frame), ServerMessage::Ignored));
}

#[test]
fn join_decodes_with_who_and_where() {
    match decode_frame(":bob!bob@bob.tmi.twitch.tv JOIN #foo") {
        ServerMessage::Joined { who, channel } => {
            assert_eq!(who.as_deref(), Some("bob"));
            assert_eq!(channel, "#foo");
        }
        other => panic!("not a join: {other:?}"),
    }
}

#[test]
fn part_decodes_with_who_and_where() {
    match decode_frame(":bob!bob@bob.tmi.twitch.tv PART #foo") {
        ServerMessage::Parted { who, channel } => {
            assert_eq!(who.as_deref(), Some("bob"));
            assert_eq!(channel, "#foo");
        }
        other => panic!("not a part: {other:?}"),
    }
}

#[test]
fn tagged_user_state_is_an_acknowledgment_for_its_channel() {
    let frame = "@badge-info=;color=#008000;id=abc-123;mod=0 :tmi.twitch.tv USERSTATE #foo";
    match decode_frame(frame) {
        ServerMessage::Acknowledged { channel } => assert_eq!(channel, "#foo"),
        other => panic!("not an acknowledgment: {other:?}"),
    }
}

#[test]
fn user_state_without_a_message_id_is_ignored() {
    let frame = "@badge-info=;color=#008000;mod=0 :tmi.twitch.tv USERSTATE #foo";
    assert!(matches!(decode_frame(frame), ServerMessage::Ignored));
}

#[test]
fn a_known_command_the_session_never_reads_is_ignored() {
    assert!(matches!(decode_frame(":tmi.twitch.tv ROOMSTATE #foo"), ServerMessage::Ignored));
    assert!(matches!(decode_frame(":tmi.twitch.tv CAP * ACK :twitch.tv/tags"), ServerMessage::Ignored));
    assert!(matches!(decode_frame("CAP :x"), ServerMessage::Ignored));
}

#[test]
fn a_frame_that_does_not_parse_is_ignored() {
    assert!(matches!(decode_frame(":tmi.twitch.tv "), ServerMessage::Ignored));
    assert!(matches!(decode_frame(""), ServerMessage::Ignored));
}

#[test]
fn a_line_is_one_message() {
    let messages = decode_line("PING :tmi.twitch.tv\r\n");
    assert_eq!(messages.len(), 1);
    assert!(matches!(&messages[0], ServerMessage::Ping { token } if token == "tmi.twitch.tv"));
}

#[test]
fn a_line_may_batch_messages() {
    let messages = decode_line("PING :1\r\n:tmi.twitch.tv RECONNECT\r\nPING :2\r\n");
    assert_eq!(messages.len(), 3);
    assert!(matches!(&messages[0], ServerMessage::Ping { token } if token == "1"));
    assert!(matches!(&messages[1], ServerMessage::Reconnect));
    assert!(matches!(&messages[2], ServerMessage::Ping { token } if token == "2"));
}

#[test]
fn a_bad_message_does_not_hide_the_rest_of_the_line() {
    let messages = decode_line("PING :1\r\n:tmi.twitch.tv \r\nPING :2\r\n");
    assert_eq!(messages.len(), 3);
    assert!(matches!(&messages[0], ServerMessage::Ping { token } if token == "1"));
    assert!(matches!(&messages[1], ServerMessage::Ignored));
    assert!(matches!(&messages[2], ServerMessage::Ping { token } if token == "2"));
}

#[test]
fn blank_lines_hold_no_message() {
    assert!(decode_line("").is_empty());
    assert!(decode_line("\r\n").is_empty());
    assert!(decode_line("\n").is_empty());
}

#[test]
fn a_trailing_blank_ends_the_line() {
    assert_eq!(decode_line("PING :1\r\n\r\n").len(), 1);
    assert_eq!(decode_line("PING :1\r\n\n").len(), 1);
}

#[test]
fn a_line_without_its_end_is_one_message() {
    let messages = decode_line("PING :1");
    assert_eq!(messages.len(), 1);
    assert!(matches!(&messages[0], ServerMessage::Ping { token } if token == "1"));
}

#[test]
fn text_beyond_ascii_is_cut_at_characters() {
    let line = "@user-id=1 :a!a@a PRIVMSG #f\u{fc} :gr\u{fc}\u{df}e\r\nPING :\u{2603}\r\n";
    let messages = decode_line(line);
    assert_eq!(messages.len(), 2);
    assert!(matches!(&messages[0], ServerMessage::Chat { channel, data, .. }
        if channel == "#f\u{fc}" && data == "gr\u{fc}\u{df}e"));
    assert!(matches!(&messages[1], ServerMessage::Ping { token } if token == "\u{2603}"));
}

#[test]
fn colors_read_with_and_without_the_hash() {
    assert_eq!(read_color(&Some(text("#ff00ff"))), Some(Color(0xFF, 0x00, 0xFF)));
    assert_eq!(read_color(&Some(text("abcdef"))), Some(Color(0xAB, 0xCD, 0xEF)));
    assert_eq!(read_color(&Some(text("123456"))), Some(Color(0x12, 0x34, 0x56)));
}

#[test]
fn colors_that_do_not_read_are_none() {
    assert_eq!(read_color(&None), None);
    assert_eq!(read_color(&Some(text(""))), None);
    assert_eq!(read_color(&Some(text("#ff00"))), None);
    assert_eq!(read_color(&Some(text("#gg00ff"))), None);
}

#[test]
fn a_color_of_seven_bytes_with_a_wide_first_character_is_none() {
    assert_eq!(read_color(&Some(text("\u{e9}12345"))), None);
}

#[test]
fn a_notice_is_read_by_its_text() {
    assert!(matches!(
        read_notice(&text("Login authentication failed")),
        ServerMessage::AuthenticationFailed
    ));
    assert!(matches!(
        read_notice(&text("Login authentication failed.")),
        ServerMessage::Ignored
    ));
    assert!(matches!(read_notice(&text("")), ServerMessage::Ignored));
}

#[test]
fn a_chat_line_is_read_where_it_has_a_user_id() {
    let chat = ChatParts {
        user_id: Some(text("5")),
        sender: text("alice"),
        channel: text("#foo"),
        data: text("hello"),
    };
    assert!(matches!(
        read_chat(chat, Some(Color(1, 2, 3))),
        ServerMessage::Chat { color: Color(1, 2, 3), user_id, sender, channel, data }
            if user_id == "5" && sender == "alice" && channel == "#foo" && data == "hello"
    ));
    let plain = ChatParts {
        user_id: Some(text("5")),
        sender: text("alice"),
        channel: text("#foo"),
        data: text("hello"),
    };
    assert!(matches!(
        read_chat(plain, None),
        ServerMessage::Chat { color: Color(255, 255, 255), .. }
    ));
    let nameless = ChatParts {
        user_id: None,
        sender: text("alice"),
        channel: text("#foo"),
        data: text("hello"),
    };
    assert!(matches!(read_chat(nameless, Some(Color(1, 2, 3))), ServerMessage::Ignored));
}

#[test]
fn an_acknowledgment_names_the_channel_in_its_last_argument() {
    let two = Fields { command: None, sender: None, args: vec![text("first"), text("#last")] };
    assert!(matches!(
        read_acknowledgment(&Some(two)),
        ServerMessage::Acknowledged { channel } if channel == "#last"
    ));
    let none = Fields { command: None, sender: None, args: vec![] };
    assert!(matches!(read_acknowledgment(&Some(none)), ServerMessage::Ignored));
    assert!(matches!(read_acknowledgment(&None), ServerMessage::Ignored));
}

#[test]
fn joins_and_parts_are_read_by_their_command_word() {
    let join = Fields {
        command: Some(text("JOIN")),
        sender: Some(text("bob")),
        args: vec![text("#foo"), text("#bar")],
    };
    assert!(matches!(
        read_membership(&Some(join)),
        ServerMessage::Joined { who: Some(who), channel } if who == "bob" && channel == "#foo"
    ));
    let part = Fields { command: Some(text("PART")), sender: None, args: vec![text("#foo")] };
    assert!(matches!(
        read_membership(&Some(part)),
        ServerMessage::Parted { who: None, channel } if channel == "#foo"
    ));
    let bare = Fields { command: Some(text("JOIN")), sender: Some(text("bob")), args: vec![] };
    assert!(matches!(read_membership(&Some(bare)), ServerMessage::Ignored));
    let other = Fields { command: Some(text("MODE")), sender: None, args: vec![text("#foo")] };
    assert!(matches!(read_membership(&Some(other)), ServerMessage::Ignored));
    let known = Fields { command: None, sender: None, args: vec![text("#foo")] };
    assert!(matches!(read_membership(&Some(known)), ServerMessage::Ignored));
    assert!(matches!(read_membership(&None), ServerMessage::Ignored));
}

#[test]
fn odd_lines_decode_to_something_or_nothing() {
    let lines = [
        "@",
        "@ ",
        "@a",
        "@a=b",
        "@a=b ",
        ":",
        ": ",
        ":x",
        ":x!y",
        ":x!y PRIVMSG",
        " ",
        " :",
        "99999",
        "001",
        "\r",
        "\r\n\r\n",
        "\n\n",
        "CAP :x\r\nPING :1\r\n",
        "HOSTTARGET #a :- \r\n",
        "@color=\u{e9}12345;user-id=1 :a!a@a PRIVMSG #c :x\r\n",
        "@color=+12345;user-id=1 :a!a@a PRIVMSG #c :x\r\n",
        "@id=\\ :tmi.twitch.tv USERSTATE\r\n",
        "PRIVMSG\u{2028}#a :b\r\n",
    ];
    for line in lines {
        for message in decode_line(line) {
            let shown = format!("{message:?}");
            assert!(!shown.is_empty());
        }
    }
    let wide = decode_line("@color=\u{e9}12345;user-id=1 :a!a@a PRIVMSG #c :x\r\n");
    assert!(matches!(&wide[..], [ServerMessage::Chat { color, .. }] if *color == Color(255, 255, 255)));
    let after_cap = decode_line("CAP :x\r\nPING :1\r\n");
    assert!(matches!(&after_cap[..], [ServerMessage::Ignored, ServerMessage::Ping { .. }]));
}
