use moix::chat::{auth_lines, is_quit_key, parse_privmsg, ChatLog};

#[test]
fn privmsg_is_split_into_channel_and_text() {
    let line = ":nick!nick@nick.tmi.twitch.tv PRIVMSG #moixllik :hello there";
    assert_eq!(
        parse_privmsg(line),
        Some(("moixllik".to_string(), "hello there".to_string()))
    );
}

#[test]
fn message_text_keeps_later_separators() {
    assert_eq!(
        parse_privmsg("PRIVMSG #chan :a :b"),
        Some(("chan".to_string(), "a :b".to_string()))
    );
}

#[test]
fn other_lines_are_not_messages() {
    assert_eq!(parse_privmsg("PING :tmi.twitch.tv"), None);
    assert_eq!(parse_privmsg("PRIVMSG #chan without text"), None);
    assert_eq!(parse_privmsg(""), None);
}

#[test]
fn log_keeps_messages_in_order() {
    let mut log = ChatLog::new();
    assert!(log.receive("x PRIVMSG #a :one"));
    assert!(!log.receive("PING :server"));
    assert!(log.receive("y PRIVMSG #b :two"));
    assert_eq!(
        log.entries,
        vec![
            ("a".to_string(), "one".to_string()),
            ("b".to_string(), "two".to_string())
        ]
    );
}

#[test]
fn login_lines() {
    assert_eq!(
        auth_lines("secret"),
        vec![
            "CAP REQ :twitch.tv/tags twitch.tv/commands twitch.tv/membership".to_string(),
            "PASS secret".to_string(),
            "NICK moixllik".to_string(),
            "JOIN #moixllik".to_string(),
        ]
    );
}

#[test]
fn only_q_quits() {
    assert!(is_quit_key(Some('q')));
    assert!(!is_quit_key(Some('Q')));
    assert!(!is_quit_key(None));
}
