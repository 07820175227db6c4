//! The chat reader: the lines it logs in with, how it picks chat messages out
//! of the server's text, and the log it keeps of them.

use vstd::prelude::*;
use crate::text::{split_once, split_once_spec, concat2, lemma_first_match_from, lemma_first_match_is, occurs_at, first_match};

verus! {

/// The marker that precedes the channel and sender of a chat message.
pub open spec fn privmsg_marker() -> Seq<char> {
    seq!['P', 'R', 'I', 'V', 'M', 'S', 'G', ' ', '#']
}

/// The separator between the channel part and the message text.
pub open spec fn text_separator() -> Seq<char> {
    seq![' ', ':']
}

/// The chat message carried by a server text, if any: what follows the first
/// `PRIVMSG #`, split at its first ` :` into the channel part and the message.
pub open spec fn privmsg_spec(text: Seq<char>) -> Option<(Seq<char>, Seq<char>)> {
    match split_once_spec(text, privmsg_marker()) {
        Some((_, rest)) => split_once_spec(rest, text_separator()),
        None => None,
    }
}

/// The channel part and the text of the chat message in `text`, if it carries one.
pub fn parse_privmsg(text: &str) -> (r: Option<(String, String)>)
    ensures
        match privmsg_spec(text@) {
            Some((a, b)) => r matches Some((x, y)) && x@ == a && y@ == b,
            None => r is None,
        },
{
    let marker = "PRIVMSG #";
    let sep = " :";
    proof {
        reveal_strlit("PRIVMSG #");
        reveal_strlit(" :");
        assert(marker@ =~= privmsg_marker());
        assert(sep@ =~= text_separator());
    }
    match split_once(text, marker) {
        Some((_, msg)) => split_once(msg.as_str(), sep),
        None => None,
    }
}

/// The chat log: (channel part, message) pairs in the order they arrived.
pub struct ChatLog {
    pub entries: Vec<(String, String)>,
}

impl View for ChatLog {
    type V = Seq<(Seq<char>, Seq<char>)>;

    open spec fn view(&self) -> Seq<(Seq<char>, Seq<char>)> {
        self.entries@.map_values(|e: (String, String)| (e.0@, e.1@))
    }
}

impl ChatLog {
    /// An empty log.
    pub fn new() -> (log: ChatLog)
        ensures
            log@ == Seq::<(Seq<char>, Seq<char>)>::empty(),
    {
        let log = ChatLog { entries: Vec::new() };
        assert(log@ =~= Seq::<(Seq<char>, Seq<char>)>::empty());
        log
    }

    /// Takes in one text from the server: a chat message is appended to the log,
    /// any other text leaves it as it was. Says whether a message was appended.
    pub fn receive(&mut self, text: &str) -> (added: bool)
        ensures
            added == privmsg_spec(text@) is Some,
            match privmsg_spec(text@) {
                Some(m) => final(self)@ == old(self)@.push(m),
                None => final(self)@ == old(self)@,
            },
    {
        match parse_privmsg(text) {
            Some(m) => {
                self.entries.push(m);
                assert(self@ =~= old(self)@.push(privmsg_spec(text@).unwrap()));
                true
            },
            None => false,
        }
    }
}

/// The lines sent to the chat server on connecting, in order: the capability
/// request, the password line with `token`, the nick and the channel to join.
pub fn auth_lines(token: &str) -> (lines: Vec<String>)
    ensures
        lines@.len() == 4,
        lines@[0]@ == "CAP REQ :twitch.tv/tags twitch.tv/commands twitch.tv/membership"@,
        lines@[1]@ == "PASS "@ + token@,
        lines@[2]@ == "NICK moixllik"@,
        lines@[3]@ == "JOIN #moixllik"@,
{
    let mut lines: Vec<String> = Vec::new();
    lines.push(String::from_str("CAP REQ :twitch.tv/tags twitch.tv/commands twitch.tv/membership"));
    lines.push(concat2("PASS ", token));
    lines.push(String::from_str("NICK moixllik"));
    lines.push(String::from_str("JOIN #moixllik"));
    lines
}

/// Whether a key press leaves the chat screen: only `q` does.
pub fn is_quit_key(key: Option<char>) -> (quit: bool)
    ensures
        quit == (key == Some('q')),
{
    match key {
        Some(c) => c == 'q',
        None => false,
    }
}

/// A channel part without ` :` followed by ` :` has its first ` :` right after the channel part.
proof fn lemma_separator_after_channel(channel: Seq<char>, tail: Seq<char>)
    requires
        first_match(channel, text_separator()) is None,
    ensures
        first_match(channel + text_separator() + tail, text_separator()) == Some(channel.len() as int),
{
    let sep = text_separator();
    let rest = channel + sep + tail;
    let k = channel.len() as int;
    lemma_first_match_from(channel, sep, 0);
    assert(rest.subrange(k, k + 2) =~= sep);
    assert forall|j: int| 0 <= j < k implies !occurs_at(rest, sep, j) by {
        if j + 2 <= k {
            assert(channel.subrange(j, j + 2) =~= rest.subrange(j, j + 2));
            assert(!occurs_at(channel, sep, j));
        } else {
            assert(rest.subrange(j, j + 2)[1] == rest[k]);
        }
    }
    lemma_first_match_is(rest, sep, k);
}

/// A server line built as `PRIVMSG #` + `channel` + ` :` + `message` is read back
/// as exactly that channel part and message, provided the channel part holds no ` :`.
pub proof fn law_privmsg_roundtrip(channel: Seq<char>, message: Seq<char>)
    requires
        first_match(channel, text_separator()) is None,
    ensures
        privmsg_spec(privmsg_marker() + channel + text_separator() + message) == Some((channel, message)),
{
    let m = privmsg_marker();
    let sep = text_separator();
    let rest = channel + sep + message;
    let line = m + channel + sep + message;
    assert(line =~= m + rest);
    assert(line.subrange(0, m.len() as int) =~= m);
    lemma_first_match_is(line, m, 0);
    assert(line.subrange(m.len() as int, line.len() as int) =~= rest);
    lemma_separator_after_channel(channel, message);
    let k = channel.len() as int;
    assert(rest.subrange(0, k) =~= channel);
    assert(rest.subrange(k + 2, rest.len() as int) =~= message);
}

/// No character of the marker but its first is a `P`.
proof fn lemma_marker_one_p(a: int)
    requires
        0 < a < 9,
    ensures
        privmsg_marker()[a] != 'P',
{
}

/// An occurrence of the marker that starts within the last eight characters of
/// a prefix would need a second `P` where the marker that follows begins.
proof fn lemma_no_straddling_marker(prefix: Seq<char>, tail: Seq<char>, j: int)
    requires
        0 <= j < prefix.len(),
        prefix.len() < j + 9,
    ensures
        !occurs_at(prefix + privmsg_marker() + tail, privmsg_marker(), j),
{
    let m = privmsg_marker();
    let line = prefix + m + tail;
    let p = prefix.len() as int;
    let a = p - j;
    if occurs_at(line, m, j) {
        assert(line.subrange(j, j + 9)[a] == line[p]);
        assert(line[p] == m[0]);
        lemma_marker_one_p(a);
    }
}

/// The marker cannot start inside a prefix that holds no marker: after such a
/// prefix, the first marker is the one that follows it.
proof fn lemma_marker_after_prefix(prefix: Seq<char>, tail: Seq<char>)
    requires
        first_match(prefix, privmsg_marker()) is None,
    ensures
        first_match(prefix + privmsg_marker() + tail, privmsg_marker()) == Some(prefix.len() as int),
{
    let m = privmsg_marker();
    let line = prefix + m + tail;
    let p = prefix.len() as int;
    lemma_first_match_from(prefix, m, 0);
    assert(line.subrange(p, p + 9) =~= m);
    assert forall|j: int| 0 <= j < p implies !occurs_at(line, m, j) by {
        if j + 9 <= p {
            assert(prefix.subrange(j, j + 9) =~= line.subrange(j, j + 9));
            assert(!occurs_at(prefix, m, j));
        } else {
            lemma_no_straddling_marker(prefix, tail, j);
        }
    }
    lemma_first_match_is(line, m, p);
}

/// Whatever precedes the marker (a server's tags and source, holding no
/// marker of their own), a line `prefix` + `PRIVMSG #` + `channel` + ` :` +
/// `message` reads back as that channel part and message when the channel part
/// holds no ` :`: the separator is looked for only after the marker.
pub proof fn law_privmsg_after_prefix(prefix: Seq<char>, channel: Seq<char>, message: Seq<char>)
    requires
        first_match(prefix, privmsg_marker()) is None,
        first_match(channel, text_separator()) is None,
    ensures
        privmsg_spec(prefix + privmsg_marker() + channel + text_separator() + message) == Some((channel, message)),
{
    let m = privmsg_marker();
    let sep = text_separator();
    let rest = channel + sep + message;
    let line = prefix + m + channel + sep + message;
    assert(line =~= prefix + m + rest);
    lemma_marker_after_prefix(prefix, rest);
    let p = prefix.len() as int;
    assert(line.subrange(p + m.len(), line.len() as int) =~= rest);
    lemma_separator_after_channel(channel, message);
    let k = channel.len() as int;
    assert(rest.subrange(0, k) =~= channel);
    assert(rest.subrange(k + 2, rest.len() as int) =~= message);
}

} // verus!
