//! The IRC side of the PS5: the lines its chat shows, and the answers of the
//! built-in IRC service.
use vstd::prelude::*;
use crate::common::channel::DanmuMessage;
use crate::common::error::AppError;
use crate::text::{
    chars_of, dec_nat, has_prefix, join_with, lead_from, push_joined, push_str, push_u64, split_str,
    split_str_ranges, starts_with, string_from_chars, string_of, token_at, trim, trim_range, ws_from,
};

verus! {

/// A danmaku message of the live room, with what is shown of it.
pub enum LiveMessage {
    /// A chat message.
    Danmu { username: String, content: String },
    /// A gift: the verb (`投喂`, ...), the gift and the count.
    Gift { username: String, action: String, gift_name: String, num: u32 },
    /// A gift combo.
    ComboSend { username: String, action: String, combo_num: u32 },
    /// A paid message; `price` as its amount is written.
    SuperChat { username: String, price: String, content: String },
    /// A guard (captain) purchase.
    GuardBuy { username: String, num: u32 },
    /// Likes.
    LikeInfoV3Click { username: String, click_count: u64 },
    /// A guard entered the room.
    WelcomeGuard { username: String },
    /// An entry effect with its text.
    EntryEffect { copy_writing: String },
    /// A viewer entered the room.
    InteractWordV2 { username: String },
    /// Any other kind, not shown.
    Other,
}

/// A chat line from `user` in `channel`, in the Twitch IRC form the PS5 reads.
pub open spec fn irc_line(user: Seq<char>, channel: Seq<char>, text: Seq<char>) -> Seq<char> {
    ":"@ + user + "!"@ + user + "@"@ + user + ".tmi.twitch.tv PRIVMSG "@ + channel + " :"@ + text
        + "\r\n"@
}

/// Builds `irc_line(user, channel, text)`.
pub fn chat_line(user: &str, channel: &str, text: &str) -> (s: String)
    ensures
        s@ == irc_line(user@, channel@, text@),
{
    let mut s = string_of(":");
    push_str(&mut s, user);
    push_str(&mut s, "!");
    push_str(&mut s, user);
    push_str(&mut s, "@");
    push_str(&mut s, user);
    push_str(&mut s, ".tmi.twitch.tv PRIVMSG ");
    push_str(&mut s, channel);
    push_str(&mut s, " :");
    push_str(&mut s, text);
    push_str(&mut s, "\r\n");
    s
}

/// The chat line of a bridge notice.
pub fn notify_line(channel: &str, text: &str) -> (s: String)
    ensures
        s@ == irc_line("PSLinkB"@, channel@, text@),
{
    chat_line("PSLinkB", channel, text)
}

/// The text shown in the PS5 chat for a room message; none for other kinds.
/// An entry effect is shown as from `entry`, the others as from their user.
pub open spec fn danmaku_irc_spec(m: LiveMessage, channel: Seq<char>) -> Option<Seq<char>> {
    match m {
        LiveMessage::Danmu { username, content } => Some(irc_line(username@, channel, content@)),
        LiveMessage::Gift { username, action, gift_name, num } => Some(
            irc_line(username@, channel, action@ + "了 "@ + gift_name@ + " x"@ + dec_nat(num as nat)),
        ),
        LiveMessage::ComboSend { username, action, combo_num } => Some(
            irc_line(username@, channel, action@ + " x"@ + dec_nat(combo_num as nat)),
        ),
        LiveMessage::SuperChat { username, price, content } => Some(
            irc_line(username@, channel, "[SC ¥"@ + price@ + "] "@ + content@),
        ),
        LiveMessage::GuardBuy { username, num } => Some(
            irc_line(username@, channel, "购买了 "@ + dec_nat(num as nat) + " 个舰长"@),
        ),
        LiveMessage::LikeInfoV3Click { username, click_count } => Some(
            irc_line(username@, channel, "点了 "@ + dec_nat(click_count as nat) + " 个赞"@),
        ),
        LiveMessage::WelcomeGuard { username } => Some(
            irc_line(username@, channel, "欢迎进入直播间"@),
        ),
        LiveMessage::EntryEffect { copy_writing } => Some(
            irc_line("entry"@, channel, copy_writing@),
        ),
        LiveMessage::InteractWordV2 { username } => Some(
            irc_line(username@, channel, "进入了直播间"@),
        ),
        LiveMessage::Other => None,
    }
}

/// The chat line for a room message, if it is shown.
pub fn format_danmaku(msg: &LiveMessage, channel: &str) -> (r: Option<String>)
    ensures
        r matches Some(s) ==> danmaku_irc_spec(*msg, channel@) == Some(s@),
        r is None <==> danmaku_irc_spec(*msg, channel@) is None,
{
    match msg {
        LiveMessage::Danmu { username, content } => Some(
            chat_line(username.as_str(), channel, content.as_str()),
        ),
        LiveMessage::Gift { username, action, gift_name, num } => {
            let mut t = string_of(action.as_str());
            push_str(&mut t, "了 ");
            push_str(&mut t, gift_name.as_str());
            push_str(&mut t, " x");
            push_u64(&mut t, *num as u64);
            Some(chat_line(username.as_str(), channel, t.as_str()))
        },
        LiveMessage::ComboSend { username, action, combo_num } => {
            let mut t = string_of(action.as_str());
            push_str(&mut t, " x");
            push_u64(&mut t, *combo_num as u64);
            Some(chat_line(username.as_str(), channel, t.as_str()))
        },
        LiveMessage::SuperChat { username, price, content } => {
            let mut t = string_of("[SC ¥");
            push_str(&mut t, price.as_str());
            push_str(&mut t, "] ");
            push_str(&mut t, content.as_str());
            Some(chat_line(username.as_str(), channel, t.as_str()))
        },
        LiveMessage::GuardBuy { username, num } => {
            let mut t = string_of("购买了 ");
            push_u64(&mut t, *num as u64);
            push_str(&mut t, " 个舰长");
            Some(chat_line(username.as_str(), channel, t.as_str()))
        },
        LiveMessage::LikeInfoV3Click { username, click_count } => {
            let mut t = string_of("点了 ");
            push_u64(&mut t, *click_count);
            push_str(&mut t, " 个赞");
            Some(chat_line(username.as_str(), channel, t.as_str()))
        },
        LiveMessage::WelcomeGuard { username } => Some(
            chat_line(username.as_str(), channel, "欢迎进入直播间"),
        ),
        LiveMessage::EntryEffect { copy_writing } => Some(
            chat_line("entry", channel, copy_writing.as_str()),
        ),
        LiveMessage::InteractWordV2 { username } => Some(
            chat_line(username.as_str(), channel, "进入了直播间"),
        ),
        LiveMessage::Other => None,
    }
}

/// Every kind of room message but `Other` reaches the PS5 chat, and `Other`
/// never does.
pub proof fn law_every_kind_shown(m: LiveMessage, channel: Seq<char>)
    ensures
        danmaku_irc_spec(m, channel) is None <==> m is Other,
{
}

/// What each kind of room message reads in the PS5 chat: a line from its
/// user (an entry effect from `entry`) with the message's own text, count or
/// amount.
pub proof fn law_shown_lines(m: LiveMessage, channel: Seq<char>)
    ensures
        m matches LiveMessage::Danmu { username, content } ==> danmaku_irc_spec(m, channel) == Some(
            irc_line(username@, channel, content@),
        ),
        m matches LiveMessage::Gift { username, action, gift_name, num } ==> danmaku_irc_spec(
            m,
            channel,
        ) == Some(
            irc_line(username@, channel, action@ + "了 "@ + gift_name@ + " x"@ + dec_nat(num as nat)),
        ),
        m matches LiveMessage::ComboSend { username, action, combo_num } ==> danmaku_irc_spec(
            m,
            channel,
        ) == Some(irc_line(username@, channel, action@ + " x"@ + dec_nat(combo_num as nat))),
        m matches LiveMessage::SuperChat { username, price, content } ==> danmaku_irc_spec(
            m,
            channel,
        ) == Some(irc_line(username@, channel, "[SC ¥"@ + price@ + "] "@ + content@)),
        m matches LiveMessage::GuardBuy { username, num } ==> danmaku_irc_spec(m, channel) == Some(
            irc_line(username@, channel, "购买了 "@ + dec_nat(num as nat) + " 个舰长"@),
        ),
        m matches LiveMessage::LikeInfoV3Click { username, click_count } ==> danmaku_irc_spec(
            m,
            channel,
        ) == Some(irc_line(username@, channel, "点了 "@ + dec_nat(click_count as nat) + " 个赞"@)),
        m matches LiveMessage::WelcomeGuard { username } ==> danmaku_irc_spec(m, channel) == Some(
            irc_line(username@, channel, "欢迎进入直播间"@),
        ),
        m matches LiveMessage::EntryEffect { copy_writing } ==> danmaku_irc_spec(m, channel) == Some(
            irc_line("entry"@, channel, copy_writing@),
        ),
        m matches LiveMessage::InteractWordV2 { username } ==> danmaku_irc_spec(m, channel) == Some(
            irc_line(username@, channel, "进入了直播间"@),
        ),
{
}

/// The chat line for whatever travels on the danmaku channel.
pub open spec fn format_message_spec(msg: DanmuMessage, channel: Seq<char>) -> Option<Seq<char>> {
    match msg {
        DanmuMessage::Notify(t) => Some(irc_line("PSLinkB"@, channel, t@)),
        DanmuMessage::Danmaku(m) => danmaku_irc_spec(m, channel),
    }
}

/// The chat line for whatever travels on the danmaku channel: a notice from
/// `PSLinkB`, or the room message's line.
pub fn format_message(msg: &DanmuMessage, channel: &str) -> (r: Option<String>)
    ensures
        msg matches DanmuMessage::Notify(t) ==> (r matches Some(s) && s@ == irc_line(
            "PSLinkB"@,
            channel@,
            t@,
        )),
        msg matches DanmuMessage::Danmaku(m) ==> (r matches Some(s) ==> danmaku_irc_spec(
            *m,
            channel@,
        ) == Some(s@)) && (r is None <==> danmaku_irc_spec(*m, channel@) is None),
{
    match msg {
        DanmuMessage::Notify(text) => Some(notify_line(channel, text.as_str())),
        DanmuMessage::Danmaku(m) => format_danmaku(m, channel),
    }
}

/// The terminal log line of a room message; none for other kinds.
pub open spec fn danmaku_log_spec(m: LiveMessage) -> Option<Seq<char>> {
    match m {
        LiveMessage::Danmu { username, content } => Some(username@ + ": "@ + content@),
        LiveMessage::Gift { username, action, gift_name, num } => Some(
            "[礼物] "@ + username@ + " "@ + action@ + "了 "@ + gift_name@ + " x"@ + dec_nat(num as nat),
        ),
        LiveMessage::ComboSend { username, action, combo_num } => Some(
            "[连击] "@ + username@ + " "@ + action@ + " x"@ + dec_nat(combo_num as nat),
        ),
        LiveMessage::SuperChat { username, price, content } => Some(
            "[SC] "@ + username@ + " ¥"@ + price@ + ": "@ + content@,
        ),
        LiveMessage::GuardBuy { username, num } => Some(
            "[舰长] "@ + username@ + " 购买了 "@ + dec_nat(num as nat) + " 个"@,
        ),
        LiveMessage::LikeInfoV3Click { username, click_count } => Some(
            "[点赞] "@ + username@ + " 点了 "@ + dec_nat(click_count as nat) + " 个赞"@,
        ),
        LiveMessage::WelcomeGuard { username } => Some("[欢迎] "@ + username@ + " 进入直播间"@),
        LiveMessage::EntryEffect { copy_writing } => Some("[入场] "@ + copy_writing@),
        LiveMessage::InteractWordV2 { username } => Some("[进入] "@ + username@),
        LiveMessage::Other => None,
    }
}

/// The terminal log line of a room message, if it is shown.
pub fn log_line(msg: &LiveMessage) -> (r: Option<String>)
    ensures
        r matches Some(s) ==> danmaku_log_spec(*msg) == Some(s@),
        r is None <==> danmaku_log_spec(*msg) is None,
{
    match msg {
        LiveMessage::Danmu { username, content } => {
            let mut t = string_of(username.as_str());
            push_str(&mut t, ": ");
            push_str(&mut t, content.as_str());
            Some(t)
        },
        LiveMessage::Gift { username, action, gift_name, num } => {
            let mut t = string_of("[礼物] ");
            push_str(&mut t, username.as_str());
            push_str(&mut t, " ");
            push_str(&mut t, action.as_str());
            push_str(&mut t, "了 ");
            push_str(&mut t, gift_name.as_str());
            push_str(&mut t, " x");
            push_u64(&mut t, *num as u64);
            Some(t)
        },
        LiveMessage::ComboSend { username, action, combo_num } => {
            let mut t = string_of("[连击] ");
            push_str(&mut t, username.as_str());
            push_str(&mut t, " ");
            push_str(&mut t, action.as_str());
            push_str(&mut t, " x");
            push_u64(&mut t, *combo_num as u64);
            Some(t)
        },
        LiveMessage::SuperChat { username, price, content } => {
            let mut t = string_of("[SC] ");
            push_str(&mut t, username.as_str());
            push_str(&mut t, " ¥");
            push_str(&mut t, price.as_str());
            push_str(&mut t, ": ");
            push_str(&mut t, content.as_str());
            Some(t)
        },
        LiveMessage::GuardBuy { username, num } => {
            let mut t = string_of("[舰长] ");
            push_str(&mut t, username.as_str());
            push_str(&mut t, " 购买了 ");
            push_u64(&mut t, *num as u64);
            push_str(&mut t, " 个");
            Some(t)
        },
        LiveMessage::LikeInfoV3Click { username, click_count } => {
            let mut t = string_of("[点赞] ");
            push_str(&mut t, username.as_str());
            push_str(&mut t, " 点了 ");
            push_u64(&mut t, *click_count);
            push_str(&mut t, " 个赞");
            Some(t)
        },
        LiveMessage::WelcomeGuard { username } => {
            let mut t = string_of("[欢迎] ");
            push_str(&mut t, username.as_str());
            push_str(&mut t, " 进入直播间");
            Some(t)
        },
        LiveMessage::EntryEffect { copy_writing } => {
            let mut t = string_of("[入场] ");
            push_str(&mut t, copy_writing.as_str());
            Some(t)
        },
        LiveMessage::InteractWordV2 { username } => {
            let mut t = string_of("[进入] ");
            push_str(&mut t, username.as_str());
            Some(t)
        },
        LiveMessage::Other => None,
    }
}

} // verus!

verus! {

/// What the IRC service does with one message of a client.
pub enum IrcAction {
    /// Nothing (an empty message).
    Ignore,
    /// Send these lines to every client.
    Send(Vec<String>),
    /// The PS5 joined `channel`: record it, report it, and send these lines to every client.
    Join { channel: String, replies: Vec<String> },
}

/// An IRC action with its strings as character sequences.
pub enum IrcActionV {
    Ignore,
    Send(Seq<Seq<char>>),
    Join { channel: Seq<char>, replies: Seq<Seq<char>> },
}

impl View for IrcAction {
    type V = IrcActionV;

    open spec fn view(&self) -> IrcActionV {
        match self {
            IrcAction::Ignore => IrcActionV::Ignore,
            IrcAction::Send(lines) => IrcActionV::Send(lines@.map_values(|l: String| l@)),
            IrcAction::Join { channel, replies } => IrcActionV::Join {
                channel: channel@,
                replies: replies@.map_values(|l: String| l@),
            },
        }
    }
}

/// The replies to a join of `ch`: the join, the topic, and a notice.
pub open spec fn join_replies(ch: Seq<char>) -> Seq<Seq<char>> {
    seq![
        ":urlynn!urlynn@urlynn.tmi.twitch.tv JOIN "@ + ch + "\r\n"@,
        ":tmi.twitch.tv 332 urlynn "@ + ch + " :PSLinkB Live Streaming\r\n"@,
        ":PSLinkB PRIVMSG "@ + ch + " :已加入频道"@ + ch + "\r\n"@,
    ]
}

/// The answer to one message (trimmed first): nothing to an empty one; a
/// welcome to `PASS`; to `JOIN` the channel (its second word) and the join
/// replies; to `PING` the message with every `PING` made `PONG`; anything else
/// echoed. Every line ends in CRLF.
pub open spec fn irc_reply_spec(raw: Seq<char>) -> IrcActionV {
    let m = trim(raw);
    if m.len() == 0 {
        IrcActionV::Ignore
    } else if has_prefix(m, "PASS "@) {
        IrcActionV::Send(seq![":tmi.twitch.tv 001 urlynn :Welcome, GLHF!\r\n"@])
    } else if has_prefix(m, "JOIN "@) {
        let a = lead_from(m, 4);
        if a < m.len() {
            let ch = m.subrange(a, ws_from(m, a));
            IrcActionV::Join { channel: ch, replies: join_replies(ch) }
        } else {
            IrcActionV::Ignore
        }
    } else if has_prefix(m, "PING "@) {
        IrcActionV::Send(seq![join_with(split_str(m, "PING"@), "PONG"@) + "\r\n"@])
    } else {
        IrcActionV::Send(seq![m + "\r\n"@])
    }
}

/// Decides the answer of the IRC service to one message of a client.
pub fn irc_reply(raw: &str) -> (r: IrcAction)
    ensures
        r@ == irc_reply_spec(raw@),
{
    let v0 = chars_of(raw);
    let (a0, b0) = trim_range(&v0, 0, v0.len());
    assert(v0@.subrange(0, v0.len() as int) =~= raw@);
    let m = string_from_chars(&v0, a0, b0);
    let v = chars_of(m.as_str());
    let ghost mv = trim(raw@);
    assert(v@ == mv);
    proof {
        reveal_strlit("PASS ");
        reveal_strlit("JOIN ");
        reveal_strlit("PING ");
        reveal_strlit("PING");
    }
    if v.len() == 0 {
        return IrcAction::Ignore;
    }
    let mut lines: Vec<String> = Vec::new();
    if starts_with(&v, "PASS ") {
        lines.push(string_of(":tmi.twitch.tv 001 urlynn :Welcome, GLHF!\r\n"));
        assert(lines@.map_values(|l: String| l@) =~= seq![
            ":tmi.twitch.tv 001 urlynn :Welcome, GLHF!\r\n"@,
        ]);
        IrcAction::Send(lines)
    } else if starts_with(&v, "JOIN ") {
        let (a, b) = token_at(&v, 4, v.len());
        assert(v@.subrange(0, v.len() as int) =~= v@);
        if a == v.len() {
            return IrcAction::Ignore;
        }
        let ch = string_from_chars(&v, a, b);
        let mut l1 = string_of(":urlynn!urlynn@urlynn.tmi.twitch.tv JOIN ");
        push_str(&mut l1, ch.as_str());
        push_str(&mut l1, "\r\n");
        let mut l2 = string_of(":tmi.twitch.tv 332 urlynn ");
        push_str(&mut l2, ch.as_str());
        push_str(&mut l2, " :PSLinkB Live Streaming\r\n");
        let mut l3 = string_of(":PSLinkB PRIVMSG ");
        push_str(&mut l3, ch.as_str());
        push_str(&mut l3, " :已加入频道");
        push_str(&mut l3, ch.as_str());
        push_str(&mut l3, "\r\n");
        lines.push(l1);
        lines.push(l2);
        lines.push(l3);
        assert(lines@.map_values(|l: String| l@) =~= join_replies(ch@));
        IrcAction::Join { channel: ch, replies: lines }
    } else if starts_with(&v, "PING ") {
        let ranges = split_str_ranges(&v, "PING");
        let mut s = String::new();
        push_joined(&mut s, &v, &ranges, "PONG", Ghost(split_str(v@, "PING"@)));
        push_str(&mut s, "\r\n");
        lines.push(s);
        assert(lines@.map_values(|l: String| l@) =~= seq![
            join_with(split_str(mv, "PING"@), "PONG"@) + "\r\n"@,
        ]);
        IrcAction::Send(lines)
    } else {
        let mut s = string_of(m.as_str());
        push_str(&mut s, "\r\n");
        lines.push(s);
        assert(lines@.map_values(|l: String| l@) =~= seq![mv + "\r\n"@]);
        IrcAction::Send(lines)
    }
}

} // verus!

verus! {

// ── The internal IRC client ──

/// Where the internal IRC client stands.
pub enum IrcClientState {
    /// Waiting for the PS5 to join a channel.
    Waiting,
    /// Connecting to the local IRC service for this channel.
    Connecting(String),
    /// Connected, relaying into this channel; `first` until the first chat
    /// message went through.
    Connected { channel: String, first: bool },
}

/// What the internal IRC client learns.
pub enum IrcClientEvent {
    /// The channel the PS5 joined, as the shared state holds it now (empty
    /// when none); reported at the start, after a pause, after a disconnect,
    /// and at each change while waiting.
    Channel(String),
    /// The shared state is gone while waiting.
    StateClosed,
    /// Connecting to the local IRC service succeeded or failed.
    Connected(bool),
    /// The shared state changed while connected; the channel it holds now.
    Changed(String),
    /// The next message of the danmaku channel; none when it closed.
    Message(Option<DanmuMessage>),
    /// Writing a line to the IRC service failed.
    WriteFailed,
}

/// What the internal IRC client does next.
pub enum IrcClientAction {
    /// Wait for the shared state to change, then report the channel.
    Wait,
    /// Connect to the local IRC service.
    Connect,
    /// Pause a second, then report the channel again.
    Pause,
    /// Wait for the next message or state change.
    Listen,
    /// Write this line to the IRC service (logging `log` first, when given), then listen.
    Write { line: String, log: Option<String> },
    /// Drop the connection, then report the channel again.
    Disconnect,
    /// Stop: the danmaku channel closed.
    Finish,
    /// Stop with this error.
    Fail(AppError),
}

/// The log line that confirms the first chat message of a connection.
pub open spec fn first_danmu_log(user: Seq<char>, content: Seq<char>) -> Seq<char> {
    "[Danmaku] "@ + user + ": "@ + content + " - ✓ 首条弹幕工作正常"@
}

impl IrcClientState {
    /// One step of the internal IRC client. Waiting for a channel: an empty
    /// one waits on, a joined one connects to it; a gone state fails. A
    /// connection that fails pauses and looks again; one that succeeds
    /// listens. Connected: a state change that clears the channel
    /// disconnects, another listens on; each message is written as the chat
    /// line of `format_message` for the channel connected to (the first chat
    /// message of a connection also logged), a message with no line is
    /// skipped; the end of the messages finishes; a failed write
    /// disconnects. An event that does not belong to the state listens on
    /// and changes nothing.
    pub fn step(&mut self, ev: IrcClientEvent) -> (a: IrcClientAction)
        ensures
            ev matches IrcClientEvent::Channel(n) ==> (if n@.len() == 0 {
                *final(self) is Waiting && a is Wait
            } else {
                *final(self) matches IrcClientState::Connecting(c) && c == n && a is Connect
            }),
            ev is StateClosed ==> *final(self) is Waiting && (a matches IrcClientAction::Fail(
                AppError::General(m),
            ) && m@ == "state channel closed"@),
            ev matches IrcClientEvent::Connected(ok) ==> (*old(self) matches IrcClientState::Connecting(c) ==> (if ok {
                *final(self) matches IrcClientState::Connected { channel, first } && channel == c && first && a is Listen
            } else {
                *final(self) is Waiting && a is Pause
            })),
            ev matches IrcClientEvent::Changed(n) ==> (*old(self) is Connected ==> (if n@.len() == 0 {
                *final(self) is Waiting && a is Disconnect
            } else {
                *final(self) == *old(self) && a is Listen
            })),
            ev matches IrcClientEvent::Message(None) ==> (*old(self) is Connected ==> a is Finish && *final(self) == *old(self)),
            ev matches IrcClientEvent::Message(Some(m)) ==> (*old(self) matches IrcClientState::Connected { channel, first } ==> {
                let danmu = m matches DanmuMessage::Danmaku(LiveMessage::Danmu { .. });
                &&& *final(self) matches IrcClientState::Connected { channel: c2, first: f2 } && c2 == channel && f2 == (first && !danmu)
                &&& match format_message_spec(m, channel@) {
                    Some(line) => a matches IrcClientAction::Write { line: l, log } && l@ == line && (match m {
                        DanmuMessage::Danmaku(LiveMessage::Danmu { username, content }) if first => log matches Some(g) && g@ == first_danmu_log(username@, content@),
                        _ => log is None,
                    }),
                    None => a is Listen,
                }
            }),
            ev is WriteFailed ==> (*old(self) is Connected ==> *final(self) is Waiting && a is Disconnect),
            !(ev is Channel || ev is StateClosed) && !(ev is Connected && *old(self) is Connecting) && !(
            *old(self) is Connected && (ev is Changed || ev is Message || ev is WriteFailed)) ==> *final(self)
                == *old(self) && a is Listen,
    {
        match ev {
            IrcClientEvent::Channel(n) => {
                if n.as_str().is_empty() {
                    *self = IrcClientState::Waiting;
                    IrcClientAction::Wait
                } else {
                    *self = IrcClientState::Connecting(n);
                    IrcClientAction::Connect
                }
            },
            IrcClientEvent::StateClosed => {
                *self = IrcClientState::Waiting;
                IrcClientAction::Fail(AppError::General(string_of("state channel closed")))
            },
            IrcClientEvent::Connected(ok) => {
                let c = match self {
                    IrcClientState::Connecting(c) => c.clone(),
                    _ => {
                        return IrcClientAction::Listen;
                    },
                };
                if ok {
                    *self = IrcClientState::Connected { channel: c, first: true };
                    IrcClientAction::Listen
                } else {
                    *self = IrcClientState::Waiting;
                    IrcClientAction::Pause
                }
            },
            IrcClientEvent::Changed(n) => {
                let connected = match self {
                    IrcClientState::Connected { .. } => true,
                    _ => false,
                };
                if !connected {
                    return IrcClientAction::Listen;
                }
                if n.as_str().is_empty() {
                    *self = IrcClientState::Waiting;
                    IrcClientAction::Disconnect
                } else {
                    IrcClientAction::Listen
                }
            },
            IrcClientEvent::Message(None) => match self {
                IrcClientState::Connected { .. } => IrcClientAction::Finish,
                _ => IrcClientAction::Listen,
            },
            IrcClientEvent::Message(Some(m)) => {
                let (channel, first) = match self {
                    IrcClientState::Connected { channel, first } => (channel.clone(), *first),
                    _ => {
                        return IrcClientAction::Listen;
                    },
                };
                let log = match &m {
                    DanmuMessage::Danmaku(LiveMessage::Danmu { username, content }) => {
                        if first {
                            let mut g = string_of("[Danmaku] ");
                            push_str(&mut g, username.as_str());
                            push_str(&mut g, ": ");
                            push_str(&mut g, content.as_str());
                            push_str(&mut g, " - ✓ 首条弹幕工作正常");
                            Some(g)
                        } else {
                            None
                        }
                    },
                    _ => None,
                };
                let danmu = match &m {
                    DanmuMessage::Danmaku(LiveMessage::Danmu { .. }) => true,
                    _ => false,
                };
                let line = format_message(&m, channel.as_str());
                *self = IrcClientState::Connected { channel, first: first && !danmu };
                match line {
                    Some(l) => IrcClientAction::Write { line: l, log },
                    None => IrcClientAction::Listen,
                }
            },
            IrcClientEvent::WriteFailed => match self {
                IrcClientState::Connected { .. } => {
                    *self = IrcClientState::Waiting;
                    IrcClientAction::Disconnect
                },
                _ => IrcClientAction::Listen,
            },
        }
    }
}

} // verus!
