use rustirc::connection::react;
use rustirc::{
    CloseWrite, Connection, ErrorKind, IrcError, IrcEvent, IrcEventHandler, IrcLine, IrcWriter,
    MemReader, MemWriter, Outbound, Reaction, Writer,
};

struct Recorder {
    registered: usize,
    messages: Vec<(String, String, String)>,
    reply: bool,
    fail: bool,
}

fn recorder() -> Recorder {
    Recorder { registered: 0, messages: Vec::new(), reply: false, fail: false }
}

impl<W: IrcWriter> IrcEventHandler<W> for Recorder {
    fn on_registered(&mut self, write: &mut W) -> Result<(), IrcError> {
        self.registered += 1;
        if self.reply {
            write.join("#home")?;
        }
        Ok(())
    }

    fn on_privmsg<'a>(
        &mut self,
        text: &str,
        ev: &IrcEvent<'a>,
        write: &mut W,
    ) -> Result<(), IrcError> {
        if self.fail {
            return Err(IrcError { kind: ErrorKind::Transport, detail: Some(String::from("handler")) });
        }
        self.messages.push((ev.sender.to_string(), ev.args[0].to_string(), text.to_string()));
        if self.reply {
            write.message(ev.sender, text)?;
        }
        Ok(())
    }
}

struct Silent;

impl<W: IrcWriter> IrcEventHandler<W> for Silent {}

#[derive(Clone)]
struct Broken {
    good_writes: usize,
}

impl Writer for Broken {
    fn write_str(&mut self, _s: &str) -> Result<(), IrcError> {
        if self.good_writes > 0 {
            self.good_writes -= 1;
            Ok(())
        } else {
            Err(IrcError { kind: ErrorKind::Transport, detail: Some(String::from("broken pipe")) })
        }
    }
}

impl CloseWrite for Broken {
    fn close_write(&mut self) -> Result<(), IrcError> {
        Err(IrcError { kind: ErrorKind::Transport, detail: Some(String::from("not open")) })
    }
}

fn names(list: &[&str]) -> std::vec::IntoIter<String> {
    let owned: Vec<String> = list.iter().map(|n| n.to_string()).collect();
    owned.into_iter()
}

fn bot(input: &str, nicks: &[&str]) -> Connection<MemReader, Outbound<MemWriter>, Recorder> {
    match Connection::connect(
        MemReader::new(input.as_bytes().to_vec()),
        Outbound::new(MemWriter::new()),
        names(nicks),
        String::from("bot"),
        String::from("A Bot"),
        recorder(),
    ) {
        Ok(conn) => conn,
        Err(e) => panic!("connect failed: {:?}", e),
    }
}

fn run<R: rustirc::TolerantLineReader, W: IrcWriter, H: IrcEventHandler<W>>(
    conn: &mut Connection<R, W, H>,
) -> Result<(), IrcError> {
    while conn.process_next()? {}
    Ok(())
}

fn kind_of<T: std::fmt::Debug>(r: Result<T, IrcError>) -> ErrorKind {
    match r {
        Err(e) => e.kind,
        Ok(v) => panic!("no error: {:?}", v),
    }
}

const LOGIN_BOT: &str = "NICK Bot\r\nUSER bot 8 * :A Bot\r\n";

const LOGIN_BOT2: &str = "NICK Bot2\r\nUSER bot 8 * :A Bot\r\n";

#[test]
fn connect_logs_in_under_the_first_nickname() {
    let conn = bot("", &["Bot", "Bot2"]);
    assert_eq!(conn.nick(), "Bot");
    assert!(!conn.is_accepted());
    assert_eq!(conn.writer().get_inner().as_str(), LOGIN_BOT);
    assert_eq!(conn.handler().registered, 0);
}

#[test]
fn connect_without_nickname_fails() {
    let r = Connection::connect(
        MemReader::new(Vec::new()),
        Outbound::new(MemWriter::new()),
        names(&[]),
        String::from("bot"),
        String::from("A Bot"),
        Silent,
    );
    match r {
        Err(e) => assert_eq!(e, IrcError { kind: ErrorKind::NicknamesExhausted, detail: None }),
        Ok(_) => panic!("connected without a nickname"),
    }
}

#[test]
fn connect_hands_on_the_failure_to_write() {
    let r = Connection::connect(
        MemReader::new(Vec::new()),
        Outbound::new(Broken { good_writes: 0 }),
        names(&["Bot"]),
        String::from("bot"),
        String::from("A Bot"),
        Silent,
    );
    match r {
        Err(e) => {
            assert_eq!(e.kind, ErrorKind::Transport);
            assert_eq!(e.detail, Some(String::from("broken pipe")));
        },
        Ok(_) => panic!("connected over a broken transport"),
    }
}

#[test]
fn with_first_nick_takes_the_candidate_it_is_given() {
    let r = Connection::with_first_nick(
        MemReader::new(Vec::new()),
        Outbound::new(MemWriter::new()),
        Some(String::from("Bot")),
        names(&["Bot2"]),
        String::from("bot"),
        String::from("A Bot"),
        Silent,
    );
    match r {
        Ok(conn) => {
            assert_eq!(conn.nick(), "Bot");
            assert_eq!(conn.writer().get_inner().as_str(), LOGIN_BOT);
        },
        Err(e) => panic!("connect failed: {:?}", e),
    }
    let r = Connection::with_first_nick(
        MemReader::new(Vec::new()),
        Outbound::new(MemWriter::new()),
        None,
        names(&["Bot2"]),
        String::from("bot"),
        String::from("A Bot"),
        Silent,
    );
    assert_eq!(kind_of(r.map(|_| ())), ErrorKind::NicknamesExhausted);
}

#[test]
fn nickname_in_use_makes_the_connection_log_in_again() {
    let mut conn = bot("433 * Bot :Nickname in use\r\n", &["Bot", "Bot2"]);
    assert_eq!(conn.process_next(), Ok(true));
    assert_eq!(conn.nick(), "Bot2");
    assert!(!conn.is_accepted());
    assert_eq!(conn.writer().get_inner().as_str(), format!("{}{}", LOGIN_BOT, LOGIN_BOT2));
    assert_eq!(conn.process_next(), Ok(false));
}

#[test]
fn nickname_collision_is_treated_like_nickname_in_use() {
    let mut conn = bot(":server 436 Bot :Nickname collision KILL\r\n", &["Bot", "Bot2"]);
    assert_eq!(run(&mut conn), Ok(()));
    assert_eq!(conn.nick(), "Bot2");
    assert_eq!(conn.writer().get_inner().as_str(), format!("{}{}", LOGIN_BOT, LOGIN_BOT2));
}

#[test]
fn each_rejection_takes_the_next_candidate() {
    let mut conn = bot("433 * A :in use\r\n433 * B :in use\r\n", &["A", "B", "C", "D"]);
    assert_eq!(run(&mut conn), Ok(()));
    assert_eq!(conn.nick(), "C");
    assert_eq!(
        conn.writer().get_inner().as_str(),
        "NICK A\r\nUSER bot 8 * :A Bot\r\nNICK B\r\nUSER bot 8 * :A Bot\r\nNICK C\r\nUSER bot 8 * :A Bot\r\n"
    );
}

#[test]
fn rejection_without_candidate_left_fails() {
    let mut conn = bot("433 * Bot :Nickname in use\r\n", &["Bot"]);
    assert_eq!(
        conn.process_next(),
        Err(IrcError { kind: ErrorKind::NicknamesExhausted, detail: None })
    );
    assert_eq!(conn.nick(), "Bot");
    assert_eq!(conn.writer().get_inner().as_str(), LOGIN_BOT);
}

#[test]
fn rejection_with_invalid_candidate_fails() {
    let mut conn = bot("433 * Bot :Nickname in use\r\n", &["Bot", "Bot-2"]);
    assert_eq!(
        conn.process_next(),
        Err(IrcError { kind: ErrorKind::InvalidNickname, detail: None })
    );
    assert_eq!(conn.nick(), "Bot");
    assert_eq!(conn.writer().get_inner().as_str(), LOGIN_BOT);
}

#[test]
fn welcome_accepts_the_nickname_and_calls_the_handler_once() {
    let mut conn = bot(":server 001 Bot :Welcome\r\n", &["Bot", "Bot2"]);
    assert_eq!(conn.handler().registered, 0);
    assert_eq!(conn.process_next(), Ok(true));
    assert!(conn.is_accepted());
    assert_eq!(conn.handler().registered, 1);
    assert_eq!(conn.nick(), "Bot");
    assert_eq!(conn.writer().get_inner().as_str(), LOGIN_BOT);
    assert_eq!(conn.process_next(), Ok(false));
    assert_eq!(conn.handler().registered, 1);
    assert!(conn.is_accepted());
}

#[test]
fn handler_may_send_when_registered() {
    let mut conn = bot("", &["Bot"]);
    let mut handler = recorder();
    handler.reply = true;
    let mut conn2 = match Connection::connect(
        MemReader::new(b":server 001 Bot :Welcome\r\n".to_vec()),
        Outbound::new(MemWriter::new()),
        names(&["Bot"]),
        String::from("bot"),
        String::from("A Bot"),
        handler,
    ) {
        Ok(c) => c,
        Err(e) => panic!("connect failed: {:?}", e),
    };
    assert_eq!(run(&mut conn2), Ok(()));
    assert_eq!(conn2.writer().get_inner().as_str(), format!("{}JOIN :#home\r\n", LOGIN_BOT));
    assert_eq!(run(&mut conn), Ok(()));
    assert_eq!(conn.writer().get_inner().as_str(), LOGIN_BOT);
}

#[test]
fn rejection_after_acceptance_is_a_protocol_violation() {
    let mut conn = bot(":s 001 Bot :Welcome\r\n:s 433 * Bot :Nickname in use\r\n", &["Bot", "Bot2"]);
    assert_eq!(conn.process_next(), Ok(true));
    assert_eq!(
        conn.process_next(),
        Err(IrcError { kind: ErrorKind::UnexpectedNickReply, detail: None })
    );
    assert!(conn.is_accepted());
    assert_eq!(conn.nick(), "Bot");
    assert_eq!(conn.writer().get_inner().as_str(), LOGIN_BOT);
}

#[test]
fn acceptance_is_kept_by_later_lines() {
    let mut conn = bot(
        ":s 001 Bot :Welcome\r\nPING :1\r\n:s 372 Bot :motd\r\n:a!b@c PRIVMSG Bot :hi\r\n",
        &["Bot", "Bot2"],
    );
    assert_eq!(run(&mut conn), Ok(()));
    assert!(conn.is_accepted());
    assert_eq!(conn.nick(), "Bot");
    assert_eq!(conn.handler().registered, 1);
}

#[test]
fn ping_is_answered_with_one_pong_of_the_same_token() {
    let mut conn = bot("PING :12345\r\n", &["Bot"]);
    assert_eq!(run(&mut conn), Ok(()));
    assert_eq!(conn.writer().get_inner().as_str(), format!("{}PONG :12345\r\n", LOGIN_BOT));
    assert_eq!(conn.writer().get_inner().as_str().matches("PONG").count(), 1);
}

#[test]
fn ping_token_may_be_a_middle_parameter() {
    let mut conn = bot(":server PING token\n", &["Bot"]);
    assert_eq!(run(&mut conn), Ok(()));
    assert_eq!(conn.writer().get_inner().as_str(), format!("{}PONG :token\r\n", LOGIN_BOT));
}

#[test]
fn ping_without_or_with_two_tokens_is_malformed() {
    let mut conn = bot("PING\r\n", &["Bot"]);
    assert_eq!(conn.process_next(), Err(IrcError { kind: ErrorKind::MalformedPing, detail: None }));
    assert_eq!(conn.writer().get_inner().as_str(), LOGIN_BOT);
    let mut conn = bot("PING a :b\r\n", &["Bot"]);
    assert_eq!(conn.process_next(), Err(IrcError { kind: ErrorKind::MalformedPing, detail: None }));
    assert_eq!(conn.writer().get_inner().as_str(), LOGIN_BOT);
}

#[test]
fn ping_token_with_line_break_is_malformed() {
    let mut conn = bot("PING :a\rQUIT\r\n", &["Bot"]);
    assert_eq!(conn.process_next(), Err(IrcError { kind: ErrorKind::MalformedPing, detail: None }));
    assert_eq!(conn.writer().get_inner().as_str(), LOGIN_BOT);
}

#[test]
fn message_reaches_the_handler_with_text_and_event() {
    let mut conn = bot(":nick!user@host PRIVMSG #chan :hello world\r\n", &["Bot"]);
    assert_eq!(run(&mut conn), Ok(()));
    assert_eq!(
        conn.handler().messages,
        vec![(String::from("nick"), String::from("#chan"), String::from("hello world"))]
    );
    assert_eq!(conn.writer().get_inner().as_str(), LOGIN_BOT);
}

#[test]
fn handler_may_answer_a_message() {
    let mut handler = recorder();
    handler.reply = true;
    let mut conn = match Connection::connect(
        MemReader::new(b":nick!user@host PRIVMSG Bot :echo me\r\n".to_vec()),
        Outbound::new(MemWriter::new()),
        names(&["Bot"]),
        String::from("bot"),
        String::from("A Bot"),
        handler,
    ) {
        Ok(c) => c,
        Err(e) => panic!("connect failed: {:?}", e),
    };
    assert_eq!(run(&mut conn), Ok(()));
    assert_eq!(conn.writer().get_inner().as_str(), format!("{}PRIVMSG nick :echo me\r\n", LOGIN_BOT));
    assert_eq!(conn.handler().messages.len(), 1);
}

#[test]
fn message_with_three_arguments_stops_without_calling_the_handler() {
    let mut conn = bot(
        "PING :1\r\n:n!u@h PRIVMSG #chan extra :hello\r\n:n!u@h PRIVMSG #chan :never seen\r\n",
        &["Bot"],
    );
    assert_eq!(
        run(&mut conn),
        Err(IrcError { kind: ErrorKind::MalformedPrivmsg, detail: None })
    );
    assert!(conn.handler().messages.is_empty());
    assert_eq!(conn.writer().get_inner().as_str(), format!("{}PONG :1\r\n", LOGIN_BOT));
}

#[test]
fn message_with_one_argument_is_malformed() {
    let mut conn = bot(":n!u@h PRIVMSG #chan\r\n", &["Bot"]);
    assert_eq!(
        conn.process_next(),
        Err(IrcError { kind: ErrorKind::MalformedPrivmsg, detail: None })
    );
    assert!(conn.handler().messages.is_empty());
}

#[test]
fn failure_of_the_handler_stops_the_connection() {
    let mut handler = recorder();
    handler.fail = true;
    let mut conn = match Connection::connect(
        MemReader::new(b":n!u@h PRIVMSG Bot :hi\r\nPING :1\r\n".to_vec()),
        Outbound::new(MemWriter::new()),
        names(&["Bot"]),
        String::from("bot"),
        String::from("A Bot"),
        handler,
    ) {
        Ok(c) => c,
        Err(e) => panic!("connect failed: {:?}", e),
    };
    assert_eq!(
        run(&mut conn),
        Err(IrcError { kind: ErrorKind::Transport, detail: Some(String::from("handler")) })
    );
    assert_eq!(conn.writer().get_inner().as_str(), LOGIN_BOT);
}

#[test]
fn line_without_command_stops_the_connection() {
    let mut conn = bot("PING :1\r\n\r\nPING :2\r\n", &["Bot"]);
    assert_eq!(run(&mut conn), Err(IrcError { kind: ErrorKind::MalformedLine, detail: None }));
    assert_eq!(conn.writer().get_inner().as_str(), format!("{}PONG :1\r\n", LOGIN_BOT));
}

#[test]
fn other_commands_are_ignored() {
    let mut conn = bot(
        ":s NOTICE * :looking up\r\n:s 002 Bot :host\r\n:s 372 Bot :motd\r\nERROR :bye\r\n:n!u@h JOIN #c\r\n",
        &["Bot", "Bot2"],
    );
    assert_eq!(run(&mut conn), Ok(()));
    assert_eq!(conn.nick(), "Bot");
    assert!(!conn.is_accepted());
    assert_eq!(conn.writer().get_inner().as_str(), LOGIN_BOT);
    assert_eq!(conn.handler().registered, 0);
    assert!(conn.handler().messages.is_empty());
}

#[test]
fn commands_are_told_apart_by_case() {
    let mut conn = bot("ping :1\r\n:n!u@h privmsg a b c\r\n", &["Bot"]);
    assert_eq!(run(&mut conn), Ok(()));
    assert_eq!(conn.writer().get_inner().as_str(), LOGIN_BOT);
}

#[test]
fn end_of_stream_ends_the_connection_cleanly() {
    let mut conn = bot("", &["Bot"]);
    assert_eq!(conn.process_next(), Ok(false));
    assert_eq!(conn.process_next(), Ok(false));
    assert_eq!(conn.process(None), Ok(false));
    assert_eq!(
        conn.process(Some(Err(IrcError { kind: ErrorKind::EndOfStream, detail: None }))),
        Ok(false)
    );
    assert_eq!(conn.writer().get_inner().as_str(), LOGIN_BOT);
}

#[test]
fn failure_to_read_is_handed_on() {
    let mut conn = bot("", &["Bot"]);
    let failure = IrcError { kind: ErrorKind::Transport, detail: Some(String::from("reset")) };
    assert_eq!(conn.process(Some(Err(failure.clone()))), Err(failure));
    assert_eq!(conn.writer().get_inner().as_str(), LOGIN_BOT);
}

#[test]
fn failure_to_write_the_pong_is_handed_on() {
    let mut conn = match Connection::connect(
        MemReader::new(b"PING :1\r\n".to_vec()),
        Outbound::new(Broken { good_writes: 1 }),
        names(&["Bot"]),
        String::from("bot"),
        String::from("A Bot"),
        Silent,
    ) {
        Ok(c) => c,
        Err(e) => panic!("connect failed: {:?}", e),
    };
    assert_eq!(kind_of(conn.process_next()), ErrorKind::Transport);
}

#[test]
fn process_takes_a_line_as_if_it_had_been_read() {
    let mut conn = bot("", &["Bot"]);
    assert_eq!(conn.process(Some(Ok(String::from("PING :abc\r\n")))), Ok(true));
    assert_eq!(conn.writer().get_inner().as_str(), format!("{}PONG :abc\r\n", LOGIN_BOT));
}

#[test]
fn handle_line_and_handle_event_agree() {
    let mut a = bot("", &["Bot"]);
    let mut b = bot("", &["Bot"]);
    let line = "PING :same";
    assert_eq!(a.handle_line(line), Ok(()));
    match line.decode_irc_event() {
        Some(ev) => assert_eq!(b.handle_event(&ev), Ok(())),
        None => panic!("no event"),
    }
    assert_eq!(a.writer().get_inner().as_str(), b.writer().get_inner().as_str());
}

#[test]
fn try_nick_takes_a_valid_candidate_only_while_registering() {
    let mut conn = bot("", &["Bot"]);
    assert_eq!(conn.try_nick(Some(String::from("Other"))), Ok(()));
    assert_eq!(conn.nick(), "Other");
    assert_eq!(
        conn.writer().get_inner().as_str(),
        format!("{}NICK Other\r\nUSER bot 8 * :A Bot\r\n", LOGIN_BOT)
    );
    assert_eq!(kind_of(conn.try_nick(Some(String::from("no good")))), ErrorKind::InvalidNickname);
    assert_eq!(kind_of(conn.try_nick(None)), ErrorKind::NicknamesExhausted);
    assert_eq!(conn.nick(), "Other");
    assert_eq!(conn.handle_line(":s 001 Other :Welcome"), Ok(()));
    assert_eq!(
        kind_of(conn.try_nick(Some(String::from("Third")))),
        ErrorKind::UnexpectedNickReply
    );
    assert_eq!(conn.nick(), "Other");
}

#[test]
fn react_decides_by_command_arguments_and_state() {
    let decide = |line: &str, accepted: bool| match line.decode_irc_event() {
        Some(ev) => react(&ev, accepted),
        None => panic!("no event"),
    };
    assert_eq!(decide("PRIVMSG a :b", false), Reaction::Deliver);
    assert_eq!(decide("PRIVMSG a", true), Reaction::Fail(ErrorKind::MalformedPrivmsg));
    assert_eq!(decide("PRIVMSG a b c", true), Reaction::Fail(ErrorKind::MalformedPrivmsg));
    assert_eq!(decide("PING x", false), Reaction::Pong);
    assert_eq!(decide("PING", false), Reaction::Fail(ErrorKind::MalformedPing));
    assert_eq!(decide("PING x y", false), Reaction::Fail(ErrorKind::MalformedPing));
    assert_eq!(decide("001", false), Reaction::Welcome);
    assert_eq!(decide("001 Bot :hi", true), Reaction::Welcome);
    assert_eq!(decide("433", false), Reaction::Retry);
    assert_eq!(decide("436", false), Reaction::Retry);
    assert_eq!(decide("433", true), Reaction::Fail(ErrorKind::UnexpectedNickReply));
    assert_eq!(decide("436", true), Reaction::Fail(ErrorKind::UnexpectedNickReply));
    assert_eq!(decide("432", false), Reaction::Ignore);
    assert_eq!(decide("JOIN #c", true), Reaction::Ignore);
}

#[test]
fn errors_describe_themselves() {
    assert_eq!(IrcError::new(ErrorKind::MalformedLine).desc(), "malformed IRC event received");
    assert_eq!(
        IrcError::new(ErrorKind::MalformedPrivmsg).desc(),
        "malformed PRIVMSG command received"
    );
    assert_eq!(IrcError::new(ErrorKind::MalformedPing).desc(), "malformed PING command received");
    assert_eq!(
        IrcError::new(ErrorKind::UnexpectedNickReply).desc(),
        "unexpected 433 ERR_NICKNAMEINUSE or 436 ERR_NICKCOLLISION received"
    );
    assert_eq!(
        IrcError::new(ErrorKind::NicknamesExhausted).desc(),
        "nick name generator did not generate enough nicks"
    );
    assert_eq!(IrcError::new(ErrorKind::InvalidNickname).desc(), "nick name generator gave an invalid nick");
    assert_eq!(IrcError::new(ErrorKind::EndOfStream).desc(), "end of stream");
    assert_eq!(IrcError::new(ErrorKind::Transport).desc(), "transport failure");
    assert_eq!(IrcError::new(ErrorKind::Transport).detail, None);
}

#[test]
fn callbacks_left_as_they_are_succeed_and_send_nothing() {
    let mut conn = match Connection::connect(
        MemReader::new(b":s 001 Bot :Welcome\r\n:n!u@h PRIVMSG Bot :hi\r\n".to_vec()),
        Outbound::new(MemWriter::new()),
        names(&["Bot"]),
        String::from("bot"),
        String::from("A Bot"),
        Silent,
    ) {
        Ok(c) => c,
        Err(e) => panic!("connect failed: {:?}", e),
    };
    assert_eq!(conn.process_next(), Ok(true));
    assert_eq!(conn.process_next(), Ok(true));
    assert_eq!(conn.process_next(), Ok(false));
    assert!(conn.is_accepted());
    assert_eq!(conn.writer().get_inner().as_str(), LOGIN_BOT);
}

#[test]
fn connect_writes_one_login_under_the_first_of_two_nicknames() {
    let conn = match Connection::connect(
        MemReader::new(Vec::new()),
        Outbound::new(MemWriter::new()),
        names(&["Bot", "Bot2"]),
        String::from("user"),
        String::from("Real Name"),
        recorder(),
    ) {
        Ok(c) => c,
        Err(e) => panic!("connect failed: {:?}", e),
    };
    assert_eq!(conn.nick(), "Bot");
    assert!(!conn.is_accepted());
    assert_eq!(conn.writer().get_inner().as_str(), "NICK Bot\r\nUSER user 8 * :Real Name\r\n");
    assert_eq!(conn.handler().registered, 0);
    assert!(conn.handler().messages.is_empty());
}

#[test]
fn handler_is_handed_the_writer_of_the_connection() {
    let mut handler = recorder();
    handler.reply = true;
    let mut conn = match Connection::connect(
        MemReader::new(b":s 001 Bot :Welcome\r\n:nick!u@h PRIVMSG Bot :again\r\n".to_vec()),
        Outbound::new(MemWriter::new()),
        names(&["Bot"]),
        String::from("bot"),
        String::from("A Bot"),
        handler,
    ) {
        Ok(c) => c,
        Err(e) => panic!("connect failed: {:?}", e),
    };
    assert_eq!(run(&mut conn), Ok(()));
    assert_eq!(conn.handler().registered, 1);
    assert_eq!(conn.handler().messages.len(), 1);
    assert_eq!(
        conn.writer().get_inner().as_str(),
        format!("{}JOIN :#home\r\nPRIVMSG nick :again\r\n", LOGIN_BOT)
    );
}
