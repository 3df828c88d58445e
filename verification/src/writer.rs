use crate::error::IrcError;
use crate::string_tests::{newline_free, valid_nick};
use vstd::prelude::*;
use vstd::string::StringExecFns;

verus! {

/// Whether replies to a channel go out as `NOTICE` rather than `PRIVMSG`.
/// Some networks prefer `NOTICE` for automated replies, since nothing
/// answers a notice.
pub const CHANNEL_NOTICE: bool = false;

/// The registration lines: `NICK`, then `USER`.
pub open spec fn login_line(nick: Seq<char>, user_name: Seq<char>, real_name: Seq<char>) -> Seq<
    char,
> {
    "NICK "@ + nick + "\r\nUSER "@ + user_name + " 8 * :"@ + real_name + "\r\n"@
}

/// The line that ends the session.
pub open spec fn quit_line() -> Seq<char> {
    "QUIT\r\n"@
}

/// The line that joins a channel.
pub open spec fn join_line(channel: Seq<char>) -> Seq<char> {
    "JOIN :"@ + channel + "\r\n"@
}

/// The line that answers a `PING`.
pub open spec fn pong_line(data: Seq<char>) -> Seq<char> {
    "PONG :"@ + data + "\r\n"@
}

/// The line that sends a notice.
pub open spec fn notice_line(target: Seq<char>, text: Seq<char>) -> Seq<char> {
    "NOTICE "@ + target + " :"@ + text + "\r\n"@
}

/// The line that sends a message.
pub open spec fn message_line(target: Seq<char>, text: Seq<char>) -> Seq<char> {
    "PRIVMSG "@ + target + " :"@ + text + "\r\n"@
}

/// The line that replies to a channel, as `CHANNEL_NOTICE` decides.
pub open spec fn channel_notice_line(target: Seq<char>, text: Seq<char>) -> Seq<char> {
    if CHANNEL_NOTICE {
        notice_line(target, text)
    } else {
        message_line(target, text)
    }
}

/// One complete protocol line: it ends in a carriage return and a line
/// feed, and holds no other line break.
pub open spec fn one_line(l: Seq<char>) -> bool {
    &&& l.len() >= 2
    &&& l[l.len() - 2] == '\r'
    &&& l[l.len() - 1] == '\n'
    &&& newline_free(l.take(l.len() - 2))
}

/// A text without line break, followed by a carriage return and a line
/// feed, is one complete line.
pub proof fn lemma_terminated(inner: Seq<char>)
    requires
        newline_free(inner),
    ensures
        one_line(inner + "\r\n"@),
{
    reveal_strlit("\r\n");
    let l = inner + "\r\n"@;
    assert(l.take(l.len() - 2) == inner);
}

/// A message whose target and text hold no line break goes out as one
/// complete line: it ends in a carriage return and a line feed and holds no
/// other line break.
pub proof fn lemma_message_is_one_line(target: Seq<char>, text: Seq<char>)
    requires
        newline_free(target),
        newline_free(text),
    ensures
        one_line(message_line(target, text)),
{
    reveal_strlit("PRIVMSG ");
    reveal_strlit(" :");
    lemma_terminated("PRIVMSG "@ + target + " :"@ + text);
}

/// A notice whose target and text hold no line break goes out as one
/// complete line.
pub proof fn lemma_notice_is_one_line(target: Seq<char>, text: Seq<char>)
    requires
        newline_free(target),
        newline_free(text),
    ensures
        one_line(notice_line(target, text)),
{
    reveal_strlit("NOTICE ");
    reveal_strlit(" :");
    lemma_terminated("NOTICE "@ + target + " :"@ + text);
}

/// A reply to a channel whose target and text hold no line break goes out
/// as one complete line, whichever command carries it.
pub proof fn lemma_channel_notice_is_one_line(target: Seq<char>, text: Seq<char>)
    requires
        newline_free(target),
        newline_free(text),
    ensures
        one_line(channel_notice_line(target, text)),
{
    lemma_message_is_one_line(target, text);
    lemma_notice_is_one_line(target, text);
}

/// A `JOIN` for a channel name without line break goes out as one complete
/// line.
pub proof fn lemma_join_is_one_line(channel: Seq<char>)
    requires
        newline_free(channel),
    ensures
        one_line(join_line(channel)),
{
    reveal_strlit("JOIN :");
    lemma_terminated("JOIN :"@ + channel);
}

/// A `PONG` for a token without line break goes out as one complete line.
pub proof fn lemma_pong_is_one_line(data: Seq<char>)
    requires
        newline_free(data),
    ensures
        one_line(pong_line(data)),
{
    reveal_strlit("PONG :");
    lemma_terminated("PONG :"@ + data);
}

/// `QUIT` goes out as one complete line.
pub proof fn lemma_quit_is_one_line()
    ensures
        one_line(quit_line()),
{
    reveal_strlit("QUIT\r\n");
    reveal_strlit("QUIT");
    assert(quit_line() == "QUIT"@ + "\r\n"@) by {
        reveal_strlit("\r\n");
    }
    lemma_terminated("QUIT"@);
}

/// A login under a valid nickname, with a user name and a real name that
/// hold no line break, goes out as two complete lines: the `NICK` line and
/// then the `USER` line.
pub proof fn lemma_login_is_two_lines(nick: Seq<char>, user_name: Seq<char>, real_name: Seq<char>)
    requires
        valid_nick(nick),
        newline_free(user_name),
        newline_free(real_name),
    ensures
        one_line("NICK "@ + nick + "\r\n"@),
        one_line("USER "@ + user_name + " 8 * :"@ + real_name + "\r\n"@),
        login_line(nick, user_name, real_name) == ("NICK "@ + nick + "\r\n"@) + ("USER "@
            + user_name + " 8 * :"@ + real_name + "\r\n"@),
{
    reveal_strlit("NICK ");
    reveal_strlit("USER ");
    reveal_strlit(" 8 * :");
    reveal_strlit("\r\n");
    reveal_strlit("\r\nUSER ");
    lemma_terminated("NICK "@ + nick);
    lemma_terminated("USER "@ + user_name + " 8 * :"@ + real_name);
    assert("\r\nUSER "@ == "\r\n"@ + "USER "@);
}

/// Builds the registration lines.
pub fn make_login_line(nick: &str, user_name: &str, real_name: &str) -> (line: String)
    ensures
        line@ == login_line(nick@, user_name@, real_name@),
{
    let mut line = String::from_str("NICK ");
    line.append(nick);
    line.append("\r\nUSER ");
    line.append(user_name);
    line.append(" 8 * :");
    line.append(real_name);
    line.append("\r\n");
    line
}

/// Builds the line that joins a channel.
pub fn make_join_line(channel: &str) -> (line: String)
    ensures
        line@ == join_line(channel@),
{
    let mut line = String::from_str("JOIN :");
    line.append(channel);
    line.append("\r\n");
    line
}

/// Builds the line that answers a `PING`.
pub fn make_pong_line(data: &str) -> (line: String)
    ensures
        line@ == pong_line(data@),
{
    let mut line = String::from_str("PONG :");
    line.append(data);
    line.append("\r\n");
    line
}

/// Builds the line that sends a notice.
pub fn make_notice_line(target: &str, text: &str) -> (line: String)
    ensures
        line@ == notice_line(target@, text@),
{
    let mut line = String::from_str("NOTICE ");
    line.append(target);
    line.append(" :");
    line.append(text);
    line.append("\r\n");
    line
}

/// Builds the line that sends a message.
pub fn make_message_line(target: &str, text: &str) -> (line: String)
    ensures
        line@ == message_line(target@, text@),
{
    let mut line = String::from_str("PRIVMSG ");
    line.append(target);
    line.append(" :");
    line.append(text);
    line.append("\r\n");
    line
}

/// The outbound half of a transport, as far as this library uses it: a
/// place to write text to.
pub trait Writer {
    /// Writes the whole of `s`, or fails.
    fn write_str(&mut self, s: &str) -> Result<(), IrcError>;
}

/// A transport whose outbound half can be closed while the inbound half
/// stays open.
pub trait CloseWrite {
    /// Closes the outbound half.
    fn close_write(&mut self) -> Result<(), IrcError>;
}

/// The commands that a client sends. Each is written as one unit; a text
/// that would break its line is a fault of the caller.
pub trait IrcWriter: Clone + Send {
    /// All that was handed to the transport through this handle, in order,
    /// whatever the transport made of it.
    spec fn handed(&self) -> Seq<char>;

    /// The commands that went out in full through this handle, in order.
    spec fn sent(&self) -> Seq<char>;

    /// Whether the session was ended through this handle.
    spec fn closed(&self) -> bool;

    /// Registers with the server under `nick`. The login is handed to the
    /// transport as one text, and counts as sent if the transport takes it.
    fn login(&mut self, nick: &str, user_name: &str, real_name: &str) -> (r: Result<(), IrcError>)
        requires
            valid_nick(nick@),
        ensures
            final(self).handed() == old(self).handed() + login_line(nick@, user_name@, real_name@),
            final(self).closed() == old(self).closed(),
            final(self).sent() == if r is Ok {
                old(self).sent() + login_line(nick@, user_name@, real_name@)
            } else {
                old(self).sent()
            },
    ;

    /// Ends the session: hands `QUIT` to the transport and, if the
    /// transport takes it, closes the outbound half.
    fn quit(&mut self) -> (r: Result<(), IrcError>)
        ensures
            final(self).handed() == old(self).handed() + quit_line(),
            r is Ok ==> final(self).closed(),
            r is Ok ==> final(self).sent() == old(self).sent() + quit_line(),
            r is Err ==> final(self).closed() == old(self).closed(),
            r is Err ==> final(self).sent() == old(self).sent() || final(self).sent() == old(
                self,
            ).sent() + quit_line(),
    ;

    /// Joins a channel.
    fn join(&mut self, channel: &str) -> (r: Result<(), IrcError>)
        requires
            newline_free(channel@),
        ensures
            final(self).handed() == old(self).handed() + join_line(channel@),
            final(self).closed() == old(self).closed(),
            final(self).sent() == if r is Ok {
                old(self).sent() + join_line(channel@)
            } else {
                old(self).sent()
            },
    ;

    /// Answers a `PING` with its token.
    fn pong(&mut self, data: &str) -> (r: Result<(), IrcError>)
        requires
            newline_free(data@),
        ensures
            final(self).handed() == old(self).handed() + pong_line(data@),
            final(self).closed() == old(self).closed(),
            final(self).sent() == if r is Ok {
                old(self).sent() + pong_line(data@)
            } else {
                old(self).sent()
            },
    ;

    /// Sends a notice to a user or a channel.
    fn notice(&mut self, target: &str, text: &str) -> (r: Result<(), IrcError>)
        requires
            newline_free(target@),
            newline_free(text@),
        ensures
            final(self).handed() == old(self).handed() + notice_line(target@, text@),
            final(self).closed() == old(self).closed(),
            final(self).sent() == if r is Ok {
                old(self).sent() + notice_line(target@, text@)
            } else {
                old(self).sent()
            },
    ;

    /// Replies to a channel, as a notice or as a message.
    fn channel_notice(&mut self, target: &str, text: &str) -> (r: Result<(), IrcError>)
        requires
            newline_free(target@),
            newline_free(text@),
        ensures
            final(self).handed() == old(self).handed() + channel_notice_line(target@, text@),
            final(self).closed() == old(self).closed(),
            final(self).sent() == if r is Ok {
                old(self).sent() + channel_notice_line(target@, text@)
            } else {
                old(self).sent()
            },
    ;

    /// Sends a message to a user or a channel.
    fn message(&mut self, target: &str, text: &str) -> (r: Result<(), IrcError>)
        requires
            newline_free(target@),
            newline_free(text@),
        ensures
            final(self).handed() == old(self).handed() + message_line(target@, text@),
            final(self).closed() == old(self).closed(),
            final(self).sent() == if r is Ok {
                old(self).sent() + message_line(target@, text@)
            } else {
                old(self).sent()
            },
    ;
}

/// The client's commands on top of a transport. It keeps account of what
/// it hands to the transport, of the commands that the transport took in
/// full, and of whether it closed the transport.
pub struct Outbound<T> {
    inner: T,
    handed: Ghost<Seq<char>>,
    sent: Ghost<Seq<char>>,
    closed: Ghost<bool>,
}

impl<T> Outbound<T> {
    /// The transport that the commands go to.
    pub closed spec fn inner(&self) -> T {
        self.inner
    }

    /// Commands on top of `inner`, none sent yet.
    pub fn new(inner: T) -> (out: Outbound<T>)
        ensures
            out.inner() == inner,
            out.handed() == Seq::<char>::empty(),
            out.sent() == Seq::<char>::empty(),
            !out.closed(),
    {
        Outbound {
            inner,
            handed: Ghost(Seq::empty()),
            sent: Ghost(Seq::empty()),
            closed: Ghost(false),
        }
    }

    /// The transport that the commands go to.
    pub fn get_inner(&self) -> (inner: &T)
        ensures
            *inner == self.inner(),
    {
        &self.inner
    }

    /// All that was handed to the transport, in order.
    pub closed spec fn handed(&self) -> Seq<char> {
        self.handed@
    }

    /// The commands that went out in full, in order.
    pub closed spec fn sent(&self) -> Seq<char> {
        self.sent@
    }

    /// Whether the transport was closed by `quit`.
    pub closed spec fn closed(&self) -> bool {
        self.closed@
    }
}

impl<T> Outbound<T> {
    /// Takes into account what the transport answered when it was handed
    /// `line`: the answer is passed on, and the line counts as sent if the
    /// answer is `Ok`.
    fn settle_write(&mut self, line: &str, answer: Result<(), IrcError>) -> (r: Result<
        (),
        IrcError,
    >)
        ensures
            r == answer,
            final(self).inner() == old(self).inner(),
            final(self).handed() == old(self).handed(),
            final(self).closed() == old(self).closed(),
            final(self).sent() == if answer is Ok {
                old(self).sent() + line@
            } else {
                old(self).sent()
            },
    {
        if answer.is_ok() {
            proof {
                self.sent@ = self.sent@ + line@;
            }
        }
        answer
    }

    /// Takes into account what the transport answered when it was asked to
    /// close: the answer is passed on, and the transport counts as closed if
    /// the answer is `Ok`.
    fn settle_close(&mut self, answer: Result<(), IrcError>) -> (r: Result<(), IrcError>)
        ensures
            r == answer,
            final(self).inner() == old(self).inner(),
            final(self).handed() == old(self).handed(),
            final(self).sent() == old(self).sent(),
            final(self).closed() == (old(self).closed() || answer is Ok),
    {
        if answer.is_ok() {
            proof {
                self.closed@ = true;
            }
        }
        answer
    }
}

impl<T: Writer> Outbound<T> {
    /// Hands one command to the transport, whole, and takes it into account
    /// as sent if the transport took it. The result is the answer of the
    /// transport's `write_str` to that text, and the transport is left as
    /// that call leaves it.
    fn send(&mut self, line: &str) -> (r: Result<(), IrcError>)
        ensures
            exists|m: &mut T|
                {
                    &&& mut_ref_current(m) == old(self).inner()
                    &&& mut_ref_future(m) == final(self).inner()
                    &&& #[trigger] call_ensures(T::write_str, (m, line), r)
                },
            final(self).handed() == old(self).handed() + line@,
            final(self).closed() == old(self).closed(),
            final(self).sent() == if r is Ok {
                old(self).sent() + line@
            } else {
                old(self).sent()
            },
    {
        proof {
            self.handed@ = self.handed@ + line@;
        }
        let answer = self.inner.write_str(line);
        self.settle_write(line, answer)
    }
}

impl<T: Clone> Clone for Outbound<T> {
    /// A second handle, on what the transport's own `clone` gives, with the
    /// same account.
    fn clone(&self) -> (out: Outbound<T>)
        ensures
            call_ensures(T::clone, (&self.inner(),), out.inner()),
            out.handed() == self.handed(),
            out.sent() == self.sent(),
            out.closed() == self.closed(),
    {
        Outbound {
            inner: self.inner.clone(),
            handed: self.handed,
            sent: self.sent,
            closed: self.closed,
        }
    }
}

impl<T: Writer + CloseWrite + Clone + Send> IrcWriter for Outbound<T> {
    open spec fn handed(&self) -> Seq<char> {
        Outbound::handed(self)
    }

    open spec fn sent(&self) -> Seq<char> {
        Outbound::sent(self)
    }

    open spec fn closed(&self) -> bool {
        Outbound::closed(self)
    }

    /// The result is the answer of the transport's `write_str` to the
    /// login, and the transport is left as that call leaves it.
    fn login(&mut self, nick: &str, user_name: &str, real_name: &str) -> (r: Result<(), IrcError>)
        ensures
            exists|m: &mut T, line: &str|
                {
                    &&& line@ == login_line(nick@, user_name@, real_name@)
                    &&& mut_ref_current(m) == old(self).inner()
                    &&& mut_ref_future(m) == final(self).inner()
                    &&& #[trigger] call_ensures(T::write_str, (m, line), r)
                },
    {
        let out = make_login_line(nick, user_name, real_name);
        self.send(out.as_str())
    }

    /// Where the transport's `write_str` refuses the `QUIT` line, the
    /// result is that answer and the transport is left as that call leaves
    /// it. Where it takes the line, the result is the answer of the
    /// transport's `close_write`, called on what `write_str` left, and the
    /// transport is left as `close_write` leaves it.
    fn quit(&mut self) -> (r: Result<(), IrcError>)
        ensures
            exists|m: &mut T, line: &str, written: Result<(), IrcError>|
                {
                    &&& line@ == quit_line()
                    &&& mut_ref_current(m) == old(self).inner()
                    &&& #[trigger] call_ensures(T::write_str, (m, line), written)
                    &&& if written is Err {
                        r == written && mut_ref_future(m) == final(self).inner()
                    } else {
                        exists|c: &mut T|
                            {
                                &&& mut_ref_current(c) == mut_ref_future(m)
                                &&& mut_ref_future(c) == final(self).inner()
                                &&& #[trigger] call_ensures(T::close_write, (c,), r)
                            }
                    }
                },
    {
        match self.send("QUIT\r\n") {
            Ok(()) => {
                let answer = self.inner.close_write();
                self.settle_close(answer)
            },
            Err(e) => Err(e),
        }
    }

    /// The result is the answer of the transport's `write_str` to the
    /// `JOIN` line, and the transport is left as that call leaves it.
    fn join(&mut self, channel: &str) -> (r: Result<(), IrcError>)
        ensures
            exists|m: &mut T, line: &str|
                {
                    &&& line@ == join_line(channel@)
                    &&& mut_ref_current(m) == old(self).inner()
                    &&& mut_ref_future(m) == final(self).inner()
                    &&& #[trigger] call_ensures(T::write_str, (m, line), r)
                },
    {
        let out = make_join_line(channel);
        self.send(out.as_str())
    }

    /// The result is the answer of the transport's `write_str` to the
    /// `PONG` line, and the transport is left as that call leaves it.
    fn pong(&mut self, data: &str) -> (r: Result<(), IrcError>)
        ensures
            exists|m: &mut T, line: &str|
                {
                    &&& line@ == pong_line(data@)
                    &&& mut_ref_current(m) == old(self).inner()
                    &&& mut_ref_future(m) == final(self).inner()
                    &&& #[trigger] call_ensures(T::write_str, (m, line), r)
                },
    {
        let out = make_pong_line(data);
        self.send(out.as_str())
    }

    /// The result is the answer of the transport's `write_str` to the
    /// `NOTICE` line, and the transport is left as that call leaves it.
    fn notice(&mut self, target: &str, text: &str) -> (r: Result<(), IrcError>)
        ensures
            exists|m: &mut T, line: &str|
                {
                    &&& line@ == notice_line(target@, text@)
                    &&& mut_ref_current(m) == old(self).inner()
                    &&& mut_ref_future(m) == final(self).inner()
                    &&& #[trigger] call_ensures(T::write_str, (m, line), r)
                },
    {
        let out = make_notice_line(target, text);
        self.send(out.as_str())
    }

    /// The result is the answer of the transport's `write_str` to the
    /// line, and the transport is left as that call leaves it.
    fn channel_notice(&mut self, target: &str, text: &str) -> (r: Result<(), IrcError>)
        ensures
            exists|m: &mut T, line: &str|
                {
                    &&& line@ == channel_notice_line(target@, text@)
                    &&& mut_ref_current(m) == old(self).inner()
                    &&& mut_ref_future(m) == final(self).inner()
                    &&& #[trigger] call_ensures(T::write_str, (m, line), r)
                },
    {
        if CHANNEL_NOTICE {
            self.notice(target, text)
        } else {
            self.message(target, text)
        }
    }

    /// The result is the answer of the transport's `write_str` to the
    /// `PRIVMSG` line, and the transport is left as that call leaves it.
    fn message(&mut self, target: &str, text: &str) -> (r: Result<(), IrcError>)
        ensures
            exists|m: &mut T, line: &str|
                {
                    &&& line@ == message_line(target@, text@)
                    &&& mut_ref_current(m) == old(self).inner()
                    &&& mut_ref_future(m) == final(self).inner()
                    &&& #[trigger] call_ensures(T::write_str, (m, line), r)
                },
    {
        let out = make_message_line(target, text);
        self.send(out.as_str())
    }
}

/// A transport that keeps in memory what is written to it.
pub struct MemWriter {
    buf: String,
    closed: bool,
}

impl MemWriter {
    /// All that was written, in order.
    pub closed spec fn written(&self) -> Seq<char> {
        self.buf@
    }

    /// Whether the writer was closed.
    pub closed spec fn write_closed(&self) -> bool {
        self.closed
    }

    /// A writer that holds nothing yet.
    pub fn new() -> (w: MemWriter)
        ensures
            w.written() == Seq::<char>::empty(),
            !w.write_closed(),
    {
        MemWriter { buf: String::new(), closed: false }
    }

    /// All that was written, as text.
    pub fn as_str(&self) -> (s: &str)
        ensures
            s@ == self.written(),
    {
        self.buf.as_str()
    }

    /// All that was written, as bytes.
    pub fn get_ref(&self) -> (bytes: &[u8])
        ensures
            bytes@ == vstd::utf8::encode_utf8(self.written()),
    {
        self.buf.as_str().as_bytes()
    }

    /// Whether the writer was closed.
    pub fn is_closed(&self) -> (b: bool)
        ensures
            b == self.write_closed(),
    {
        self.closed
    }
}

impl Clone for MemWriter {
    fn clone(&self) -> (w: MemWriter)
        ensures
            w.written() == self.written(),
            w.write_closed() == self.write_closed(),
    {
        MemWriter { buf: self.buf.clone(), closed: self.closed }
    }
}

impl Writer for MemWriter {
    /// Keeps `s` behind what was written before. Never fails.
    fn write_str(&mut self, s: &str) -> (r: Result<(), IrcError>)
        ensures
            r is Ok,
            final(self).written() == old(self).written() + s@,
            final(self).write_closed() == old(self).write_closed(),
    {
        self.buf.append(s);
        Ok(())
    }
}

impl CloseWrite for MemWriter {
    /// Marks the writer as closed. Never fails.
    fn close_write(&mut self) -> (r: Result<(), IrcError>)
        ensures
            r is Ok,
            final(self).written() == old(self).written(),
            final(self).write_closed(),
    {
        self.closed = true;
        Ok(())
    }
}

} // verus!
