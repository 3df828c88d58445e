use crate::cmd_parser::{decode, EventView, IrcEvent, IrcLine};
use crate::error::{failure, ErrorKind, IrcError};
use crate::reader::TolerantLineReader;
use crate::string_tests::{newline_free, valid_nick, StringTests};
use crate::text::same_text;
use crate::writer::{
    lemma_login_is_two_lines, lemma_pong_is_one_line, login_line, one_line, pong_line, IrcWriter,
};
use vstd::prelude::*;
use vstd::std_specs::iter::IteratorSpec;

verus! {

/// Where candidate nicknames come from: asked once when the connection is
/// made, and once more each time the server rejects a nickname.
pub trait NickSource {
    /// The next candidate, or `None` when there is none left.
    fn next_nick(&mut self) -> Option<String>;
}

impl<T: Iterator<Item = String>> NickSource for T {
    /// The next item of the iterator, which for an iterator that keeps to
    /// the laws of iterators is the first of those it had left.
    fn next_nick(&mut self) -> (candidate: Option<String>)
        ensures
            IteratorSpec::obeys_prophetic_iter_laws(old(self)) ==> candidate == first_of(
                IteratorSpec::remaining(old(self)),
            ),
    {
        self.next()
    }
}

/// The first of the nicknames that a source will give, if it will give
/// any.
pub open spec fn first_of(names: Seq<String>) -> Option<String> {
    if names.len() > 0 {
        Some(names[0])
    } else {
        None
    }
}

/// What the author of a bot plugs in, for a writer of type `W`. Either
/// callback may send commands, and may fail, which stops the connection.
pub trait IrcEventHandler<W: IrcWriter>: Sized {
    /// Called when the server has accepted the registration. Unless the
    /// handler says otherwise, nothing is done about it: the call succeeds
    /// and leaves handler and writer as they are.
    fn on_registered(&mut self, write: &mut W) -> (r: Result<(), IrcError>)
        default_ensures
            r is Ok,
            *final(self) == *old(self),
            *final(write) == *old(write),
    {
        Ok(())
    }

    /// Called for each message received, with its text and the whole event.
    /// Unless the handler says otherwise, nothing is done about it: the
    /// call succeeds and leaves handler and writer as they are.
    fn on_privmsg<'a>(
        &mut self,
        text: &str,
        ev: &IrcEvent<'a>,
        write: &mut W,
    ) -> (r: Result<(), IrcError>)
        default_ensures
            r is Ok,
            *final(self) == *old(self),
            *final(write) == *old(write),
    {
        Ok(())
    }
}

/// One call of the handler, with what it was handed.
pub ghost enum HandlerCall {
    /// `on_registered` was called.
    Registered,
    /// `on_privmsg` was called with this text and this event.
    Privmsg { text: Seq<char>, event: EventView },
}

/// What a connection does about an event.
#[derive(Clone, Copy, Debug, PartialEq, Eq, Structural)]
pub enum Reaction {
    /// Hand the message to the handler.
    Deliver,
    /// Answer the `PING` with its token.
    Pong,
    /// Take the nickname as accepted and tell the handler.
    Welcome,
    /// Log in again under the next candidate nickname.
    Retry,
    /// Nothing: the command is of no concern to the connection.
    Ignore,
    /// Stop with an error of the given kind.
    Fail(ErrorKind),
}

/// The reaction to an event, given its command and arguments and whether
/// the nickname has been accepted.
pub open spec fn reaction(cmd: Seq<char>, args: Seq<Seq<char>>, accepted: bool) -> Reaction {
    if cmd == "PRIVMSG"@ {
        if args.len() == 2 {
            Reaction::Deliver
        } else {
            Reaction::Fail(ErrorKind::MalformedPrivmsg)
        }
    } else if cmd == "PING"@ {
        if args.len() == 1 && newline_free(args[0]) {
            Reaction::Pong
        } else {
            Reaction::Fail(ErrorKind::MalformedPing)
        }
    } else if cmd == "001"@ {
        Reaction::Welcome
    } else if cmd == "433"@ || cmd == "436"@ {
        if accepted {
            Reaction::Fail(ErrorKind::UnexpectedNickReply)
        } else {
            Reaction::Retry
        }
    } else {
        Reaction::Ignore
    }
}

/// Decides what to do about an event.
pub fn react<'a>(ev: &IrcEvent<'a>, accepted: bool) -> (r: Reaction)
    ensures
        r == reaction(ev@.cmd, ev@.args, accepted),
{
    if same_text(ev.cmd, "PRIVMSG") {
        if ev.args.len() == 2 {
            Reaction::Deliver
        } else {
            Reaction::Fail(ErrorKind::MalformedPrivmsg)
        }
    } else if same_text(ev.cmd, "PING") {
        if ev.args.len() == 1 && ev.args[0].no_newline() {
            Reaction::Pong
        } else {
            Reaction::Fail(ErrorKind::MalformedPing)
        }
    } else if same_text(ev.cmd, "001") {
        Reaction::Welcome
    } else if same_text(ev.cmd, "433") || same_text(ev.cmd, "436") {
        if accepted {
            Reaction::Fail(ErrorKind::UnexpectedNickReply)
        } else {
            Reaction::Retry
        }
    } else {
        Reaction::Ignore
    }
}

enum NickStatus {
    Registering(Box<dyn NickSource>),
    Accepted,
}

/// One connection to a server: the two halves of the transport, the names
/// the client goes by, how far the registration has come, and the handler.
/// It keeps account of the calls that it makes of the handler.
pub struct Connection<In, Out, Handler> {
    read: In,
    write: Out,
    nick: String,
    nick_status: NickStatus,
    user_name: String,
    real_name: String,
    event_handler: Handler,
    calls: Ghost<Seq<HandlerCall>>,
}

/// What a connection holds, as plain values.
pub ghost struct ConnectionView<In, Out, Handler> {
    pub read: In,
    pub write: Out,
    pub nick: Seq<char>,
    pub accepted: bool,
    pub user_name: Seq<char>,
    pub real_name: Seq<char>,
    pub event_handler: Handler,
    /// The calls of the handler that the connection has made, in order.
    pub calls: Seq<HandlerCall>,
}

impl<In, Out, Handler> View for Connection<In, Out, Handler> {
    type V = ConnectionView<In, Out, Handler>;

    closed spec fn view(&self) -> ConnectionView<In, Out, Handler> {
        ConnectionView {
            read: self.read,
            write: self.write,
            nick: self.nick@,
            accepted: self.nick_status is Accepted,
            user_name: self.user_name@,
            real_name: self.real_name@,
            event_handler: self.event_handler,
            calls: self.calls@,
        }
    }
}

impl<In, Out: IrcWriter, Handler> ConnectionView<In, Out, Handler> {
    /// The names are fit for the wire: nickname and user name are within
    /// the nickname grammar, and the real name holds no line break.
    pub open spec fn wf(self) -> bool {
        &&& valid_nick(self.nick)
        &&& valid_nick(self.user_name)
        &&& newline_free(self.real_name)
    }

    /// Nickname, registration state, writer and handler are in `post` what
    /// they are in `self`, and the handler was not called in between.
    pub open spec fn kept(self, post: Self) -> bool {
        &&& post.nick == self.nick
        &&& post.accepted == self.accepted
        &&& post.write == self.write
        &&& post.event_handler == self.event_handler
        &&& post.calls == self.calls
    }

    /// What offering a candidate nickname leads to, from `self` to `post`,
    /// with the error `failed` or with success.
    ///
    /// After acceptance the request is refused. Before it, a missing or
    /// invalid candidate is refused; a valid one becomes the nickname, and
    /// the login under it was sent unless the transport failed.
    pub open spec fn offered(
        self,
        post: Self,
        candidate: Option<Seq<char>>,
        failed: Option<IrcError>,
    ) -> bool {
        if self.accepted {
            self.kept(post) && failed == Some(
                IrcError { kind: ErrorKind::UnexpectedNickReply, detail: None },
            )
        } else {
            match candidate {
                None => self.kept(post) && failed == Some(
                    IrcError { kind: ErrorKind::NicknamesExhausted, detail: None },
                ),
                Some(nick) => if !valid_nick(nick) {
                    self.kept(post) && failed == Some(
                        IrcError { kind: ErrorKind::InvalidNickname, detail: None },
                    )
                } else {
                    &&& post.nick == nick
                    &&& !post.accepted
                    &&& post.event_handler == self.event_handler
                    &&& post.calls == self.calls
                    &&& post.write.closed() == self.write.closed()
                    &&& post.write.handed() == self.write.handed() + login_line(
                        nick,
                        self.user_name,
                        self.real_name,
                    )
                    &&& post.write.sent() == if failed is None {
                        self.write.sent() + login_line(nick, self.user_name, self.real_name)
                    } else {
                        self.write.sent()
                    }
                },
            }
        }
    }

    /// What handling an event leads to, from `self` to `post`, with the
    /// error `failed` or with success, by the reaction that the event calls
    /// for.
    pub open spec fn handled(self, post: Self, ev: EventView, failed: Option<IrcError>) -> bool {
        match reaction(ev.cmd, ev.args, self.accepted) {
            Reaction::Fail(kind) => self.kept(post) && failed == Some(
                IrcError { kind, detail: None },
            ),
            Reaction::Ignore => self.kept(post) && failed is None,
            Reaction::Pong => {
                &&& post.nick == self.nick
                &&& post.accepted == self.accepted
                &&& post.event_handler == self.event_handler
                &&& post.calls == self.calls
                &&& post.write.closed() == self.write.closed()
                &&& post.write.handed() == self.write.handed() + pong_line(ev.args[0])
                &&& post.write.sent() == if failed is None {
                    self.write.sent() + pong_line(ev.args[0])
                } else {
                    self.write.sent()
                }
            },
            Reaction::Welcome => {
                &&& post.nick == self.nick
                &&& post.accepted
                &&& post.calls == self.calls.push(HandlerCall::Registered)
            },
            Reaction::Deliver => {
                &&& post.nick == self.nick
                &&& post.accepted == self.accepted
                &&& post.calls == self.calls.push(
                    HandlerCall::Privmsg { text: ev.args[1], event: ev },
                )
            },
            Reaction::Retry => exists|candidate: Option<Seq<char>>| #[trigger]
                self.offered(post, candidate, failed),
        }
    }

    /// What receiving a line leads to: a line without command is refused,
    /// any other is handled as the event it decodes to.
    pub open spec fn received(self, post: Self, line: Seq<char>, failed: Option<IrcError>) -> bool {
        match decode(line) {
            None => self.kept(post) && failed == Some(
                IrcError { kind: ErrorKind::MalformedLine, detail: None },
            ),
            Some(ev) => self.handled(post, ev, failed),
        }
    }

    /// What one attempt to read leads to. The end of the stream changes
    /// nothing and gives `Ok(false)`; a failure to read changes nothing and
    /// is handed on; a line is received, and gives `Ok(true)` unless
    /// receiving it fails.
    pub open spec fn processed(
        self,
        post: Self,
        outcome: Option<Result<Seq<char>, IrcError>>,
        r: Result<bool, IrcError>,
    ) -> bool {
        match outcome {
            None => self.kept(post) && r == Ok::<bool, IrcError>(false),
            Some(Err(e)) => self.kept(post) && if e.kind == ErrorKind::EndOfStream {
                r == Ok::<bool, IrcError>(false)
            } else {
                r == Err::<bool, IrcError>(e)
            },
            Some(Ok(line)) => self.received(post, line, failure(r)) && r != Ok::<bool, IrcError>(
                false,
            ),
        }
    }
}

impl<In, Out: IrcWriter, Handler> ConnectionView<In, Out, Handler> {
    /// What `processed` says of a state, it says of every state with the
    /// same names, registration state, writer and handler: the reader has
    /// no part in it.
    proof fn lemma_processed_by_state(
        self,
        other: Self,
        post: Self,
        outcome: Option<Result<Seq<char>, IrcError>>,
        r: Result<bool, IrcError>,
    )
        requires
            self.processed(post, outcome, r),
            other.nick == self.nick,
            other.accepted == self.accepted,
            other.write == self.write,
            other.event_handler == self.event_handler,
            other.calls == self.calls,
            other.user_name == self.user_name,
            other.real_name == self.real_name,
        ensures
            other.processed(post, outcome, r),
    {
        if let Some(Ok(line)) = outcome {
            if let Some(ev) = decode(line) {
                if reaction(ev.cmd, ev.args, self.accepted) is Retry {
                    let candidate = choose|candidate: Option<Seq<char>>| #[trigger]
                        self.offered(post, candidate, failure(r));
                    assert(other.offered(post, candidate, failure(r)));
                }
            }
        }
    }
}

impl<In, Out: IrcWriter, Handler> ConnectionView<In, Out, Handler> {
    /// Acceptance is final: whatever a connection reads once the server has
    /// accepted its nickname, the nickname stays accepted and stays what it
    /// is.
    pub proof fn lemma_acceptance_is_final(
        self,
        post: Self,
        outcome: Option<Result<Seq<char>, IrcError>>,
        r: Result<bool, IrcError>,
    )
        requires
            self.accepted,
            self.processed(post, outcome, r),
        ensures
            post.accepted,
            post.nick == self.nick,
    {
    }

    /// The nickname changes only when the server rejects it during
    /// registration, and then to a candidate within the nickname grammar;
    /// the connection goes on registering.
    pub proof fn lemma_nick_changes_on_rejection_only(
        self,
        post: Self,
        outcome: Option<Result<Seq<char>, IrcError>>,
        r: Result<bool, IrcError>,
    )
        requires
            self.processed(post, outcome, r),
            post.nick != self.nick,
        ensures
            !self.accepted,
            !post.accepted,
            valid_nick(post.nick),
            outcome matches Some(Ok(line)) && decode(line) matches Some(ev) && (ev.cmd == "433"@
                || ev.cmd == "436"@),
    {
    }

    /// One attempt to read leads to one call of the handler at most: to
    /// `on_registered` for a `001`, to `on_privmsg` for a `PRIVMSG` with
    /// exactly a target and a text, and to none for anything else.
    pub proof fn lemma_handler_is_called_once_at_most(
        self,
        post: Self,
        outcome: Option<Result<Seq<char>, IrcError>>,
        r: Result<bool, IrcError>,
    )
        requires
            self.processed(post, outcome, r),
        ensures
            post.calls == self.calls || post.calls == self.calls.push(post.calls.last()),
            post.calls != self.calls ==> (outcome matches Some(Ok(line)) && decode(line) matches Some(
                ev,
            ) && match post.calls.last() {
                HandlerCall::Registered => ev.cmd == "001"@,
                HandlerCall::Privmsg { text, event } => ev.cmd == "PRIVMSG"@ && ev.args.len() == 2
                    && text == ev.args[1] && event == ev,
            }),
    {
    }

    /// What a connection hands to the transport of its own accord is made
    /// of complete lines, whatever the transport makes of it: the answer to
    /// a `PING` is one, and a login under the candidate that follows a
    /// rejected nickname is two, the `NICK` line and the `USER` line.
    pub proof fn lemma_replies_are_whole_lines(
        self,
        post: Self,
        ev: EventView,
        failed: Option<IrcError>,
    )
        requires
            self.wf(),
            self.handled(post, ev, failed),
        ensures
            reaction(ev.cmd, ev.args, self.accepted) is Pong ==> one_line(pong_line(ev.args[0]))
                && post.write.handed() == self.write.handed() + pong_line(ev.args[0]),
            reaction(ev.cmd, ev.args, self.accepted) is Retry ==> post.write.handed()
                == self.write.handed() || (one_line("NICK "@ + post.nick + "\r\n"@) && one_line(
                "USER "@ + self.user_name + " 8 * :"@ + self.real_name + "\r\n"@,
            ) && post.write.handed() == self.write.handed() + ("NICK "@ + post.nick + "\r\n"@) + (
            "USER "@ + self.user_name + " 8 * :"@ + self.real_name + "\r\n"@)),
    {
        if reaction(ev.cmd, ev.args, self.accepted) is Pong {
            lemma_pong_is_one_line(ev.args[0]);
        }
        if reaction(ev.cmd, ev.args, self.accepted) is Retry {
            let candidate = choose|candidate: Option<Seq<char>>| #[trigger]
                self.offered(post, candidate, failed);
            if candidate matches Some(nick) && valid_nick(nick) {
                lemma_login_is_two_lines(post.nick, self.user_name, self.real_name);
                let first = "NICK "@ + post.nick + "\r\n"@;
                let second = "USER "@ + self.user_name + " 8 * :"@ + self.real_name + "\r\n"@;
                assert(self.write.handed() + (first + second) == self.write.handed() + first
                    + second);
            }
        }
    }

    /// A line that calls for no reaction, or for a failure, leaves
    /// nickname, registration state, writer and handler as they are and
    /// calls nobody; and the result is decided by the line and the
    /// registration state alone.
    pub proof fn lemma_refusal_changes_nothing(
        self,
        post: Self,
        line: Seq<char>,
        failed: Option<IrcError>,
    )
        requires
            self.received(post, line, failed),
            decode(line) matches Some(ev) ==> reaction(ev.cmd, ev.args, self.accepted) is Fail
                || reaction(ev.cmd, ev.args, self.accepted) is Ignore,
        ensures
            self.kept(post),
            failed == match decode(line) {
                None => Some(IrcError { kind: ErrorKind::MalformedLine, detail: None }),
                Some(ev) => match reaction(ev.cmd, ev.args, self.accepted) {
                    Reaction::Fail(kind) => Some(IrcError { kind, detail: None }),
                    _ => None,
                },
            },
    {
    }
}

/// The reaction that a line calls for, or `None` for a line without a
/// command.
pub open spec fn line_reaction(line: Seq<char>, accepted: bool) -> Option<Reaction> {
    match decode(line) {
        Some(ev) => Some(reaction(ev.cmd, ev.args, accepted)),
        None => None,
    }
}

/// The reaction that what an attempt to read gave calls for, or `None`
/// where it gave no line with a command.
pub open spec fn outcome_reaction(
    outcome: Option<Result<Seq<char>, IrcError>>,
    accepted: bool,
) -> Option<Reaction> {
    match outcome {
        Some(Ok(line)) => line_reaction(line, accepted),
        _ => None,
    }
}

/// What reading on makes of the answer to a line: after success there may
/// be more to read, and a failure is handed on.
pub open spec fn went_on(answer: Result<(), IrcError>) -> Result<bool, IrcError> {
    match answer {
        Ok(_) => Ok(true),
        Err(e) => Err(e),
    }
}

/// The text of a candidate nickname, if there is a candidate.
pub open spec fn candidate_text(candidate: Option<String>) -> Option<Seq<char>> {
    match candidate {
        Some(nick) => Some(nick@),
        None => None,
    }
}

/// The text of what an attempt to read gave.
pub open spec fn outcome_text(outcome: Option<Result<String, IrcError>>) -> Option<
    Result<Seq<char>, IrcError>,
> {
    match outcome {
        Some(Ok(line)) => Some(Ok(line@)),
        Some(Err(e)) => Some(Err(e)),
        None => None,
    }
}

impl<In: TolerantLineReader, Out: IrcWriter, Handler: IrcEventHandler<Out>> Connection<
    In,
    Out,
    Handler,
> {
    /// What making a connection leads to, given the first candidate
    /// nickname: without a candidate within the nickname grammar it fails;
    /// with one, if it succeeds, the connection holds what it was given,
    /// awaits acceptance of the candidate, and has sent the login under it.
    pub open spec fn connected(
        read: In,
        write: Out,
        first: Option<Seq<char>>,
        user_name: Seq<char>,
        real_name: Seq<char>,
        event_handler: Handler,
        r: Result<Self, IrcError>,
    ) -> bool {
        match first {
            None => r matches Err(e) && e == (IrcError {
                kind: ErrorKind::NicknamesExhausted,
                detail: None,
            }),
            Some(nick) => if !valid_nick(nick) {
                r matches Err(e) && e == (IrcError {
                    kind: ErrorKind::InvalidNickname,
                    detail: None,
                })
            } else {
                r matches Ok(c) ==> {
                    &&& c@.wf()
                    &&& c@.read == read
                    &&& c@.nick == nick
                    &&& !c@.accepted
                    &&& c@.user_name == user_name
                    &&& c@.real_name == real_name
                    &&& c@.event_handler == event_handler
                    &&& c@.calls == Seq::<HandlerCall>::empty()
                    &&& c@.write.closed() == write.closed()
                    &&& c@.write.handed() == write.handed() + login_line(
                        nick,
                        user_name,
                        real_name,
                    )
                    &&& c@.write.sent() == write.sent() + login_line(nick, user_name, real_name)
                }
            },
        }
    }

    /// Makes a connection and logs in under the first nickname that `names`
    /// gives. A source that keeps to the laws of iterators must not give a
    /// first nickname outside the nickname grammar.
    ///
    /// Without a candidate the result is `NicknamesExhausted`. With one, the
    /// result goes by the answer of the writer's `login` under it: on `Ok`
    /// the connection is returned, with the writer as that call left it; an
    /// error is handed on as it is.
    pub fn connect<T: Iterator<Item = String> + 'static>(
        read: In,
        write: Out,
        names: T,
        user_name: String,
        real_name: String,
        event_handler: Handler,
    ) -> (r: Result<Self, IrcError>)
        requires
            valid_nick(user_name@),
            newline_free(real_name@),
            names.obeys_prophetic_iter_laws() && names.remaining().len() > 0 ==> valid_nick(
                names.remaining()[0]@,
            ),
        ensures
            exists|first: Option<String>|
                {
                    &&& #[trigger] Self::connected(
                        read,
                        write,
                        candidate_text(first),
                        user_name@,
                        real_name@,
                        event_handler,
                        r,
                    )
                    &&& names.obeys_prophetic_iter_laws() ==> first == first_of(names.remaining())
                    &&& candidate_text(first) is Some && valid_nick(candidate_text(first)->0) ==> (
                    exists|w: &mut Out, n: &str, u: &str, rn: &str, answer: Result<(), IrcError>|
                        {
                            &&& Some(n@) == candidate_text(first)
                            &&& u@ == user_name@
                            &&& rn@ == real_name@
                            &&& mut_ref_current(w) == write
                            &&& #[trigger] call_ensures(Out::login, (w, n, u, rn), answer)
                            &&& match answer {
                                Ok(_) => r matches Ok(c) && c@.write == mut_ref_future(w),
                                Err(e) => r matches Err(e2) && e2 == e,
                            }
                        })
                },
    {
        let mut names = names;
        let first = names.next();
        let valid = match &first {
            Some(nick) => nick.is_valid_nick(),
            None => true,
        };
        if !valid {
            let r = Err(IrcError::new(ErrorKind::InvalidNickname));
            assert(Self::connected(
                read,
                write,
                candidate_text(first),
                user_name@,
                real_name@,
                event_handler,
                r,
            ));
            return r;
        }
        let r = Self::with_first_nick(
            read,
            write,
            first,
            names,
            user_name,
            real_name,
            event_handler,
        );
        assert(Self::connected(
            read,
            write,
            candidate_text(first),
            user_name@,
            real_name@,
            event_handler,
            r,
        ));
        r
    }

    /// Makes a connection and logs in under `first`, which must be within
    /// the nickname grammar; `names` gives the nicknames to fall back on.
    ///
    /// Without a candidate the result is `NicknamesExhausted`. With one, the
    /// result goes by the answer of the writer's `login` under it: on `Ok`
    /// the connection is returned, with the writer as that call left it; an
    /// error is handed on as it is.
    pub fn with_first_nick<T: NickSource + 'static>(
        read: In,
        write: Out,
        first: Option<String>,
        names: T,
        user_name: String,
        real_name: String,
        event_handler: Handler,
    ) -> (r: Result<Self, IrcError>)
        requires
            valid_nick(user_name@),
            newline_free(real_name@),
            first matches Some(nick) ==> valid_nick(nick@),
        ensures
            Self::connected(
                read,
                write,
                candidate_text(first),
                user_name@,
                real_name@,
                event_handler,
                r,
            ),
            candidate_text(first) is Some ==> (
                exists|w: &mut Out, n: &str, u: &str, rn: &str, answer: Result<(), IrcError>|
                    {
                        &&& Some(n@) == candidate_text(first)
                        &&& u@ == user_name@
                        &&& rn@ == real_name@
                        &&& mut_ref_current(w) == write
                        &&& #[trigger] call_ensures(Out::login, (w, n, u, rn), answer)
                        &&& match answer {
                            Ok(_) => r matches Ok(c) && c@.write == mut_ref_future(w),
                            Err(e) => r matches Err(e2) && e2 == e,
                        }
                    }),
    {
        let nick = match first {
            Some(nick) => nick,
            None => {
                return Err(IrcError::new(ErrorKind::NicknamesExhausted));
            },
        };
        let mut irc = Connection {
            read,
            write,
            nick,
            nick_status: NickStatus::Registering(Box::new(names)),
            user_name,
            real_name,
            event_handler,
            calls: Ghost(Seq::empty()),
        };
        match irc.write.login(irc.nick.as_str(), irc.user_name.as_str(), irc.real_name.as_str()) {
            Ok(()) => Ok(irc),
            Err(e) => Err(e),
        }
    }

    /// The nickname that the client goes by, or is trying to.
    pub fn nick(&self) -> (nick: &str)
        ensures
            nick@ == self@.nick,
    {
        self.nick.as_str()
    }

    /// Whether the server has accepted the nickname.
    pub fn is_accepted(&self) -> (accepted: bool)
        ensures
            accepted == self@.accepted,
    {
        match self.nick_status {
            NickStatus::Accepted => true,
            NickStatus::Registering(_) => false,
        }
    }

    /// The outbound half of the transport.
    pub fn writer(&self) -> (write: &Out)
        ensures
            *write == self@.write,
    {
        &self.write
    }

    /// The handler.
    pub fn handler(&self) -> (handler: &Handler)
        ensures
            *handler == self@.event_handler,
    {
        &self.event_handler
    }

    /// Offers a candidate for the nickname, as after the server rejected the
    /// last one: takes it and logs in again, or refuses it. Where it logs
    /// in, the result is the answer of the writer's `login`, and the writer
    /// is left as that call leaves it.
    pub fn try_nick(&mut self, candidate: Option<String>) -> (r: Result<(), IrcError>)
        requires
            old(self)@.wf(),
        ensures
            final(self)@.wf(),
            final(self)@.user_name == old(self)@.user_name,
            final(self)@.real_name == old(self)@.real_name,
            final(self)@.read == old(self)@.read,
            old(self)@.offered(final(self)@, candidate_text(candidate), failure(r)),
            !old(self)@.accepted && candidate_text(candidate) is Some && valid_nick(
                candidate_text(candidate)->0,
            ) ==> (
                exists|w: &mut Out, n: &str, u: &str, rn: &str|
                    {
                        &&& Some(n@) == candidate_text(candidate)
                        &&& u@ == old(self)@.user_name
                        &&& rn@ == old(self)@.real_name
                        &&& mut_ref_current(w) == old(self)@.write
                        &&& mut_ref_future(w) == final(self)@.write
                        &&& #[trigger] call_ensures(Out::login, (w, n, u, rn), r)
                    }),
    {
        if self.is_accepted() {
            return Err(IrcError::new(ErrorKind::UnexpectedNickReply));
        }
        let nick = match candidate {
            Some(nick) => nick,
            None => {
                return Err(IrcError::new(ErrorKind::NicknamesExhausted));
            },
        };
        if !nick.is_valid_nick() {
            return Err(IrcError::new(ErrorKind::InvalidNickname));
        }
        self.nick = nick;
        self.write.login(self.nick.as_str(), self.user_name.as_str(), self.real_name.as_str())
    }

    /// Reacts to one event: answers it, changes state, or calls the
    /// handler, as `react` decides.
    ///
    /// Where the handler is called, it is handed the event, for a message
    /// also its text, and the writer; the result is the handler's answer,
    /// and handler and writer are left as that call leaves them. Where a
    /// `PING` is answered, the result is the answer of the writer's `pong`
    /// to the token; where a login follows a rejected nickname, it is the
    /// answer of the writer's `login`. Either way the writer is left as
    /// that call leaves it.
    pub fn handle_event<'a>(&mut self, ev: &IrcEvent<'a>) -> (r: Result<(), IrcError>)
        requires
            old(self)@.wf(),
        ensures
            final(self)@.wf(),
            final(self)@.user_name == old(self)@.user_name,
            final(self)@.real_name == old(self)@.real_name,
            final(self)@.read == old(self)@.read,
            old(self)@.handled(final(self)@, ev@, failure(r)),
            reaction(ev@.cmd, ev@.args, old(self)@.accepted) is Welcome ==> (
                exists|h: &mut Handler, w: &mut Out|
                    {
                        &&& mut_ref_current(h) == old(self)@.event_handler
                        &&& mut_ref_future(h) == final(self)@.event_handler
                        &&& mut_ref_current(w) == old(self)@.write
                        &&& mut_ref_future(w) == final(self)@.write
                        &&& #[trigger] call_ensures(Handler::on_registered, (h, w), r)
                    }),
            reaction(ev@.cmd, ev@.args, old(self)@.accepted) is Deliver ==> (
                exists|h: &mut Handler, w: &mut Out, text: &str|
                    {
                        &&& text@ == ev@.args[1]
                        &&& mut_ref_current(h) == old(self)@.event_handler
                        &&& mut_ref_future(h) == final(self)@.event_handler
                        &&& mut_ref_current(w) == old(self)@.write
                        &&& mut_ref_future(w) == final(self)@.write
                        &&& #[trigger] call_ensures(Handler::on_privmsg, (h, text, ev, w), r)
                    }),
            reaction(ev@.cmd, ev@.args, old(self)@.accepted) is Pong ==> (
                exists|w: &mut Out, token: &str|
                    {
                        &&& token@ == ev@.args[0]
                        &&& mut_ref_current(w) == old(self)@.write
                        &&& mut_ref_future(w) == final(self)@.write
                        &&& #[trigger] call_ensures(Out::pong, (w, token), r)
                    }),
            reaction(ev@.cmd, ev@.args, old(self)@.accepted) is Retry ==> (
                exists|candidate: Option<Seq<char>>|
                    {
                        &&& #[trigger] old(self)@.offered(final(self)@, candidate, failure(r))
                        &&& candidate is Some && valid_nick(candidate->0) ==> (
                        exists|w: &mut Out, n: &str, u: &str, rn: &str|
                            {
                                &&& Some(n@) == candidate
                                &&& u@ == old(self)@.user_name
                                &&& rn@ == old(self)@.real_name
                                &&& mut_ref_current(w) == old(self)@.write
                                &&& mut_ref_future(w) == final(self)@.write
                                &&& #[trigger] call_ensures(Out::login, (w, n, u, rn), r)
                            })
                    }),
    {
        let accepted = self.is_accepted();
        match react(ev, accepted) {
            Reaction::Fail(kind) => Err(IrcError::new(kind)),
            Reaction::Ignore => Ok(()),
            Reaction::Pong => self.write.pong(ev.args[0]),
            Reaction::Welcome => {
                self.nick_status = NickStatus::Accepted;
                proof {
                    self.calls@ = self.calls@.push(HandlerCall::Registered);
                }
                self.event_handler.on_registered(&mut self.write)
            },
            Reaction::Deliver => {
                proof {
                    self.calls@ = self.calls@.push(
                        HandlerCall::Privmsg { text: ev@.args[1], event: ev@ },
                    );
                }
                self.event_handler.on_privmsg(ev.args[1], ev, &mut self.write)
            },
            Reaction::Retry => {
                let candidate = match &mut self.nick_status {
                    NickStatus::Registering(names) => names.next_nick(),
                    NickStatus::Accepted => None,
                };
                let r = self.try_nick(candidate);
                assert(old(self)@.offered(self@, candidate_text(candidate), failure(r)));
                r
            },
        }
    }

    /// Decodes one line and reacts to its event, as `handle_event` does:
    /// what the handler or the writer answers to its one call is the
    /// result.
    pub fn handle_line(&mut self, line: &str) -> (r: Result<(), IrcError>)
        requires
            old(self)@.wf(),
        ensures
            final(self)@.wf(),
            final(self)@.user_name == old(self)@.user_name,
            final(self)@.real_name == old(self)@.real_name,
            final(self)@.read == old(self)@.read,
            old(self)@.received(final(self)@, line@, failure(r)),
            line_reaction(line@, old(self)@.accepted) == Some(Reaction::Welcome) ==> (
                exists|h: &mut Handler, w: &mut Out|
                    {
                        &&& mut_ref_current(h) == old(self)@.event_handler
                        &&& mut_ref_future(h) == final(self)@.event_handler
                        &&& mut_ref_current(w) == old(self)@.write
                        &&& mut_ref_future(w) == final(self)@.write
                        &&& #[trigger] call_ensures(Handler::on_registered, (h, w), r)
                    }),
            line_reaction(line@, old(self)@.accepted) == Some(Reaction::Deliver) ==> (
                exists|h: &mut Handler, w: &mut Out, text: &str, e: &IrcEvent|
                    {
                        &&& e@ == decode(line@)->0
                        &&& text@ == e@.args[1]
                        &&& mut_ref_current(h) == old(self)@.event_handler
                        &&& mut_ref_future(h) == final(self)@.event_handler
                        &&& mut_ref_current(w) == old(self)@.write
                        &&& mut_ref_future(w) == final(self)@.write
                        &&& #[trigger] call_ensures(Handler::on_privmsg, (h, text, e, w), r)
                    }),
            line_reaction(line@, old(self)@.accepted) == Some(Reaction::Pong) ==> (
                exists|w: &mut Out, token: &str|
                    {
                        &&& token@ == decode(line@)->0.args[0]
                        &&& mut_ref_current(w) == old(self)@.write
                        &&& mut_ref_future(w) == final(self)@.write
                        &&& #[trigger] call_ensures(Out::pong, (w, token), r)
                    }),
            line_reaction(line@, old(self)@.accepted) == Some(Reaction::Retry) ==> (
                exists|candidate: Option<Seq<char>>|
                    {
                        &&& #[trigger] old(self)@.offered(final(self)@, candidate, failure(r))
                        &&& candidate is Some && valid_nick(candidate->0) ==> (
                        exists|w: &mut Out, n: &str, u: &str, rn: &str|
                            {
                                &&& Some(n@) == candidate
                                &&& u@ == old(self)@.user_name
                                &&& rn@ == old(self)@.real_name
                                &&& mut_ref_current(w) == old(self)@.write
                                &&& mut_ref_future(w) == final(self)@.write
                                &&& #[trigger] call_ensures(Out::login, (w, n, u, rn), r)
                            })
                    }),
    {
        match line.decode_irc_event() {
            Some(ev) => self.handle_event(&ev),
            None => Err(IrcError::new(ErrorKind::MalformedLine)),
        }
    }

    /// Takes what an attempt to read gave. `Ok(true)` means there may be
    /// more to read, `Ok(false)` that the stream has ended. A line is
    /// handled as `handle_line` does: where the handler or the writer is
    /// called, success of that call gives `Ok(true)` and its error is
    /// handed on.
    pub fn process(&mut self, outcome: Option<Result<String, IrcError>>) -> (r: Result<
        bool,
        IrcError,
    >)
        requires
            old(self)@.wf(),
        ensures
            final(self)@.wf(),
            final(self)@.user_name == old(self)@.user_name,
            final(self)@.real_name == old(self)@.real_name,
            final(self)@.read == old(self)@.read,
            old(self)@.processed(final(self)@, outcome_text(outcome), r),
            outcome_reaction(outcome_text(outcome), old(self)@.accepted)
                == Some(Reaction::Welcome) ==> (
                exists|h: &mut Handler, w: &mut Out, answer: Result<(), IrcError>|
                    {
                        &&& mut_ref_current(h) == old(self)@.event_handler
                        &&& mut_ref_future(h) == final(self)@.event_handler
                        &&& mut_ref_current(w) == old(self)@.write
                        &&& mut_ref_future(w) == final(self)@.write
                        &&& #[trigger] call_ensures(Handler::on_registered, (h, w), answer)
                        &&& r == went_on(answer)
                    }),
            outcome_reaction(outcome_text(outcome), old(self)@.accepted)
                == Some(Reaction::Deliver) ==> (
                exists|
                    h: &mut Handler,
                    w: &mut Out,
                    text: &str,
                    e: &IrcEvent,
                    answer: Result<(),
                    IrcError>,
                |
                    {
                        &&& e@ == decode(outcome_text(outcome)->0->Ok_0)->0
                        &&& text@ == e@.args[1]
                        &&& mut_ref_current(h) == old(self)@.event_handler
                        &&& mut_ref_future(h) == final(self)@.event_handler
                        &&& mut_ref_current(w) == old(self)@.write
                        &&& mut_ref_future(w) == final(self)@.write
                        &&& #[trigger] call_ensures(Handler::on_privmsg, (h, text, e, w), answer)
                        &&& r == went_on(answer)
                    }),
            outcome_reaction(outcome_text(outcome), old(self)@.accepted)
                == Some(Reaction::Pong) ==> (
                exists|w: &mut Out, token: &str, answer: Result<(), IrcError>|
                    {
                        &&& token@ == decode(outcome_text(outcome)->0->Ok_0)->0.args[0]
                        &&& mut_ref_current(w) == old(self)@.write
                        &&& mut_ref_future(w) == final(self)@.write
                        &&& #[trigger] call_ensures(Out::pong, (w, token), answer)
                        &&& r == went_on(answer)
                    }),
            outcome_reaction(outcome_text(outcome), old(self)@.accepted)
                == Some(Reaction::Retry) ==> (
                exists|candidate: Option<Seq<char>>|
                    {
                        &&& #[trigger] old(self)@.offered(final(self)@, candidate, failure(r))
                        &&& candidate is Some && valid_nick(candidate->0) ==> (
                        exists|
                            w: &mut Out,
                            n: &str,
                            u: &str,
                            rn: &str,
                            answer: Result<(),
                            IrcError>,
                        |
                            {
                                &&& Some(n@) == candidate
                                &&& u@ == old(self)@.user_name
                                &&& rn@ == old(self)@.real_name
                                &&& mut_ref_current(w) == old(self)@.write
                                &&& mut_ref_future(w) == final(self)@.write
                                &&& #[trigger] call_ensures(Out::login, (w, n, u, rn), answer)
                                &&& r == went_on(answer)
                            })
                    }),
    {
        match outcome {
            None => Ok(false),
            Some(Err(e)) => match e.kind {
                ErrorKind::EndOfStream => Ok(false),
                _ => Err(e),
            },
            Some(Ok(line)) => match self.handle_line(line.as_str()) {
                Ok(()) => Ok(true),
                Err(e) => Err(e),
            },
        }
    }

    /// Reads the next line and takes what comes of it, as `process` does:
    /// what is taken is the answer of the reader's `read_line_tolerant`, and
    /// the reader is left as that call leaves it. `Ok(true)` means there
    /// may be more to read, `Ok(false)` that the stream has ended.
    pub fn process_next(&mut self) -> (r: Result<bool, IrcError>)
        requires
            old(self)@.wf(),
        ensures
            final(self)@.wf(),
            final(self)@.user_name == old(self)@.user_name,
            final(self)@.real_name == old(self)@.real_name,
            exists|m: &mut In, outcome: Option<Result<String, IrcError>>|
                {
                    &&& mut_ref_current(m) == old(self)@.read
                    &&& mut_ref_future(m) == final(self)@.read
                    &&& #[trigger] call_ensures(In::read_line_tolerant, (m,), outcome)
                    &&& old(self)@.processed(final(self)@, outcome_text(outcome), r)
                    &&& outcome_reaction(outcome_text(outcome), old(self)@.accepted)
                        == Some(Reaction::Welcome) ==> (
                        exists|h: &mut Handler, w: &mut Out, answer: Result<(), IrcError>|
                            {
                                &&& mut_ref_current(h) == old(self)@.event_handler
                                &&& mut_ref_future(h) == final(self)@.event_handler
                                &&& mut_ref_current(w) == old(self)@.write
                                &&& mut_ref_future(w) == final(self)@.write
                                &&& #[trigger] call_ensures(Handler::on_registered, (h, w), answer)
                                &&& r == went_on(answer)
                            })
                    &&& outcome_reaction(outcome_text(outcome), old(self)@.accepted)
                        == Some(Reaction::Deliver) ==> (
                        exists|
                            h: &mut Handler,
                            w: &mut Out,
                            text: &str,
                            e: &IrcEvent,
                            answer: Result<(),
                            IrcError>,
                        |
                            {
                                &&& e@ == decode(outcome_text(outcome)->0->Ok_0)->0
                                &&& text@ == e@.args[1]
                                &&& mut_ref_current(h) == old(self)@.event_handler
                                &&& mut_ref_future(h) == final(self)@.event_handler
                                &&& mut_ref_current(w) == old(self)@.write
                                &&& mut_ref_future(w) == final(self)@.write
                                &&& #[trigger] call_ensures(Handler::on_privmsg, (h, text, e, w), answer)
                                &&& r == went_on(answer)
                            })
                    &&& outcome_reaction(outcome_text(outcome), old(self)@.accepted)
                        == Some(Reaction::Pong) ==> (
                        exists|w: &mut Out, token: &str, answer: Result<(), IrcError>|
                            {
                                &&& token@ == decode(outcome_text(outcome)->0->Ok_0)->0.args[0]
                                &&& mut_ref_current(w) == old(self)@.write
                                &&& mut_ref_future(w) == final(self)@.write
                                &&& #[trigger] call_ensures(Out::pong, (w, token), answer)
                                &&& r == went_on(answer)
                            })
                    &&& outcome_reaction(outcome_text(outcome), old(self)@.accepted)
                        == Some(Reaction::Retry) ==> (
                        exists|candidate: Option<Seq<char>>|
                            {
                                &&& #[trigger] old(self)@.offered(final(self)@, candidate, failure(r))
                                &&& candidate is Some && valid_nick(candidate->0) ==> (
                                exists|
                                    w: &mut Out,
                                    n: &str,
                                    u: &str,
                                    rn: &str,
                                    answer: Result<(),
                                    IrcError>,
                                |
                                    {
                                        &&& Some(n@) == candidate
                                        &&& u@ == old(self)@.user_name
                                        &&& rn@ == old(self)@.real_name
                                        &&& mut_ref_current(w) == old(self)@.write
                                        &&& mut_ref_future(w) == final(self)@.write
                                        &&& #[trigger] call_ensures(Out::login, (w, n, u, rn), answer)
                                        &&& r == went_on(answer)
                                    })
                            })
                },
    {
        let outcome = self.read.read_line_tolerant();
        let ghost mid = self@;
        let r = self.process(outcome);
        proof {
            mid.lemma_processed_by_state(old(self)@, self@, outcome_text(outcome), r);
        }
        r
    }
}

} // verus!
