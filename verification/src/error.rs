use vstd::prelude::*;

verus! {

/// Why a connection stopped.
#[derive(Clone, Copy, Debug, PartialEq, Eq, Structural)]
pub enum ErrorKind {
    /// The transport has nothing more to read.
    EndOfStream,
    /// The transport failed to read or to write.
    Transport,
    /// A line was received that holds no command.
    MalformedLine,
    /// A `PRIVMSG` was received that does not have exactly a target and a
    /// text.
    MalformedPrivmsg,
    /// A `PING` was received that does not have exactly one token, or whose
    /// token cannot be sent back on one line.
    MalformedPing,
    /// The server rejected the nickname after it had accepted it.
    UnexpectedNickReply,
    /// The nickname source has no candidate left.
    NicknamesExhausted,
    /// The nickname source gave a candidate outside the nickname grammar.
    InvalidNickname,
}

/// The error that ends an operation of this library.
#[derive(Clone, Debug, PartialEq, Eq)]
pub struct IrcError {
    /// What went wrong.
    pub kind: ErrorKind,
    /// What the transport said about it, if it said anything.
    pub detail: Option<String>,
}

impl IrcError {
    /// An error of the given kind, without detail.
    pub fn new(kind: ErrorKind) -> (e: IrcError)
        ensures
            e.kind == kind,
            e.detail is None,
    {
        IrcError { kind, detail: None }
    }

    /// A short description of the error's kind.
    pub fn desc(&self) -> (text: &'static str)
        ensures
            text@ == describe(self.kind),
    {
        match self.kind {
            ErrorKind::EndOfStream => "end of stream",
            ErrorKind::Transport => "transport failure",
            ErrorKind::MalformedLine => "malformed IRC event received",
            ErrorKind::MalformedPrivmsg => "malformed PRIVMSG command received",
            ErrorKind::MalformedPing => "malformed PING command received",
            ErrorKind::UnexpectedNickReply =>
                "unexpected 433 ERR_NICKNAMEINUSE or 436 ERR_NICKCOLLISION received",
            ErrorKind::NicknamesExhausted => "nick name generator did not generate enough nicks",
            ErrorKind::InvalidNickname => "nick name generator gave an invalid nick",
        }
    }
}

/// The error that a result holds, if it holds one.
pub open spec fn failure<T>(r: Result<T, IrcError>) -> Option<IrcError> {
    match r {
        Ok(_) => None,
        Err(e) => Some(e),
    }
}

/// The description that goes with each kind of error.
pub open spec fn describe(kind: ErrorKind) -> Seq<char> {
    match kind {
        ErrorKind::EndOfStream => "end of stream"@,
        ErrorKind::Transport => "transport failure"@,
        ErrorKind::MalformedLine => "malformed IRC event received"@,
        ErrorKind::MalformedPrivmsg => "malformed PRIVMSG command received"@,
        ErrorKind::MalformedPing => "malformed PING command received"@,
        ErrorKind::UnexpectedNickReply =>
            "unexpected 433 ERR_NICKNAMEINUSE or 436 ERR_NICKCOLLISION received"@,
        ErrorKind::NicknamesExhausted => "nick name generator did not generate enough nicks"@,
        ErrorKind::InvalidNickname => "nick name generator gave an invalid nick"@,
    }
}

} // verus!
