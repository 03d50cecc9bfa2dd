//! Error kinds of the service, their messages, and the HTTP status and body
//! that each of them is answered with.
use vstd::prelude::*;

verus! {

/// Why an authentication step failed.
#[derive(Debug, Clone, PartialEq, Eq, Structural)]
pub enum ErrorKindAuth {
    NoAuthToken,
    InvalidToken,
    InvalidUser,
    Forbidden,
}

/// The kinds of failure an operation of the service reports.
#[derive(Debug, Clone, PartialEq)]
pub enum ErrorKind {
    Validation(Vec<String>),
    Auth(ErrorKindAuth),
    Db,
    NotFound,
    Misc(String),
}

/// An error of the service: its kind is all it carries.
#[derive(Debug, Clone, PartialEq)]
pub struct Error {
    pub kind: ErrorKind,
}

/// What a kind of authentication failure is called in messages.
pub open spec fn auth_message(kind: ErrorKindAuth) -> Seq<char> {
    match kind {
        ErrorKindAuth::NoAuthToken => "no auth token"@,
        ErrorKindAuth::InvalidToken => "invalid token"@,
        ErrorKindAuth::InvalidUser => "invalid user"@,
        ErrorKindAuth::Forbidden => "forbidden"@,
    }
}

/// The message that describes an error kind.
pub open spec fn kind_message(kind: ErrorKind) -> Seq<char> {
    match kind {
        ErrorKind::Validation(_) => "validation failure"@,
        ErrorKind::Auth(a) => "authentication failure: "@ + auth_message(a),
        ErrorKind::Db => "database operation failure"@,
        ErrorKind::NotFound => "record not found"@,
        ErrorKind::Misc(s) => s@,
    }
}

/// The HTTP status an error kind is answered with.
pub open spec fn kind_status(kind: ErrorKind) -> u16 {
    match kind {
        ErrorKind::Validation(_) => 422,
        ErrorKind::Auth(_) => 401,
        ErrorKind::Db => 500,
        ErrorKind::NotFound => 404,
        ErrorKind::Misc(_) => 500,
    }
}

/// The messages of the body an error kind is answered with.
pub open spec fn kind_body(kind: ErrorKind) -> Seq<Seq<char>> {
    match kind {
        ErrorKind::Validation(msgs) => msgs@.map_values(|m: String| m@),
        _ => seq![kind_message(kind)],
    }
}

/// The status and the messages of an error answer.
pub struct ErrorResponse {
    pub status: u16,
    pub body: Vec<String>,
}

impl ErrorResponse {
    /// The answer to a request for a route that does not exist.
    pub fn not_found() -> (res: ErrorResponse)
        ensures
            res.status == 404,
            res.body@.map_values(|m: String| m@) == seq!["not found"@],
    {
        let mut body: Vec<String> = Vec::new();
        body.push("not found".to_owned());
        proof {
            assert(body@.map_values(|m: String| m@) =~= seq!["not found"@]);
        }
        ErrorResponse { status: 404, body }
    }
}

impl ErrorKindAuth {
    /// The message of this kind of authentication failure.
    pub fn message(&self) -> (s: String)
        ensures
            s@ == auth_message(*self),
    {
        match self {
            ErrorKindAuth::NoAuthToken => "no auth token".to_owned(),
            ErrorKindAuth::InvalidToken => "invalid token".to_owned(),
            ErrorKindAuth::InvalidUser => "invalid user".to_owned(),
            ErrorKindAuth::Forbidden => "forbidden".to_owned(),
        }
    }
}

impl ErrorKind {
    /// The message that describes this kind of error.
    pub fn message(&self) -> (s: String)
        ensures
            s@ == kind_message(*self),
    {
        match self {
            ErrorKind::Validation(_) => "validation failure".to_owned(),
            ErrorKind::Auth(a) => {
                let mut s = "authentication failure: ".to_owned();
                let m = a.message();
                s.append(m.as_str());
                s
            },
            ErrorKind::Db => "database operation failure".to_owned(),
            ErrorKind::NotFound => "record not found".to_owned(),
            ErrorKind::Misc(m) => m.clone(),
        }
    }
}

impl Error {
    /// The kind of this error.
    pub fn kind(&self) -> (k: &ErrorKind)
        ensures
            *k == self.kind,
    {
        &self.kind
    }

    /// The message of this error, that of its kind.
    pub fn message(&self) -> (s: String)
        ensures
            s@ == kind_message(self.kind),
    {
        self.kind.message()
    }

    /// The status and the body this error is answered with: validation
    /// failures list their messages, every other kind answers its own
    /// message.
    pub fn response(&self) -> (res: ErrorResponse)
        ensures
            res.status == kind_status(self.kind),
            res.body@.map_values(|m: String| m@) == kind_body(self.kind),
    {
        let status: u16 = match &self.kind {
            ErrorKind::Validation(_) => 422,
            ErrorKind::Auth(_) => 401,
            ErrorKind::Db => 500,
            ErrorKind::NotFound => 404,
            ErrorKind::Misc(_) => 500,
        };
        let body = match &self.kind {
            ErrorKind::Validation(msgs) => clone_messages(msgs),
            _ => {
                let mut v: Vec<String> = Vec::new();
                v.push(self.message());
                proof {
                    assert(v@.map_values(|m: String| m@) =~= seq![kind_message(self.kind)]);
                }
                v
            },
        };
        ErrorResponse { status, body }
    }
}

/// A copy of a list of messages.
pub fn clone_messages(msgs: &Vec<String>) -> (res: Vec<String>)
    ensures
        res@.map_values(|m: String| m@) == msgs@.map_values(|m: String| m@),
{
    let mut res: Vec<String> = Vec::new();
    let mut i: usize = 0;
    while i < msgs.len()
        invariant
            i <= msgs.len(),
            res@.map_values(|m: String| m@) == msgs@.subrange(0, i as int).map_values(|m: String| m@),
        decreases msgs.len() - i,
    {
        res.push(msgs[i].clone());
        proof {
            assert(msgs@.subrange(0, i + 1).map_values(|m: String| m@) =~= msgs@.subrange(0, i as int).map_values(|m: String| m@).push(msgs@[i as int]@));
        }
        i = i + 1;
    }
    proof {
        assert(msgs@.subrange(0, msgs.len() as int) =~= msgs@);
    }
    res
}

impl From<ErrorKind> for Error {
    fn from(kind: ErrorKind) -> (e: Error) {
        Error { kind }
    }
}

impl vstd::std_specs::convert::FromSpecImpl<ErrorKind> for Error {
    open spec fn obeys_from_spec() -> bool {
        true
    }

    open spec fn from_spec(kind: ErrorKind) -> Error {
        Error { kind }
    }
}

impl From<ErrorKindAuth> for Error {
    fn from(kind: ErrorKindAuth) -> (e: Error) {
        Error { kind: ErrorKind::Auth(kind) }
    }
}

impl vstd::std_specs::convert::FromSpecImpl<ErrorKindAuth> for Error {
    open spec fn obeys_from_spec() -> bool {
        true
    }

    open spec fn from_spec(kind: ErrorKindAuth) -> Error {
        Error { kind: ErrorKind::Auth(kind) }
    }
}

/// An error of the given kind.
pub fn error_of(kind: ErrorKind) -> (e: Error)
    ensures
        e.kind == kind,
{
    Error { kind }
}

/// A validation error with a single message.
pub fn validation_error(msg: &str) -> (e: Error)
    ensures
        e.kind matches ErrorKind::Validation(msgs) && msgs@.len() == 1 && msgs@[0]@ == msg@,
{
    let mut msgs: Vec<String> = Vec::new();
    msgs.push(msg.to_owned());
    Error { kind: ErrorKind::Validation(msgs) }
}

/// An error that only carries a message.
pub fn misc_error(msg: &str) -> (e: Error)
    ensures
        e.kind matches ErrorKind::Misc(m) && m@ == msg@,
{
    Error { kind: ErrorKind::Misc(msg.to_owned()) }
}

} // verus!
