use vstd::prelude::*;

verus! {

/// What went wrong with a request.
#[derive(Clone, Copy, Debug, PartialEq, Eq, Structural)]
pub enum FailureKind {
    /// Connection refused, DNS or TLS failure, malformed URL.
    Transport,
    /// An attempt ran past its timeout.
    Timeout,
    /// The body could not be read as text.
    Decode,
    /// The transport reported that authentication failed.
    Auth,
}

/// The failure of a request, with its cause and, inside a retry sequence,
/// the number of the attempt that failed.
#[derive(Clone, Debug)]
pub struct FetchError {
    pub kind: FailureKind,
    pub message: String,
    pub attempt: Option<usize>,
}

/// The words that name a kind of failure in a description.
pub open spec fn kind_label(kind: FailureKind) -> Seq<char> {
    match kind {
        FailureKind::Transport => seq!['t', 'r', 'a', 'n', 's', 'p', 'o', 'r', 't'],
        FailureKind::Timeout => seq!['t', 'i', 'm', 'e', 'o', 'u', 't'],
        FailureKind::Decode => seq!['d', 'e', 'c', 'o', 'd', 'e'],
        FailureKind::Auth => seq!['a', 'u', 't', 'h'],
    }
}

impl FetchError {
    /// A failure outside any retry sequence.
    pub fn new(kind: FailureKind, message: String) -> (r: FetchError)
        ensures
            r.kind == kind,
            r.message == message,
            r.attempt is None,
    {
        FetchError { kind, message, attempt: None }
    }

    /// The same failure, marked as that of attempt `n`.
    pub fn at_attempt(self, n: usize) -> (r: FetchError)
        ensures
            r.kind == self.kind,
            r.message == self.message,
            r.attempt == Some(n),
    {
        FetchError { kind: self.kind, message: self.message, attempt: Some(n) }
    }

    /// `<kind> error: <message>`, for people to read.
    pub fn describe(&self) -> (r: String)
        ensures
            r@ == kind_label(self.kind) + seq![' ', 'e', 'r', 'r', 'o', 'r', ':', ' '] + self.message@,
    {
        let label = match self.kind {
            FailureKind::Transport => "transport",
            FailureKind::Timeout => "timeout",
            FailureKind::Decode => "decode",
            FailureKind::Auth => "auth",
        };
        proof {
            reveal_strlit("transport");
            reveal_strlit("timeout");
            reveal_strlit("decode");
            reveal_strlit("auth");
            reveal_strlit(" error: ");
        }
        let mut s = String::from_str(label);
        s.append(" error: ");
        s.append(self.message.as_str());
        assert(label@ == kind_label(self.kind));
        s
    }
}

} // verus!
