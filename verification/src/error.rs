use vstd::prelude::*;

verus! {

/// Errors raised by a uTP socket.
#[derive(Debug)]
pub enum SocketError {
    ConnectionClosed,
    ConnectionReset,
    ConnectionTimedOut,
    InvalidAddress,
    InvalidReply,
    NotConnected,
    Other(String),
}

/// Errors raised while decoding a uTP packet.
#[derive(Debug)]
pub enum ParseError {
    InvalidExtensionLength,
    InvalidPacketLength,
    InvalidPacketType(u8),
    UnsupportedVersion,
}

/// The kinds of I/O error (those of `std::io::ErrorKind` of the same names) under which
/// the errors of this library reach I/O callers.
#[derive(Debug, Clone, Copy, PartialEq, Eq, Structural)]
pub enum IoErrorKind {
    NotConnected,
    ConnectionReset,
    TimedOut,
    InvalidInput,
    ConnectionRefused,
    Other,
}

/// The I/O error kind under which a socket error is reported.
pub open spec fn socket_error_kind(e: SocketError) -> IoErrorKind {
    match e {
        SocketError::ConnectionClosed => IoErrorKind::NotConnected,
        SocketError::NotConnected => IoErrorKind::NotConnected,
        SocketError::ConnectionReset => IoErrorKind::ConnectionReset,
        SocketError::ConnectionTimedOut => IoErrorKind::TimedOut,
        SocketError::InvalidAddress => IoErrorKind::InvalidInput,
        SocketError::InvalidReply => IoErrorKind::ConnectionRefused,
        SocketError::Other(_) => IoErrorKind::Other,
    }
}

/// The human-readable text of a socket error.
pub open spec fn socket_error_text(e: SocketError) -> Seq<char> {
    match e {
        SocketError::ConnectionClosed => "The socket is closed"@,
        SocketError::ConnectionReset => "Connection reset by remote peer"@,
        SocketError::ConnectionTimedOut => "Connection timed out"@,
        SocketError::InvalidAddress => "Invalid address"@,
        SocketError::InvalidReply => "The remote peer sent an invalid reply"@,
        SocketError::NotConnected => "The socket is not connected"@,
        SocketError::Other(s) => s@,
    }
}

/// The human-readable text of a packet parse error.
pub open spec fn parse_error_text(e: ParseError) -> Seq<char> {
    match e {
        ParseError::InvalidExtensionLength =>
            "Invalid extension length (must be a non-zero multiple of 4)"@,
        ParseError::InvalidPacketLength => "The packet is too small"@,
        ParseError::InvalidPacketType(_) => "Invalid packet type"@,
        ParseError::UnsupportedVersion => "Unsupported packet version"@,
    }
}

/// Law: an `Other` socket error is reported under kind `Other` whatever its message, so
/// two `Other` errors always share their kind.
pub proof fn lemma_other_kind_ignores_message(s1: String, s2: String)
    ensures
        socket_error_kind(SocketError::Other(s1)) == IoErrorKind::Other,
        socket_error_kind(SocketError::Other(s1)) == socket_error_kind(SocketError::Other(s2)),
{
}

/// Law: only the errors for a closed or unconnected socket are reported as not connected,
/// and each other variant has a kind of its own: the kind tells the variant apart but for
/// those two.
pub proof fn lemma_kind_identifies_variant(e1: SocketError, e2: SocketError)
    requires
        socket_error_kind(e1) == socket_error_kind(e2),
    ensures
        (e1 is ConnectionClosed || e1 is NotConnected) <==> (e2 is ConnectionClosed
            || e2 is NotConnected),
        !(e1 is ConnectionClosed || e1 is NotConnected) ==> ((e1 is ConnectionReset
            <==> e2 is ConnectionReset) && (e1 is ConnectionTimedOut <==> e2 is ConnectionTimedOut)
            && (e1 is InvalidAddress <==> e2 is InvalidAddress) && (e1 is InvalidReply
            <==> e2 is InvalidReply) && (e1 is Other <==> e2 is Other)),
{
}

impl SocketError {
    /// The I/O error kind under which this error is reported.
    pub fn io_error_kind(&self) -> (k: IoErrorKind)
        ensures
            k == socket_error_kind(*self),
    {
        match self {
            SocketError::ConnectionClosed => IoErrorKind::NotConnected,
            SocketError::NotConnected => IoErrorKind::NotConnected,
            SocketError::ConnectionReset => IoErrorKind::ConnectionReset,
            SocketError::ConnectionTimedOut => IoErrorKind::TimedOut,
            SocketError::InvalidAddress => IoErrorKind::InvalidInput,
            SocketError::InvalidReply => IoErrorKind::ConnectionRefused,
            SocketError::Other(_) => IoErrorKind::Other,
        }
    }

    /// The human-readable text of this error.
    pub fn to_string(&self) -> (s: String)
        ensures
            s@ == socket_error_text(*self),
    {
        match self {
            SocketError::ConnectionClosed => String::from_str("The socket is closed"),
            SocketError::ConnectionReset => String::from_str("Connection reset by remote peer"),
            SocketError::ConnectionTimedOut => String::from_str("Connection timed out"),
            SocketError::InvalidAddress => String::from_str("Invalid address"),
            SocketError::InvalidReply => String::from_str("The remote peer sent an invalid reply"),
            SocketError::NotConnected => String::from_str("The socket is not connected"),
            SocketError::Other(s) => s.clone(),
        }
    }
}

impl ParseError {
    /// The I/O error kind under which this error is reported: always `Other`.
    pub fn io_error_kind(&self) -> (k: IoErrorKind)
        ensures
            k == IoErrorKind::Other,
    {
        IoErrorKind::Other
    }

    /// The human-readable text of this error.
    pub fn to_string(&self) -> (s: String)
        ensures
            s@ == parse_error_text(*self),
    {
        match self {
            ParseError::InvalidExtensionLength => String::from_str(
                "Invalid extension length (must be a non-zero multiple of 4)",
            ),
            ParseError::InvalidPacketLength => String::from_str("The packet is too small"),
            ParseError::InvalidPacketType(_) => String::from_str("Invalid packet type"),
            ParseError::UnsupportedVersion => String::from_str("Unsupported packet version"),
        }
    }
}

} // verus!
