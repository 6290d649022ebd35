//! Errors of the library, and the classifier for native database errors.

use vstd::prelude::*;
use crate::text::{find_char, find_char_from, is_ascii_alnum, lemma_find_char_found, same_text};

verus! {

/// Category of a database error, derived from its state code.
#[derive(Debug, Clone, Copy, PartialEq, Eq)]
pub enum ErrorKind {
    UniqueViolation,
    ForeignKeyViolation,
    NotNullViolation,
    CheckViolation,
    Other,
}

/// The state code embedded in a native message: the text between the
/// first `[` and the first `]` after it, when that is five ASCII letters or
/// digits.
pub open spec fn sqlstate_of(msg: Seq<char>) -> Option<Seq<char>> {
    match find_char(msg, '[') {
        None => None,
        Some(start) => match find_char(msg.subrange(start, msg.len() as int), ']') {
            None => None,
            Some(end) => {
                let token = msg.subrange(start + 1, start + end);
                if token.len() == 5 && (forall|i: int| 0 <= i < 5 ==> is_ascii_alnum(#[trigger] token[i])) {
                    Some(token)
                } else {
                    None
                }
            },
        },
    }
}

/// The kind of error a state code denotes.
pub open spec fn kind_of(state: Option<Seq<char>>) -> ErrorKind {
    match state {
        Some(s) => if s == "23505"@ {
            ErrorKind::UniqueViolation
        } else if s == "23503"@ {
            ErrorKind::ForeignKeyViolation
        } else if s == "23514"@ {
            ErrorKind::CheckViolation
        } else if s == "23502"@ {
            ErrorKind::NotNullViolation
        } else {
            ErrorKind::Other
        },
        None => ErrorKind::Other,
    }
}

/// Whether a state code marks a failure that may go away when the
/// connection attempt is retried: a connection error (class `08`) or one of
/// the two timeout codes.
pub open spec fn transient_in_connect(state: Option<Seq<char>>) -> bool {
    match state {
        Some(s) => (s.len() >= 2 && s[0] == '0' && s[1] == '8') || s == "HYT00"@ || s
            == "HYT01"@,
        None => false,
    }
}

/// An error reported by the native driver: its message, verbatim, and the
/// state code found in it.
#[derive(Debug, Clone)]
pub struct OdbcDatabaseError {
    pub message: String,
    pub sqlstate: Option<String>,
}

/// Extracts the state code from a native error message.
pub fn extract_sqlstate(msg: &str) -> (r: Option<String>)
    ensures
        match r {
            Some(s) => sqlstate_of(msg@) == Some(s@),
            None => sqlstate_of(msg@) is None,
        },
{
    let n = msg.unicode_len();
    let start = match find_char_from(msg, '[', 0) {
        Some(i) => i,
        None => {
            assert(msg@.subrange(0, n as int) =~= msg@);
            return None;
        },
    };
    assert(msg@.subrange(0, n as int) =~= msg@);
    let end = match find_char_from(msg, ']', start) {
        Some(i) => i,
        None => {
            return None;
        },
    };
    let ghost m = msg@;
    assert(find_char(m, '[') == Some(start as int));
    proof {
        lemma_find_char_found(m, '[');
        let tail = m.subrange(start as int, m.len() as int);
        lemma_find_char_found(tail, ']');
        assert(tail[0] == '[');
    }
    assert(find_char(m.subrange(start as int, m.len() as int), ']') == Some(end - start));
    if end - start != 6 {
        assert(m.subrange(start + 1, end as int).len() != 5);
        return None;
    }
    let token = msg.substring_char(start + 1, end);
    let mut i: usize = 0;
    while i < 5
        invariant
            i <= 5,
            start < end <= msg@.len(),
            end - start == 6,
            find_char(msg@, '[') == Some(start as int),
            find_char(msg@.subrange(start as int, msg@.len() as int), ']') == Some(end - start),
            token@ == msg@.subrange(start + 1, end as int),
            token@.len() == 5,
            forall|j: int| 0 <= j < i ==> is_ascii_alnum(#[trigger] token@[j]),
        decreases 5 - i,
    {
        let c = token.get_char(i);
        if !(('0' <= c && c <= '9') || ('a' <= c && c <= 'z') || ('A' <= c && c <= 'Z')) {
            assert(!is_ascii_alnum(token@[i as int]));
            return None;
        }
        i = i + 1;
    }
    Some(String::from_str(token))
}

impl OdbcDatabaseError {
    /// An error for the given native message; its state code is extracted
    /// from the message.
    pub fn new(message: String) -> (r: Self)
        ensures
            r.message@ == message@,
            match r.sqlstate {
                Some(s) => sqlstate_of(message@) == Some(s@),
                None => sqlstate_of(message@) is None,
            },
    {
        let sqlstate = extract_sqlstate(message.as_str());
        OdbcDatabaseError { message, sqlstate }
    }

    /// The spec view of the state code.
    pub open spec fn state(&self) -> Option<Seq<char>> {
        match self.sqlstate {
            Some(s) => Some(s@),
            None => None,
        }
    }

    /// The state code, if the message held one.
    pub fn sqlstate(&self) -> (r: Option<&str>)
        ensures
            match r {
                Some(s) => self.state() == Some(s@),
                None => self.state() is None,
            },
    {
        match &self.sqlstate {
            Some(s) => Some(s.as_str()),
            None => None,
        }
    }

    /// The native message, unmodified.
    pub fn message(&self) -> (r: &str)
        ensures
            r@ == self.message@,
    {
        self.message.as_str()
    }

    /// The state code as an owned string, if any.
    pub fn code(&self) -> (r: Option<String>)
        ensures
            match r {
                Some(s) => self.state() == Some(s@),
                None => self.state() is None,
            },
    {
        match &self.sqlstate {
            Some(s) => Some(s.clone()),
            None => None,
        }
    }

    /// The kind of the error, from its state code.
    pub fn kind(&self) -> (r: ErrorKind)
        ensures
            r == kind_of(self.state()),
    {
        match &self.sqlstate {
            Some(s) => {
                let s = s.as_str();
                if same_text(s, "23505") {
                    ErrorKind::UniqueViolation
                } else if same_text(s, "23503") {
                    ErrorKind::ForeignKeyViolation
                } else if same_text(s, "23514") {
                    ErrorKind::CheckViolation
                } else if same_text(s, "23502") {
                    ErrorKind::NotNullViolation
                } else {
                    ErrorKind::Other
                }
            },
            None => ErrorKind::Other,
        }
    }

    /// Whether a failed connection attempt with this error may be retried.
    pub fn is_transient_in_connect_phase(&self) -> (r: bool)
        ensures
            r == transient_in_connect(self.state()),
    {
        match &self.sqlstate {
            Some(s) => {
                let s = s.as_str();
                let class_08 = s.unicode_len() >= 2 && s.get_char(0) == '0' && s.get_char(1)
                    == '8';
                class_08 || same_text(s, "HYT00") || same_text(s, "HYT01")
            },
            None => false,
        }
    }
}

/// Every failure the library reports.
#[derive(Debug, Clone)]
pub enum OdbcError {
    /// The connection string was refused or the connection could not be made.
    Configuration(String),
    /// A native call failed; the native message is kept verbatim.
    Protocol(String),
    /// A native call failed with a classified database error.
    Database(OdbcDatabaseError),
    /// The worker that ran a blocking call died; the connection is unusable.
    WorkerCrashed,
    /// A value could not be converted to the requested type.
    Decode(String),
    /// No column has the requested name.
    ColumnNotFound(String),
    /// The requested column index is past the end of the row.
    ColumnIndexOutOfBounds { index: usize, len: usize },
}

} // verus!
