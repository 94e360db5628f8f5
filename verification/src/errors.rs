use vstd::prelude::*;
use vstd::string::StringExecFns;

verus! {

/// The failures that a store operation can report: a missing record, a
/// failed read, a failed write, or anything else (corruption, an engine
/// fault), each with a short text.
#[derive(Debug)]
pub enum DBErrorKind {
    NotFound(String),
    WriteFailed(String),
    ReadFailed(String),
    Other(String),
}

/// A fault of the storage engine, carried over variant by variant so
/// that the mapping onto `DBErrorKind` can be stated and checked.
#[derive(Debug)]
pub enum StoreFault {
    CollectionNotFound,
    Unsupported(String),
    ReportableBug(String),
    Io(String),
    Corruption,
}

/// An error of the store: a kind, and optionally the text of the
/// engine fault it came from.
#[derive(Debug)]
pub struct DBError {
    kind: DBErrorKind,
    source: Option<String>,
}

/// The one-line description of an error kind, as `message` renders it.
pub open spec fn message_of(kind: DBErrorKind) -> Seq<char> {
    match kind {
        DBErrorKind::NotFound(msg) => "NotFound "@ + msg@,
        DBErrorKind::ReadFailed(msg) => "failed to read from database "@ + msg@,
        DBErrorKind::WriteFailed(msg) => "failed to write to database "@ + msg@,
        DBErrorKind::Other(msg) => msg@,
    }
}

/// The text under which an engine fault is recorded as an error's source.
pub open spec fn fault_text_of(fault: StoreFault) -> Seq<char> {
    match fault {
        StoreFault::CollectionNotFound => "collection not found"@,
        StoreFault::Unsupported(msg) => msg@,
        StoreFault::ReportableBug(msg) => msg@,
        StoreFault::Io(msg) => msg@,
        StoreFault::Corruption => "A corruption occurred"@,
    }
}

impl DBError {
    /// The kind this error reports.
    pub closed spec fn spec_kind(&self) -> DBErrorKind {
        self.kind
    }

    /// The recorded text of the underlying fault, if the error has one.
    pub closed spec fn spec_source(&self) -> Option<String> {
        self.source
    }

    pub fn new(kind: DBErrorKind) -> (r: DBError)
        ensures
            r.spec_kind() == kind,
            r.spec_source() matches None,
    {
        DBError { kind, source: Option::None }
    }

    pub fn with_source(kind: DBErrorKind, source: String) -> (r: DBError)
        ensures
            r.spec_kind() == kind,
            r.spec_source() matches Some(s) && s == source,
    {
        DBError { kind, source: Option::Some(source) }
    }

    pub fn kind(&self) -> (r: &DBErrorKind)
        ensures
            *r == self.spec_kind(),
    {
        &self.kind
    }

    /// Builds the error that stands for an engine fault: the fault is
    /// classified onto a kind exactly as the engine's own errors are
    /// (a lost collection is not-found; everything else is `Other`,
    /// keeping the fault's text where it carries one), and its text is
    /// recorded as the source.
    pub fn from_fault(fault: StoreFault) -> (r: DBError)
        ensures
            r.spec_source() matches Some(s) && s@ == fault_text_of(fault),
            fault matches StoreFault::CollectionNotFound ==> r.spec_kind() matches DBErrorKind::NotFound(m) && m@ == "collection not found"@,
            fault matches StoreFault::Unsupported(t) ==> r.spec_kind() matches DBErrorKind::Other(m) && m@ == t@,
            fault matches StoreFault::ReportableBug(_) ==> r.spec_kind() matches DBErrorKind::Other(m) && m@ == "Dependency failed in some way"@,
            fault matches StoreFault::Io(t) ==> r.spec_kind() matches DBErrorKind::Other(m) && m@ == t@,
            fault matches StoreFault::Corruption ==> r.spec_kind() matches DBErrorKind::Other(m) && m@ == "A corruption occurred"@,
    {
        match fault {
            StoreFault::CollectionNotFound => {
                let text = String::from_str("collection not found");
                DBError::with_source(DBErrorKind::NotFound(text.clone()), text)
            },
            StoreFault::Unsupported(msg) => {
                let text = msg.clone();
                DBError::with_source(DBErrorKind::Other(msg), text)
            },
            StoreFault::ReportableBug(msg) => {
                DBError::with_source(
                    DBErrorKind::Other(String::from_str("Dependency failed in some way")),
                    msg,
                )
            },
            StoreFault::Io(msg) => {
                let text = msg.clone();
                DBError::with_source(DBErrorKind::Other(msg), text)
            },
            StoreFault::Corruption => {
                let text = String::from_str("A corruption occurred");
                DBError::with_source(DBErrorKind::Other(text.clone()), text)
            },
        }
    }

    /// Builds the error that stands for an engine fault met while
    /// writing: the kind is a write failure carrying the fault's text,
    /// and the same text is recorded as the source.
    pub fn from_write_fault(fault: StoreFault) -> (r: DBError)
        ensures
            r.spec_source() matches Some(s) && s@ == fault_text_of(fault),
            r.spec_kind() matches DBErrorKind::WriteFailed(m) && m@ == fault_text_of(fault),
    {
        let text = match &fault {
            StoreFault::CollectionNotFound => String::from_str("collection not found"),
            StoreFault::Unsupported(msg) => msg.clone(),
            StoreFault::ReportableBug(msg) => msg.clone(),
            StoreFault::Io(msg) => msg.clone(),
            StoreFault::Corruption => String::from_str("A corruption occurred"),
        };
        DBError::with_source(DBErrorKind::WriteFailed(text.clone()), text)
    }

    /// The error rendered as one line of text: the kind's description.
    pub fn message(&self) -> (r: String)
        ensures
            r@ == message_of(self.spec_kind()),
    {
        match &self.kind {
            DBErrorKind::NotFound(msg) => String::from_str("NotFound ").concat(msg.as_str()),
            DBErrorKind::ReadFailed(msg) => String::from_str("failed to read from database ").concat(msg.as_str()),
            DBErrorKind::WriteFailed(msg) => String::from_str("failed to write to database ").concat(msg.as_str()),
            DBErrorKind::Other(msg) => msg.clone(),
        }
    }

    /// The recorded text of the fault behind this error, if any.
    pub fn source_text(&self) -> (r: Option<&String>)
        ensures
            r matches Some(s) ==> self.spec_source() matches Some(t) && s == t,
            r matches None ==> self.spec_source() matches None,
    {
        self.source.as_ref()
    }
}

} // verus!
