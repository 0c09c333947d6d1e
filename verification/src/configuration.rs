//! The kinds of snapshot and of node context, and their textual forms.

use crate::text::same_text;
use vstd::prelude::*;
use vstd::string::*;

verus! {

/// Which snapshots one attempt produces: a packaged copy of the database, a
/// consolidated export made by a helper container, or both from one
/// stop/start cycle.
#[derive(Clone, Copy, Debug, PartialEq, Eq, Structural)]
pub enum SnapshotType {
    Archive,
    Full,
    All,
}

/// The kind of one snapshot: what a name is tagged with.
#[derive(Clone, Copy, Debug, PartialEq, Eq, Structural)]
pub enum SnapshotKind {
    Archive,
    Full,
}

/// The storage backend of the node's context.
#[derive(Clone, Copy, Debug, PartialEq, Eq, Structural)]
pub enum ContextType {
    Irmin,
    Tezedge,
}

/// A text that names no known kind.
#[derive(Clone, Copy, Debug, PartialEq, Eq, Structural)]
pub struct TypeNotFound {}

/// The snapshot kind that a text names, if any.
pub open spec fn snapshot_type_named(s: Seq<char>) -> Option<SnapshotType> {
    if s == "archive"@ {
        Some(SnapshotType::Archive)
    } else if s == "full"@ {
        Some(SnapshotType::Full)
    } else if s == "all"@ {
        Some(SnapshotType::All)
    } else {
        None
    }
}

/// The context kind that a text names, if any.
pub open spec fn context_type_named(s: Seq<char>) -> Option<ContextType> {
    if s == "irmin"@ {
        Some(ContextType::Irmin)
    } else if s == "tezedge"@ {
        Some(ContextType::Tezedge)
    } else {
        None
    }
}

/// The text of a snapshot kind, as it appears in names and paths.
pub open spec fn kind_text(kind: SnapshotKind) -> Seq<char> {
    match kind {
        SnapshotKind::Archive => "archive"@,
        SnapshotKind::Full => "full"@,
    }
}

/// The text of a context kind, as it appears in container names.
pub open spec fn context_text(c: ContextType) -> Seq<char> {
    match c {
        ContextType::Irmin => "irmin"@,
        ContextType::Tezedge => "tezedge"@,
    }
}

impl SnapshotType {
    /// Reads a snapshot kind from its lower-case name.
    pub fn from_str(s: &str) -> (r: Result<SnapshotType, TypeNotFound>)
        ensures
            match snapshot_type_named(s@) {
                Some(kind) => r == Ok::<SnapshotType, TypeNotFound>(kind),
                None => r is Err,
            },
    {
        if same_text(s, "archive") {
            Ok(SnapshotType::Archive)
        } else if same_text(s, "full") {
            Ok(SnapshotType::Full)
        } else if same_text(s, "all") {
            Ok(SnapshotType::All)
        } else {
            Err(TypeNotFound {  })
        }
    }

    /// Whether this kind asks for the packaged copy.
    pub fn includes_archive(&self) -> (r: bool)
        ensures
            r == (*self != SnapshotType::Full),
    {
        match self {
            SnapshotType::Full => false,
            _ => true,
        }
    }

    /// Whether this kind asks for the consolidated export.
    pub fn includes_full(&self) -> (r: bool)
        ensures
            r == (*self != SnapshotType::Archive),
    {
        match self {
            SnapshotType::Archive => false,
            _ => true,
        }
    }
}

impl SnapshotKind {
    /// The lower-case name of this snapshot kind.
    pub fn to_string(&self) -> (r: String)
        ensures
            r@ == kind_text(*self),
    {
        match self {
            SnapshotKind::Archive => "archive".to_owned(),
            SnapshotKind::Full => "full".to_owned(),
        }
    }
}

impl ContextType {
    /// Reads a context kind from its lower-case name.
    pub fn from_str(s: &str) -> (r: Result<ContextType, TypeNotFound>)
        ensures
            match context_type_named(s@) {
                Some(kind) => r == Ok::<ContextType, TypeNotFound>(kind),
                None => r is Err,
            },
    {
        if same_text(s, "irmin") {
            Ok(ContextType::Irmin)
        } else if same_text(s, "tezedge") {
            Ok(ContextType::Tezedge)
        } else {
            Err(TypeNotFound {  })
        }
    }

    /// The lower-case name of this context kind.
    pub fn to_string(&self) -> (r: String)
        ensures
            r@ == context_text(*self),
    {
        match self {
            ContextType::Irmin => "irmin".to_owned(),
            ContextType::Tezedge => "tezedge".to_owned(),
        }
    }
}

/// Reading a context kind back from its own name gives the same kind.
pub proof fn lemma_context_text_round_trip(c: ContextType)
    ensures
        context_type_named(context_text(c)) == Some(c),
{
    reveal_strlit("irmin");
    reveal_strlit("tezedge");
    assert("irmin"@.len() != "tezedge"@.len());
}

} // verus!
