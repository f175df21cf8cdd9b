use vstd::prelude::*;

verus! {

/// Why a listing entry gets a color. The set of variants is closed: every
/// color request carries exactly one classification.
#[derive(Debug, Clone, PartialEq, Eq, Hash)]
pub enum Elem {
    /// Node type
    File { executable: bool, uid: bool },
    SymLink,
    BrokenSymLink,
    Dir { uid: bool },
    Pipe,
    BlockDevice,
    CharDevice,
    Socket,
    Special,
    /// Permissions
    Read,
    Write,
    Exec,
    ExecSticky,
    NoAccess,
    /// Last time modified
    DayOld,
    HourOld,
    Older,
    /// User / group name
    User,
    Group,
    /// File size
    NonFile,
    FileLarge,
    FileMedium,
    FileSmall,
    /// INode
    INode { valid: bool },
}

impl Elem {
    /// True exactly for the setuid/setgid classifications: `Dir { uid: true }`
    /// and `File { uid: true, .. }`, independent of the `executable` payload.
    pub open spec fn spec_has_suid(self) -> bool {
        match self {
            Elem::Dir { uid } => uid,
            Elem::File { executable, uid } => uid,
            _ => false,
        }
    }

    pub fn has_suid(&self) -> (r: bool)
        ensures
            r == self.spec_has_suid(),
    {
        match self {
            Elem::Dir { uid: true } | Elem::File { uid: true, .. } => true,
            _ => false,
        }
    }
}

/// The two-letter indicator code under which an override may be registered
/// for a classification; `None` for the classifications that never take part
/// in indicator-based resolution (among them the setuid/setgid ones, whose
/// warning highlight must not be suppressible by an override).
pub open spec fn spec_indicator_code(e: Elem) -> Option<Seq<char>> {
    match e {
        Elem::File { executable, uid } => {
            if uid {
                None
            } else if executable {
                Some("ex"@)
            } else {
                Some("fi"@)
            }
        },
        Elem::Dir { uid } => if uid { None } else { Some("di"@) },
        Elem::SymLink => Some("ln"@),
        Elem::Pipe => Some("pi"@),
        Elem::Socket => Some("so"@),
        Elem::BlockDevice => Some("bd"@),
        Elem::CharDevice => Some("cd"@),
        Elem::BrokenSymLink => Some("or"@),
        Elem::INode { valid } => if valid { Some("so"@) } else { Some("no"@) },
        _ => None,
    }
}

} // verus!
