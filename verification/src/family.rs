//! The families and the vocabulary of their names.

use vstd::prelude::*;

verus! {

/// An operating-system family that the shell can be built for.
#[derive(Clone, Copy, Debug, PartialEq, Eq, Structural)]
pub enum OsFamily {
    Windows,
    Macos,
    Linux,
}

/// Whether `name` belongs to the vocabulary of family names.
pub open spec fn is_os_name(name: Seq<char>) -> bool {
    name == "windows"@ || name == "macos"@ || name == "linux"@
}

impl OsFamily {
    /// The name under which the family is reported.
    pub open spec fn name(self) -> Seq<char> {
        match self {
            OsFamily::Windows => "windows"@,
            OsFamily::Macos => "macos"@,
            OsFamily::Linux => "linux"@,
        }
    }

    /// The family that `name` stands for, if it stands for one.
    pub open spec fn named(name: Seq<char>) -> Option<OsFamily> {
        if name == "windows"@ {
            Some(OsFamily::Windows)
        } else if name == "macos"@ {
            Some(OsFamily::Macos)
        } else if name == "linux"@ {
            Some(OsFamily::Linux)
        } else {
            None
        }
    }

    /// The family whose name `name` is, or `None` where no family has that
    /// name. The match is exact: a name in another case, or with anything
    /// around it, is no name of the vocabulary.
    pub fn from_name(name: &str) -> (family: Option<OsFamily>)
        ensures
            family == OsFamily::named(name@),
    {
        let given = name.to_owned();
        if given == "windows".to_owned() {
            Some(OsFamily::Windows)
        } else if given == "macos".to_owned() {
            Some(OsFamily::Macos)
        } else if given == "linux".to_owned() {
            Some(OsFamily::Linux)
        } else {
            None
        }
    }
}

/// Every family has a name of the vocabulary.
pub proof fn lemma_name_in_vocabulary(family: OsFamily)
    ensures
        is_os_name(family.name()),
{
}

/// No two families share a name.
pub proof fn lemma_names_distinct(a: OsFamily, b: OsFamily)
    requires
        a != b,
    ensures
        a.name() != b.name(),
{
    reveal_strlit("windows");
    reveal_strlit("macos");
    reveal_strlit("linux");
    assert("windows"@.len() != "macos"@.len());
    assert("windows"@.len() != "linux"@.len());
    assert("macos"@[0] != "linux"@[0]);
}

/// A name stands for a family exactly when it is that family's name, and for
/// none exactly when it is outside the vocabulary.
pub proof fn lemma_named_is_inverse_of_name(name: Seq<char>, family: OsFamily)
    ensures
        OsFamily::named(name) == Some(family) <==> name == family.name(),
        OsFamily::named(name) is None <==> !is_os_name(name),
        OsFamily::named(family.name()) == Some(family),
{
    lemma_names_distinct(OsFamily::Windows, OsFamily::Macos);
    lemma_names_distinct(OsFamily::Windows, OsFamily::Linux);
    lemma_names_distinct(OsFamily::Macos, OsFamily::Linux);
}

} // verus!
