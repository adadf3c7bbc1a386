//! The query that the shell answers.

use vstd::prelude::*;

use crate::family::is_os_name;
use crate::family::OsFamily;

verus! {

/// The answer of a shell that runs on `family`: the name of that family. It is
/// a function of the family alone, is always given, and is always a name of
/// the vocabulary: `"windows"`, `"macos"` or `"linux"`.
pub fn get_os_name(family: OsFamily) -> (name: String)
    ensures
        name@ == family.name(),
        is_os_name(name@),
{
    match family {
        OsFamily::Windows => "windows".to_owned(),
        OsFamily::Macos => "macos".to_owned(),
        OsFamily::Linux => "linux".to_owned(),
    }
}

/// Asked any number of times about one family, the query gives one answer:
/// two strings that each answer it are the same string.
pub proof fn lemma_answers_agree(family: OsFamily, first: Seq<char>, second: Seq<char>)
    requires
        first == family.name(),
        second == family.name(),
    ensures
        first == second,
{
}

} // verus!
