//! Where the installer is looked for first.
use vstd::prelude::*;

verus! {

/// The installer's path under home directory `home`.
pub open spec fn candidate_spec(home: Seq<char>) -> Seq<char> {
    home + "/Downloads/gla_installer.exe"@
}

/// The path at which the installer is looked for before the user is asked:
/// `<home>/Downloads/gla_installer.exe`.
pub fn installer_candidate(home_dir: &str) -> (r: String)
    ensures
        r@ == candidate_spec(home_dir@),
{
    let mut r = String::from_str(home_dir);
    r.append("/Downloads/gla_installer.exe");
    r
}

/// The installer's path under `home_dir`, given whether a file stands at it;
/// `None` where none does.
pub fn find_installer_exe(home_dir: &str, present: bool) -> (r: Option<String>)
    ensures
        present ==> r is Some && r->0@ == candidate_spec(home_dir@),
        !present ==> r is None,
{
    if present {
        Some(installer_candidate(home_dir))
    } else {
        None
    }
}

} // verus!
