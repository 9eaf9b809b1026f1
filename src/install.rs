//! Choosing the package-manager command that installs Wine on a given
//! distribution, and the errors of an installation.
use vstd::prelude::*;
use crate::text::{chars_of, range_equals};

verus! {

/// The distributions of the Debian family that `apt` serves.
pub open spec fn is_debian_family(d: Seq<char>) -> bool {
    d == "ubuntu"@ || d == "debian"@ || d == "linuxmint"@
}

/// The distributions of the Arch family that `pacman` serves.
pub open spec fn is_arch_family(d: Seq<char>) -> bool {
    d == "arch"@ || d == "manjaro"@
}

/// The command, program name first, that installs Wine on distribution `d`;
/// `None` where `d` is not one of the supported distributions.
pub open spec fn command_for(d: Seq<char>) -> Option<Seq<Seq<char>>> {
    if is_debian_family(d) {
        Some(seq!["apt"@, "install"@, "wine"@, "-y"@])
    } else if is_arch_family(d) {
        Some(seq!["pacman"@, "-S"@, "--noconfirm"@, "wine"@])
    } else if d == "fedora"@ {
        Some(seq!["dnf"@, "install"@, "-y"@, "wine"@])
    } else if d == "opensuse"@ {
        Some(seq!["zypper"@, "install"@, "-y"@, "wine"@])
    } else {
        None
    }
}

/// The views of a sequence of strings.
pub open spec fn views(v: Seq<String>) -> Seq<Seq<char>> {
    v.map_values(|s: String| s@)
}

/// Why Wine could not be installed.
#[derive(Debug)]
pub enum InstallError {
    /// The descriptor of the distribution could not be read; the text says why.
    DescriptorUnreadable(String),
    /// The distribution, named here, has no known installation command.
    Unsupported(String),
    /// The package manager could not be started or reported failure.
    Failed,
}

impl InstallError {
    /// The message that tells the user what went wrong.
    pub fn message(&self) -> (r: String)
        ensures
            r@ == install_message(*self),
    {
        match self {
            InstallError::DescriptorUnreadable(why) => why.clone(),
            InstallError::Unsupported(d) => {
                let mut m = String::from_str("Distribuição '");
                m.append(d.as_str());
                m.append("' não suportada automaticamente. Instale o wine manualmente.");
                m
            },
            InstallError::Failed => String::from_str("Falha ao instalar o Wine automaticamente."),
        }
    }
}

/// What the message of an installation error reads.
pub open spec fn install_message(e: InstallError) -> Seq<char> {
    match e {
        InstallError::DescriptorUnreadable(why) => why@,
        InstallError::Unsupported(d) => "Distribuição '"@ + d@
            + "' não suportada automaticamente. Instale o wine manualmente."@,
        InstallError::Failed => "Falha ao instalar o Wine automaticamente."@,
    }
}

fn strings_of(words: &[&str; 4]) -> (r: Vec<String>)
    ensures
        views(r@) == seq![words[0]@, words[1]@, words[2]@, words[3]@],
{
    let v: Vec<String> = vec![
        String::from_str(words[0]),
        String::from_str(words[1]),
        String::from_str(words[2]),
        String::from_str(words[3]),
    ];
    assert(views(v@) =~= seq![words[0]@, words[1]@, words[2]@, words[3]@]);
    v
}

/// The command that installs Wine on distribution `distro`, program name
/// first; an `Unsupported` error naming the distribution where none is known.
pub fn install_command(distro: &str) -> (r: Result<Vec<String>, InstallError>)
    ensures
        match r {
            Ok(cmd) => command_for(distro@) == Some(views(cmd@)),
            Err(e) => command_for(distro@) is None && e is Unsupported && e->Unsupported_0@
                == distro@,
        },
{
    let cs = chars_of(distro);
    let n = cs.len();
    assert(cs@.subrange(0, n as int) =~= distro@);
    if range_equals(&cs, 0, n, "ubuntu") || range_equals(&cs, 0, n, "debian") || range_equals(
        &cs,
        0,
        n,
        "linuxmint",
    ) {
        Ok(strings_of(&["apt", "install", "wine", "-y"]))
    } else if range_equals(&cs, 0, n, "arch") || range_equals(&cs, 0, n, "manjaro") {
        Ok(strings_of(&["pacman", "-S", "--noconfirm", "wine"]))
    } else if range_equals(&cs, 0, n, "fedora") {
        Ok(strings_of(&["dnf", "install", "-y", "wine"]))
    } else if range_equals(&cs, 0, n, "opensuse") {
        Ok(strings_of(&["zypper", "install", "-y", "wine"]))
    } else {
        Err(InstallError::Unsupported(String::from_str(distro)))
    }
}

/// The words of `v` with one space between each two.
pub open spec fn joined(v: Seq<Seq<char>>) -> Seq<char>
    decreases v.len(),
{
    if v.len() == 0 {
        Seq::<char>::empty()
    } else if v.len() == 1 {
        v[0]
    } else {
        joined(v.drop_last()) + " "@ + v.last()
    }
}

/// The line that announces an installation command before it runs with
/// elevated privileges.
pub fn install_banner(cmd: &Vec<String>) -> (r: String)
    ensures
        r@ == "Instalando wine usando: sudo "@ + joined(views(cmd@)),
{
    let mut r = String::new();
    let mut i: usize = 0;
    while i < cmd.len()
        invariant
            i <= cmd@.len(),
            r@ == joined(views(cmd@).take(i as int)),
        decreases cmd.len() - i,
    {
        if i > 0 {
            r.append(" ");
        }
        r.append(cmd[i].as_str());
        assert(views(cmd@).take(i + 1).drop_last() =~= views(cmd@).take(i as int));
        i = i + 1;
    }
    assert(views(cmd@).take(cmd@.len() as int) =~= views(cmd@));
    let mut m = String::from_str("Instalando wine usando: sudo ");
    m.append(r.as_str());
    m
}

/// The outcome of running the installation command, given whether it could be
/// started and exited with success.
pub fn install_outcome(succeeded: bool) -> (r: Result<(), InstallError>)
    ensures
        succeeded <==> r is Ok,
        !succeeded ==> r == Err::<(), InstallError>(InstallError::Failed),
{
    if succeeded {
        Ok(())
    } else {
        Err(InstallError::Failed)
    }
}

} // verus!
