//! Metadata about the kernel environment and file system configuration.
//!
//! Where Jupyter keeps its data files is specified in
//! <https://docs.jupyter.org/en/latest/use/jupyter-directories.html#data-files>.
//! The variables of the process environment and the platform are handed in
//! by the caller, so that the rules can be stated over them.

use std::collections::BTreeMap;

use vstd::prelude::*;
use vstd::string::*;

use crate::text::{str_eq, texts};

verus! {

/// Information parsed from the `kernel.json` file.
///
/// See <https://jupyter-client.readthedocs.io/en/latest/kernels.html#kernel-specs>
/// for more information about the kernel spec format.
#[derive(Debug, Clone)]
pub struct KernelSpec {
    /// List of command-line arguments to start the kernel.
    pub argv: Vec<String>,
    /// The display name of the kernel.
    pub display_name: String,
    /// The language of the kernel.
    pub language: String,
    /// The interrupt mode of the kernel ("signal" by default).
    pub interrupt_mode: KernelInterruptMode,
    /// A dictionary of environment variables to set for the kernel.
    pub env: BTreeMap<String, String>,
}

/// The interrupt mode of the kernel.
#[derive(Copy, Clone, Debug, PartialEq, Eq, Structural)]
pub enum KernelInterruptMode {
    /// Interrupts are communicated by sending a signal.
    Signal,
    /// Interrupts are communicated by messages on the control socket.
    Message,
}

impl Default for KernelInterruptMode {
    fn default() -> (mode: Self)
        ensures
            mode == KernelInterruptMode::Signal,
    {
        KernelInterruptMode::Signal
    }
}

impl KernelInterruptMode {
    /// The mode that a word names: `signal` or `message`.
    pub open spec fn of_name(name: Seq<char>) -> Option<KernelInterruptMode> {
        if name == "signal"@ {
            Some(KernelInterruptMode::Signal)
        } else if name == "message"@ {
            Some(KernelInterruptMode::Message)
        } else {
            None
        }
    }

    /// Read the `interrupt_mode` field of a kernel spec.
    pub fn from_wire_name(name: &str) -> (mode: Option<KernelInterruptMode>)
        ensures
            mode == Self::of_name(name@),
    {
        if str_eq(name, "signal") {
            Some(KernelInterruptMode::Signal)
        } else if str_eq(name, "message") {
            Some(KernelInterruptMode::Message)
        } else {
            None
        }
    }
}

/// The kind of system that the rules for directories tell apart.
#[derive(Copy, Clone, Debug, PartialEq, Eq, Structural)]
pub enum Platform {
    /// Windows.
    Windows,
    /// macOS.
    MacOs,
    /// Linux.
    Linux,
}

/// The variables of the process environment that decide where Jupyter files
/// are looked for. A variable that is not set is `None`.
#[derive(Debug, Clone)]
pub struct Environment {
    /// `JUPYTER_PATH`: a list of directories to search first.
    pub jupyter_path: Option<String>,
    /// `JUPYTER_DATA_DIR`: the data directory of the user.
    pub jupyter_data_dir: Option<String>,
    /// `JUPYTER_RUNTIME_DIR`: the directory of connection files.
    pub jupyter_runtime_dir: Option<String>,
    /// `XDG_DATA_HOME`.
    pub xdg_data_home: Option<String>,
    /// `HOME`.
    pub home: Option<String>,
    /// `AppData`.
    pub app_data: Option<String>,
    /// `ProgramData`.
    pub program_data: Option<String>,
}

impl Platform {
    /// The character that separates the entries of a list of paths.
    pub open spec fn list_separator(self) -> char {
        match self {
            Platform::Windows => ';',
            _ => ':',
        }
    }
}

impl Environment {
    /// The variables that name the data directory are set: `JUPYTER_DATA_DIR`,
    /// or else `AppData` on Windows, `HOME` on macOS, and `XDG_DATA_HOME` or
    /// `HOME` on Linux.
    pub open spec fn names_data_dir(self, platform: Platform) -> bool {
        self.jupyter_data_dir is Some || match platform {
            Platform::Windows => self.app_data is Some,
            Platform::MacOs => self.home is Some,
            Platform::Linux => self.xdg_data_home is Some || self.home is Some,
        }
    }

    /// The variables that name the system-wide directories are set:
    /// `ProgramData` on Windows, none elsewhere.
    pub open spec fn names_system_dirs(self, platform: Platform) -> bool {
        platform == Platform::Windows ==> self.program_data is Some
    }

    /// The data directory of the user.
    pub open spec fn data_dir(self, platform: Platform) -> Seq<char> {
        if self.jupyter_data_dir is Some {
            self.jupyter_data_dir->0@
        } else {
            match platform {
                Platform::Windows => self.app_data->0@ + "\\jupyter"@,
                Platform::MacOs => self.home->0@ + "/Library/Jupyter"@,
                Platform::Linux => if self.xdg_data_home is Some {
                    self.xdg_data_home->0@ + "/jupyter"@
                } else {
                    self.home->0@ + "/.local/share/jupyter"@
                },
            }
        }
    }

    /// The directory of connection files: `JUPYTER_RUNTIME_DIR`, or else
    /// `runtime` under the data directory.
    pub open spec fn runtime_dir(self, platform: Platform) -> Seq<char> {
        if self.jupyter_runtime_dir is Some {
            self.jupyter_runtime_dir->0@
        } else {
            match platform {
                Platform::Windows => self.data_dir(platform) + "\\runtime"@,
                _ => self.data_dir(platform) + "/runtime"@,
            }
        }
    }

    /// The system-wide data directories.
    pub open spec fn system_dirs(self, platform: Platform) -> Seq<Seq<char>> {
        match platform {
            Platform::Windows => seq![self.program_data->0@ + "\\jupyter"@],
            _ => seq!["/usr/share/jupyter"@, "/usr/local/share/jupyter"@],
        }
    }

    /// The search path behind the entries of `JUPYTER_PATH`: the data
    /// directory of the user, `share/jupyter` under the prefix of the
    /// interpreter if one is given, and the system-wide directories.
    pub open spec fn fixed_search_paths(self, platform: Platform, prefix: Option<Seq<char>>) -> Seq<
        Seq<char>,
    > {
        let own = seq![self.data_dir(platform)];
        let interpreter = match prefix {
            Some(dir) => seq![dir + "/share/jupyter"@],
            None => Seq::empty(),
        };
        own + interpreter + self.system_dirs(platform)
    }
}

/// The pieces written one after another with the separator between them.
pub open spec fn joined(pieces: Seq<Seq<char>>, separator: char) -> Seq<char>
    decreases pieces.len(),
{
    if pieces.len() == 0 {
        Seq::empty()
    } else if pieces.len() == 1 {
        pieces[0]
    } else {
        joined(pieces.drop_last(), separator) + seq![separator] + pieces.last()
    }
}

/// Whether `pieces` are what `text` falls into at the separator: written
/// with the separator between them they give the text, there is at least
/// one, and none holds the separator.
pub open spec fn is_split_of(pieces: Seq<Seq<char>>, text: Seq<char>, separator: char) -> bool {
    &&& pieces.len() >= 1
    &&& joined(pieces, separator) == text
    &&& forall|i: int| 0 <= i < pieces.len() ==> !(#[trigger] pieces[i]).contains(separator)
}

/// `str::split` of std with a character as the pattern, its substrings
/// collected: the substrings of the text that the character separates, in
/// order, an empty one where two separators meet or the text begins or ends
/// with one.
#[verifier::external_body]
fn split_at_char(text: &str, separator: char) -> (pieces: Vec<String>)
    ensures
        is_split_of(texts(pieces@), text@, separator),
{
    text.split(separator).map(String::from).collect()
}

/// The character that separates the entries of a list of paths.
pub fn list_separator(platform: Platform) -> (separator: char)
    ensures
        separator == platform.list_separator(),
{
    match platform {
        Platform::Windows => ';',
        _ => ':',
    }
}

/// Get the configured directory for data files.
///
/// This is `JUPYTER_DATA_DIR` if it is set. Otherwise it is `%AppData%\jupyter`
/// on Windows, `$HOME/Library/Jupyter` on macOS, and on Linux
/// `$XDG_DATA_HOME/jupyter`, or `$HOME/.local/share/jupyter` where
/// `XDG_DATA_HOME` is not set.
pub fn data_dir(platform: Platform, env: &Environment) -> (dir: String)
    requires
        env.names_data_dir(platform),
    ensures
        dir@ == env.data_dir(platform),
{
    match &env.jupyter_data_dir {
        Some(dir) => dir.clone(),
        None => match platform {
            Platform::Windows => match &env.app_data {
                Some(app_data) => app_data.clone().concat("\\jupyter"),
                None => String::new(),
            },
            Platform::MacOs => match &env.home {
                Some(home) => home.clone().concat("/Library/Jupyter"),
                None => String::new(),
            },
            Platform::Linux => match &env.xdg_data_home {
                Some(xdg_data_home) => xdg_data_home.clone().concat("/jupyter"),
                None => match &env.home {
                    Some(home) => home.clone().concat("/.local/share/jupyter"),
                    None => String::new(),
                },
            },
        },
    }
}

/// Get the configured directory where runtime connection files are stored.
///
/// This is `JUPYTER_RUNTIME_DIR` if it is set, and `runtime` under the data
/// directory otherwise.
pub fn runtime_dir(platform: Platform, env: &Environment) -> (dir: String)
    requires
        env.jupyter_runtime_dir is None ==> env.names_data_dir(platform),
    ensures
        dir@ == env.runtime_dir(platform),
{
    match &env.jupyter_runtime_dir {
        Some(dir) => dir.clone(),
        None => {
            let data = data_dir(platform, env);
            match platform {
                Platform::Windows => data.concat("\\runtime"),
                _ => data.concat("/runtime"),
            }
        },
    }
}

/// Lists the ordered search path to find installable data files.
///
/// First come the entries of `JUPYTER_PATH`, which `;` separates on Windows
/// and `:` elsewhere. Behind them come the data directory of the user,
/// `share/jupyter` under the prefix of the interpreter if one is given, and
/// the system-wide directories: `%ProgramData%\jupyter` on Windows,
/// `/usr/share/jupyter` and `/usr/local/share/jupyter` elsewhere. An entry
/// that occurs twice stays twice.
pub fn data_search_paths(
    platform: Platform,
    env: &Environment,
    interpreter_prefix: Option<&str>,
) -> (dirs: Vec<String>)
    requires
        env.names_data_dir(platform),
        env.names_system_dirs(platform),
    ensures
        ({
            let prefix = match interpreter_prefix {
                Some(dir) => Some(dir@),
                None => None,
            };
            let fixed = env.fixed_search_paths(platform, prefix);
            let listed = texts(dirs@).len() - fixed.len();
            &&& listed >= 0
            &&& texts(dirs@).skip(listed) == fixed
            &&& match env.jupyter_path {
                Some(list) => is_split_of(
                    texts(dirs@).take(listed),
                    list@,
                    platform.list_separator(),
                ),
                None => listed == 0,
            }
        }),
{
    let mut dirs: Vec<String> = match &env.jupyter_path {
        Some(list) => split_at_char(list.as_str(), list_separator(platform)),
        None => Vec::new(),
    };
    let ghost listed = texts(dirs@);
    dirs.push(data_dir(platform, env));
    match interpreter_prefix {
        Some(dir) => {
            dirs.push(dir.to_owned().concat("/share/jupyter"));
        },
        None => {},
    }
    match platform {
        Platform::Windows => match &env.program_data {
            Some(program_data) => {
                dirs.push(program_data.clone().concat("\\jupyter"));
            },
            None => {},
        },
        _ => {
            dirs.push("/usr/share/jupyter".to_owned());
            dirs.push("/usr/local/share/jupyter".to_owned());
        },
    }
    proof {
        let prefix = match interpreter_prefix {
            Some(dir) => Some(dir@),
            None => None,
        };
        let fixed = env.fixed_search_paths(platform, prefix);
        assert(texts(dirs@) =~= listed + fixed);
        assert(texts(dirs@).skip(listed.len() as int) =~= fixed);
        assert(texts(dirs@).take(listed.len() as int) =~= listed);
    }
    dirs
}

/// What was found at a place where a kernel spec may lie.
#[derive(Debug, Clone)]
pub struct Candidate {
    /// The path of the `kernel.json` file.
    pub path: String,
    /// The kernel spec read from the file, or nothing where the file could
    /// not be read or does not hold a kernel spec.
    pub spec: Option<KernelSpec>,
}

/// The kernel specs among the candidates of one directory, in order.
pub open spec fn found_in(entries: Seq<Candidate>) -> Seq<(String, KernelSpec)>
    decreases entries.len(),
{
    if entries.len() == 0 {
        Seq::empty()
    } else {
        let front = found_in(entries.drop_last());
        match entries.last().spec {
            Some(spec) => front.push((entries.last().path, spec)),
            None => front,
        }
    }
}

/// The kernel specs among the candidates of all directories, in the order
/// of the directories. A directory that could not be read gives none.
pub open spec fn found_in_all(dirs: Seq<Option<Vec<Candidate>>>) -> Seq<(String, KernelSpec)>
    decreases dirs.len(),
{
    if dirs.len() == 0 {
        Seq::empty()
    } else {
        let front = found_in_all(dirs.drop_last());
        match dirs.last() {
            Some(entries) => front + found_in(entries@),
            None => front,
        }
    }
}

/// List all available kernels from what was found along the search path.
///
/// Each directory of the search path hands in the candidates under its
/// `kernels` directory, or nothing where it could not be read. Every
/// candidate that holds a kernel spec is listed with its path, in the order
/// of the search path; the others are skipped.
pub fn list_kernels(dirs: Vec<Option<Vec<Candidate>>>) -> (kernels: Vec<(String, KernelSpec)>)
    ensures
        kernels@ == found_in_all(dirs@),
{
    let ghost all = dirs@;
    let mut rest = dirs;
    let mut kernels: Vec<(String, KernelSpec)> = Vec::new();
    let ghost mut done: int = 0;
    proof {
        assert(all.take(0) =~= Seq::<Option<Vec<Candidate>>>::empty());
    }
    while rest.len() > 0
        invariant
            0 <= done <= all.len(),
            rest@ == all.skip(done),
            kernels@ == found_in_all(all.take(done)),
        decreases rest@.len(),
    {
        let dir = rest.remove(0);
        assert(dir == all[done]);
        assert(rest@ =~= all.skip(done + 1));
        proof {
            assert(all.take(done + 1).drop_last() =~= all.take(done));
            assert(all.take(done + 1).last() == all[done]);
        }
        match dir {
            Some(entries) => {
                let ghost listed = entries@;
                let ghost before = kernels@;
                let mut left = entries;
                let ghost mut seen: int = 0;
                proof {
                    assert(listed.take(0) =~= Seq::<Candidate>::empty());
                }
                while left.len() > 0
                    invariant
                        0 <= seen <= listed.len(),
                        left@ == listed.skip(seen),
                        kernels@ == before + found_in(listed.take(seen)),
                    decreases left@.len(),
                {
                    let candidate = left.remove(0);
                    assert(candidate == listed[seen]);
                    assert(left@ =~= listed.skip(seen + 1));
                    proof {
                        assert(listed.take(seen + 1).drop_last() =~= listed.take(seen));
                        assert(listed.take(seen + 1).last() == listed[seen]);
                    }
                    match candidate.spec {
                        Some(spec) => {
                            kernels.push((candidate.path, spec));
                            assert(kernels@ =~= before + found_in(listed.take(seen + 1)));
                        },
                        None => {},
                    }
                    proof {
                        seen = seen + 1;
                    }
                }
                assert(listed.take(seen) =~= listed);
            },
            None => {},
        }
        proof {
            done = done + 1;
        }
    }
    assert(all.take(done) =~= all);
    kernels
}

} // verus!
