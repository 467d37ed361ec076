//! Starting kernels on this machine.
//!
//! A kernel is told where to listen and how to sign by a connection file,
//! whose path replaces the token `{connection_file}` in the command line of
//! its kernel spec. Reserving ports, writing the file and spawning the
//! process are the caller's part; what is written and what is run is decided
//! here.

use vstd::prelude::*;
use vstd::string::*;

use self::environment::Platform;
use super::wire_protocol::{is_hyphenated_uuid, is_random_uuid, new_uuid_v4, uuid_char_at};
use crate::text::{append_decimal, decimal, texts};
use crate::Error;

pub mod environment;

verus! {

/// The five TCP ports of a kernel.
#[derive(Debug, Clone, Copy, PartialEq, Eq, Structural)]
pub struct Ports {
    /// Port of the control channel.
    pub control: u16,
    /// Port of the shell channel.
    pub shell: u16,
    /// Port of the iopub channel.
    pub iopub: u16,
    /// Port of the stdin channel.
    pub stdin: u16,
    /// Port of the heartbeat channel.
    pub heartbeat: u16,
}

impl Ports {
    /// No two of the five ports are the same.
    pub open spec fn distinct(self) -> bool {
        &&& self.control != self.shell
        &&& self.control != self.iopub
        &&& self.control != self.stdin
        &&& self.control != self.heartbeat
        &&& self.shell != self.iopub
        &&& self.shell != self.stdin
        &&& self.shell != self.heartbeat
        &&& self.iopub != self.stdin
        &&& self.iopub != self.heartbeat
        &&& self.stdin != self.heartbeat
    }

    /// Whether no two of the five ports are the same.
    pub fn are_distinct(&self) -> (yes: bool)
        ensures
            yes == self.distinct(),
    {
        self.control != self.shell && self.control != self.iopub && self.control != self.stdin
            && self.control != self.heartbeat && self.shell != self.iopub && self.shell
            != self.stdin && self.shell != self.heartbeat && self.iopub != self.stdin
            && self.iopub != self.heartbeat && self.stdin != self.heartbeat
    }
}

/// What a kernel is handed to connect: the five ports and the signing key.
///
/// The transport is always `tcp`, the address `127.0.0.1` and the signature
/// scheme `hmac-sha256`. The five ports are distinct, and the key is a UUID
/// in its hyphenated form.
#[derive(Debug)]
pub struct ConnectionDescriptor {
    ports: Ports,
    key: String,
}

/// The text of the connection file for the given ports and key.
pub open spec fn connection_json(ports: Ports, key: Seq<char>) -> Seq<char> {
    "{\"control_port\":"@ + decimal(ports.control as nat) + ",\"shell_port\":"@ + decimal(
        ports.shell as nat,
    ) + ",\"iopub_port\":"@ + decimal(ports.iopub as nat) + ",\"stdin_port\":"@ + decimal(
        ports.stdin as nat,
    ) + ",\"hb_port\":"@ + decimal(ports.heartbeat as nat)
        + ",\"transport\":\"tcp\",\"ip\":\"127.0.0.1\",\"signature_scheme\":\"hmac-sha256\",\"key\":\""@
        + key + "\"}"@
}

/// Whether a text is a UUID in its hyphenated form.
pub fn is_uuid_text(text: &str) -> (yes: bool)
    ensures
        yes == is_hyphenated_uuid(text@),
{
    if text.unicode_len() != 36 {
        return false;
    }
    let mut i: usize = 0;
    while i < 36
        invariant
            i <= 36,
            text@.len() == 36,
            forall|k: int| 0 <= k < i ==> #[trigger] uuid_char_at(text@, k),
        decreases 36 - i,
    {
        let c: char = text.get_char(i);
        let fits = if i == 8 || i == 13 || i == 18 || i == 23 {
            c == '-'
        } else {
            ('0' <= c && c <= '9') || ('a' <= c && c <= 'f')
        };
        if !fits {
            assert(!uuid_char_at(text@, i as int));
            return false;
        }
        i += 1;
    }
    true
}

impl Clone for ConnectionDescriptor {
    fn clone(&self) -> (copy: Self)
        ensures
            copy == *self,
    {
        proof {
            use_type_invariant(self);
        }
        ConnectionDescriptor { ports: self.ports, key: self.key.clone() }
    }
}

impl ConnectionDescriptor {
    #[verifier::type_invariant]
    spec fn well_formed(self) -> bool {
        is_hyphenated_uuid(self.key@) && self.ports.distinct()
    }

    /// The ports of the kernel.
    pub closed spec fn ports(self) -> Ports {
        self.ports
    }

    /// The signing key.
    pub closed spec fn key(self) -> Seq<char> {
        self.key@
    }

    /// The text of the connection file.
    pub open spec fn json(self) -> Seq<char> {
        connection_json(self.ports(), self.key())
    }

    /// A descriptor for the given ports with a new random signing key, if
    /// the five ports are distinct.
    pub fn generate(ports: Ports) -> (descriptor: Option<Self>)
        ensures
            descriptor is Some <==> ports.distinct(),
            descriptor matches Some(d) ==> d.ports() == ports && is_random_uuid(d.key()),
    {
        if ports.are_distinct() {
            Some(ConnectionDescriptor { ports, key: new_uuid_v4() })
        } else {
            None
        }
    }

    /// A descriptor for the given ports and signing key, if the five ports
    /// are distinct and the key is a UUID in its hyphenated form.
    pub fn from_parts(ports: Ports, key: String) -> (descriptor: Option<Self>)
        ensures
            descriptor is Some <==> ports.distinct() && is_hyphenated_uuid(key@),
            descriptor matches Some(d) ==> d.ports() == ports && d.key() == key@,
    {
        if ports.are_distinct() && is_uuid_text(key.as_str()) {
            Some(ConnectionDescriptor { ports, key })
        } else {
            None
        }
    }

    /// The ports of the kernel: five distinct ports.
    pub fn get_ports(&self) -> (ports: Ports)
        ensures
            ports == self.ports(),
            ports.distinct(),
    {
        proof {
            use_type_invariant(self);
        }
        self.ports
    }

    /// The signing key.
    pub fn signing_key(&self) -> (key: &str)
        ensures
            key@ == self.key(),
            is_hyphenated_uuid(key@),
    {
        proof {
            use_type_invariant(self);
        }
        self.key.as_str()
    }

    /// Write the connection file: a JSON object with the keys `control_port`,
    /// `shell_port`, `iopub_port`, `stdin_port`, `hb_port`, `transport`, `ip`,
    /// `signature_scheme` and `key`.
    pub fn to_json(&self) -> (text: String)
        ensures
            text@ == self.json(),
    {
        let mut text = "{\"control_port\":".to_owned();
        append_decimal(&mut text, self.ports.control as u64);
        text.append(",\"shell_port\":");
        append_decimal(&mut text, self.ports.shell as u64);
        text.append(",\"iopub_port\":");
        append_decimal(&mut text, self.ports.iopub as u64);
        text.append(",\"stdin_port\":");
        append_decimal(&mut text, self.ports.stdin as u64);
        text.append(",\"hb_port\":");
        append_decimal(&mut text, self.ports.heartbeat as u64);
        text.append(
            ",\"transport\":\"tcp\",\"ip\":\"127.0.0.1\",\"signature_scheme\":\"hmac-sha256\",\"key\":\"",
        );
        text.append(self.key.as_str());
        text.append("\"}");
        assert(text@ =~= self.json());
        text
    }
}

/// The path of the connection file of a kernel: `jute-<kernel id>.json` in
/// the runtime directory.
pub open spec fn connection_file_path(
    runtime_dir: Seq<char>,
    kernel_id: Seq<char>,
    platform: Platform,
) -> Seq<char> {
    let separator = match platform {
        Platform::Windows => "\\"@,
        _ => "/"@,
    };
    runtime_dir + separator + "jute-"@ + kernel_id + ".json"@
}

/// The path of the connection file of the kernel with the given identifier.
pub fn connection_file_name(runtime_dir: &str, kernel_id: &str, platform: Platform) -> (path:
    String)
    ensures
        path@ == connection_file_path(runtime_dir@, kernel_id@, platform),
{
    let mut path = runtime_dir.to_owned();
    match platform {
        Platform::Windows => path.append("\\"),
        _ => path.append("/"),
    }
    path.append("jute-");
    path.append(kernel_id);
    path.append(".json");
    assert(path@ =~= connection_file_path(runtime_dir@, kernel_id@, platform));
    path
}

/// A new random identifier for a kernel: a UUID in its hyphenated form.
pub fn new_kernel_id() -> (id: String)
    ensures
        is_random_uuid(id@),
{
    new_uuid_v4()
}

/// The text in which every match of a pattern is replaced.
///
/// Matches are looked for from the start of the text and do not overlap:
/// where the pattern starts, the replacement is written and the search goes
/// on behind the pattern; elsewhere the character is kept. An empty pattern
/// leaves the text as it is here.
pub open spec fn replaced(text: Seq<char>, pattern: Seq<char>, with: Seq<char>) -> Seq<char>
    decreases text.len(),
{
    if pattern.len() == 0 || text.len() < pattern.len() {
        text
    } else if text.subrange(0, pattern.len() as int) == pattern {
        with + replaced(text.skip(pattern.len() as int), pattern, with)
    } else {
        seq![text[0]] + replaced(text.skip(1), pattern, with)
    }
}

/// Whether the pattern occurs somewhere in the text.
pub open spec fn occurs_in(pattern: Seq<char>, text: Seq<char>) -> bool {
    exists|i: int|
        0 <= i && i + pattern.len() <= text.len() && #[trigger] text.subrange(
            i,
            i + pattern.len(),
        ) == pattern
}

/// A text in which the pattern does not occur stays as it is.
pub proof fn lemma_replaced_without_match(text: Seq<char>, pattern: Seq<char>, with: Seq<char>)
    requires
        !occurs_in(pattern, text),
    ensures
        replaced(text, pattern, with) == text,
    decreases text.len(),
{
    if pattern.len() > 0 && text.len() >= pattern.len() {
        assert(text.subrange(0int, 0int + pattern.len()) != pattern);
        let rest = text.skip(1);
        assert(!occurs_in(pattern, rest)) by {
            if occurs_in(pattern, rest) {
                let i = choose|i: int|
                    0 <= i && i + pattern.len() <= rest.len() && #[trigger] rest.subrange(
                        i,
                        i + pattern.len(),
                    ) == pattern;
                assert(text.subrange(i + 1, i + 1 + pattern.len()) =~= rest.subrange(
                    i,
                    i + pattern.len(),
                ));
            }
        }
        lemma_replaced_without_match(rest, pattern, with);
        assert(seq![text[0]] + rest =~= text);
    }
}

/// `str::replace` of std with a pattern that is not empty: a new string in
/// which all matches of the pattern are replaced with the other string, the
/// matches found from the start and not overlapping. Of an empty pattern
/// nothing is stated.
#[verifier::external_body]
fn replace_all(text: &str, pattern: &str, with: &str) -> (out: String)
    ensures
        pattern@.len() > 0 ==> out@ == replaced(text@, pattern@, with@),
{
    text.replace(pattern, with)
}

/// The command line of a kernel: each argument of the spec with every
/// `{connection_file}` in it replaced by the path of the connection file.
pub open spec fn expanded(argv: Seq<String>, connection_file: Seq<char>) -> Seq<Seq<char>> {
    Seq::new(argv.len(), |i: int| replaced(argv[i]@, "{connection_file}"@, connection_file))
}

/// Expand the command line of a kernel spec for a connection file.
///
/// A spec without arguments cannot be started: that is a connection error.
/// Otherwise the command line has as many arguments as the spec, each with
/// the token `{connection_file}` replaced by the path; an argument without
/// the token stays as it is.
pub fn expand_argv(argv: &Vec<String>, connection_file: &str) -> (command: Result<
    Vec<String>,
    Error,
>)
    ensures
        argv@.len() == 0 ==> (command matches Err(Error::KernelConnect(detail)) && detail@
            == "kernel spec has no argv"@),
        argv@.len() > 0 ==> (command matches Ok(args) && texts(args@) == expanded(
            argv@,
            connection_file@,
        )),
        command matches Ok(args) ==> forall|k: int|
            0 <= k < argv@.len() && !occurs_in("{connection_file}"@, #[trigger] argv@[k]@)
                ==> args@[k]@ == argv@[k]@,
{
    if argv.len() == 0 {
        return Err(Error::KernelConnect("kernel spec has no argv".to_owned()));
    }
    proof {
        reveal_strlit("{connection_file}");
    }
    let mut args: Vec<String> = Vec::new();
    let mut i: usize = 0;
    while i < argv.len()
        invariant
            i <= argv.len(),
            args@.len() == i,
            "{connection_file}"@.len() > 0,
            forall|k: int|
                0 <= k < i ==> (#[trigger] args@[k])@ == replaced(
                    argv@[k]@,
                    "{connection_file}"@,
                    connection_file@,
                ),
            forall|k: int|
                0 <= k < i && !occurs_in("{connection_file}"@, #[trigger] argv@[k]@) ==> args@[k]@
                    == argv@[k]@,
        decreases argv.len() - i,
    {
        proof {
            if !occurs_in("{connection_file}"@, argv@[i as int]@) {
                lemma_replaced_without_match(
                    argv@[i as int]@,
                    "{connection_file}"@,
                    connection_file@,
                );
            }
        }
        args.push(replace_all(argv[i].as_str(), "{connection_file}", connection_file));
        i += 1;
    }
    assert(texts(args@) =~= expanded(argv@, connection_file@));
    Ok(args)
}

} // verus!
