//! One running dashboard per configuration file: where its PID and
//! description are kept, and how a found PID file is judged.

use vstd::prelude::*;
use crate::config::joined_path;
use crate::text::{decimal, owned, parse_u32, parse_u32_spec, push_char, push_str, trim, trimmed};

verus! {

/// How a dashboard instance runs.
#[derive(Debug, Clone, Copy, PartialEq, Eq, Structural)]
pub enum InstanceMode {
    /// Interactive, in the terminal.
    Tui,
    /// In the background, updating subscriptions.
    Daemon,
}

impl InstanceMode {
    /// The mode's name as the status shows it.
    pub fn name(&self) -> (r: String)
        ensures
            r@ == match self {
                InstanceMode::Tui => "Tui"@,
                InstanceMode::Daemon => "Daemon"@,
            },
    {
        match self {
            InstanceMode::Tui => owned("Tui"),
            InstanceMode::Daemon => owned("Daemon"),
        }
    }
}

/// What a running instance records about itself.
#[derive(Debug)]
pub struct InstanceInfo {
    pub pid: u32,
    /// Start time, in seconds since the Unix epoch.
    pub start_time: u64,
    pub api_url: String,
    pub mode: InstanceMode,
}

/// Where an instance keeps its PID and its description.
#[derive(Debug)]
pub struct InstanceManager {
    pub pid_file: String,
    pub info_file: String,
}

/// A name for the MD5 digest of the UTF-8 bytes of `s`, as `md5::compute`
/// gives it.
pub uninterp spec fn md5_digest(s: Seq<char>) -> Seq<u8>;

/// Wraps `md5::compute` on the UTF-8 bytes of `s`; the digest has sixteen
/// bytes (its type is `[u8; 16]`). The contract only names the bytes.
#[verifier::external_body]
fn md5_of(s: &str) -> (r: Vec<u8>)
    ensures
        r@ == md5_digest(s@),
        r@.len() == 16,
{
    md5::compute(s.as_bytes()).0.to_vec()
}

/// The lower-case hexadecimal digit for `d < 16`.
pub open spec fn hex_digit(d: u8) -> char {
    if d < 10 {
        ((d + 48) as u32) as char
    } else {
        ((d + 87) as u32) as char
    }
}

/// Bytes as lower-case hexadecimal, two digits each.
pub open spec fn hex_of(b: Seq<u8>) -> Seq<char>
    decreases b.len(),
{
    if b.len() == 0 {
        Seq::empty()
    } else {
        hex_of(b.drop_last()) + seq![hex_digit(b.last() / 16), hex_digit(b.last() % 16)]
    }
}

fn hex_digit_exec(d: u8) -> (c: char)
    requires
        d < 16,
    ensures
        c == hex_digit(d),
{
    let digits: [char; 16] = ['0', '1', '2', '3', '4', '5', '6', '7', '8', '9', 'a', 'b', 'c', 'd', 'e', 'f'];
    let c = digits[d as usize];
    assert(c == hex_digit(d)) by {
        assert(digits@ == seq!['0', '1', '2', '3', '4', '5', '6', '7', '8', '9', 'a', 'b', 'c', 'd', 'e', 'f']);
    }
    c
}

/// Bytes as lower-case hexadecimal, two digits each.
pub fn to_hex(b: &Vec<u8>) -> (r: String)
    ensures
        r@ == hex_of(b@),
{
    let mut r = String::new();
    let mut i: usize = 0;
    while i < b.len()
        invariant
            i <= b@.len(),
            r@ == hex_of(b@.take(i as int)),
        decreases b@.len() - i,
    {
        assert(b@.take(i + 1).drop_last() =~= b@.take(i as int));
        let x = b[i];
        push_char(&mut r, hex_digit_exec(x / 16));
        push_char(&mut r, hex_digit_exec(x % 16));
        i = i + 1;
        assert(r@ =~= hex_of(b@.take(i as int)));
    }
    assert(b@.take(b@.len() as int) =~= b@);
    r
}

/// The directory the instance files live in.
pub open spec fn instance_dir(data_dir: Option<Seq<char>>) -> Seq<char> {
    match data_dir {
        Some(d) => joined_path(d, "clash-tui"@),
        None => ".clash-tui"@,
    }
}

/// The instance files of configuration `config`: `clash-tui-<hash>.pid`
/// and `.json`, where the hash is the MD5 of its path in hexadecimal.
pub open spec fn instance_file(data_dir: Option<Seq<char>>, config: Seq<char>, ext: Seq<char>) -> Seq<char> {
    joined_path(instance_dir(data_dir), "clash-tui-"@ + hex_of(md5_digest(config)) + ext)
}

impl InstanceManager {
    /// The instance files for configuration `config_path`, under the user's
    /// data directory (`.clash-tui` when there is none).
    pub fn new(config_path: &str, data_dir: Option<&str>) -> (r: InstanceManager)
        ensures
            r.pid_file@ == instance_file(crate::config::opt_str_view(data_dir), config_path@, ".pid"@),
            r.info_file@ == instance_file(crate::config::opt_str_view(data_dir), config_path@, ".json"@),
    {
        let dir = InstanceManager::directory(data_dir);
        let hash = to_hex(&md5_of(config_path));
        let mut pid_name = owned("clash-tui-");
        push_str(&mut pid_name, hash.as_str());
        push_str(&mut pid_name, ".pid");
        let mut info_name = owned("clash-tui-");
        push_str(&mut info_name, hash.as_str());
        push_str(&mut info_name, ".json");
        InstanceManager {
            pid_file: crate::config::join_path(dir.as_str(), pid_name.as_str()),
            info_file: crate::config::join_path(dir.as_str(), info_name.as_str()),
        }
    }

    /// The directory the instance files live in.
    pub fn directory(data_dir: Option<&str>) -> (r: String)
        ensures
            r@ == instance_dir(crate::config::opt_str_view(data_dir)),
    {
        match data_dir {
            Some(d) => crate::config::join_path(d, "clash-tui"),
            None => owned(".clash-tui"),
        }
    }

    /// The PID file.
    pub fn pid_file(&self) -> (r: &String)
        ensures
            r@ == self.pid_file@,
    {
        &self.pid_file
    }
}

/// The PID a PID file holds: its text, trimmed, as a number.
pub fn parse_pid(content: &str) -> (r: Option<u32>)
    ensures
        r == parse_u32_spec(trimmed(content@)),
{
    let t = trim(content);
    parse_u32(t.as_str())
}

/// What a found PID file says.
#[derive(Debug, Clone, Copy, PartialEq, Eq, Structural)]
pub enum PidCheck {
    /// No usable PID: nothing runs.
    NoInstance,
    /// The process is gone: the leftover files are removed.
    Stale,
    /// The process runs: its description is read.
    Running,
}

/// Judges a PID file (its text, if it could be read) given whether the
/// process it names exists.
pub fn check_pid_file(content: Option<&str>, process_exists: bool) -> (r: PidCheck)
    ensures
        r == match content {
            None => PidCheck::NoInstance,
            Some(c) => match parse_u32_spec(trimmed(c@)) {
                None => PidCheck::NoInstance,
                Some(_) => if process_exists {
                    PidCheck::Running
                } else {
                    PidCheck::Stale
                },
            },
        },
{
    match content {
        None => PidCheck::NoInstance,
        Some(c) => match parse_pid(c) {
            None => PidCheck::NoInstance,
            Some(_) => if process_exists {
                PidCheck::Running
            } else {
                PidCheck::Stale
            },
        },
    }
}

/// Whether the PID file (its text) names process `current`, so that this
/// process removes the instance files when it ends.
pub fn owns_pid_file(content: &str, current: u32) -> (r: bool)
    ensures
        r == (parse_u32_spec(trimmed(content@)) == Some(current)),
{
    match parse_pid(content) {
        Some(p) => p == current,
        None => false,
    }
}

/// What the PID file of an instance with process `pid` holds.
pub fn pid_file_text(pid: u32) -> (r: String)
    ensures
        r@ == decimal(pid as nat),
{
    crate::text::u64_to_string(pid as u64)
}

/// Writing a PID and reading it back gives the same process.
pub proof fn law_pid_file_roundtrip(pid: u32)
    ensures
        parse_u32_spec(trimmed(decimal(pid as nat))) == Some(pid),
{
    crate::text::lemma_decimal_digits(pid as nat);
    crate::text::lemma_u32_decimal_roundtrip(pid);
    lemma_trimmed_digits(decimal(pid as nat));
}

/// Trimming leaves a run of digits unchanged.
proof fn lemma_trimmed_digits(s: Seq<char>)
    requires
        crate::text::all_digits(s),
    ensures
        trimmed(s) == s,
{
    if s.len() > 0 {
        assert(crate::text::is_digit(s[0]));
        assert(crate::text::is_digit(s[s.len() - 1]));
        assert(crate::text::trim_start(s) == s);
        assert(crate::text::trim_end(s) == s);
    }
}

/// A running instance the command line talks to.
#[derive(Debug)]
pub struct RunningInstance {
    pub info: InstanceInfo,
    /// Where its control API answers.
    pub api_url: String,
}

impl RunningInstance {
    /// Connects to the instance described by `info`.
    pub fn new(info: InstanceInfo) -> (r: RunningInstance)
        ensures
            r.api_url@ == info.api_url@,
            r.info == info,
    {
        let api_url = info.api_url.clone();
        RunningInstance { info, api_url }
    }

    /// The status of the instance, from what its core answered.
    pub fn status(
        &self,
        version: Option<String>,
        mode_config: Option<String>,
        uptime: String,
        traffic: Option<crate::state::Traffic>,
    ) -> (r: InstanceStatus)
        ensures
            r.pid == self.info.pid,
            r.mode@ == match self.info.mode {
                InstanceMode::Tui => "Tui"@,
                InstanceMode::Daemon => "Daemon"@,
            },
            r.version == version,
            r.mode_config == mode_config,
            r.uptime == uptime,
            r.traffic == traffic,
    {
        InstanceStatus {
            pid: self.info.pid,
            mode: self.info.mode.name(),
            version,
            mode_config,
            uptime,
            traffic,
        }
    }
}

/// The status summary of a running instance.
#[derive(Debug)]
pub struct InstanceStatus {
    pub pid: u32,
    pub mode: String,
    pub version: Option<String>,
    pub mode_config: Option<String>,
    pub uptime: String,
    pub traffic: Option<crate::state::Traffic>,
}

} // verus!
