//! The options of the command line: their defaults, their limits, and what they make
//! the program do.

use crate::text::chars_of;
use crate::text::decimal;
use crate::text::push_decimal;
use crate::text::same_chars;
use vstd::prelude::*;
use vstd::string::StringExecFns;

verus! {

/// The version of the configuration file's layout that this program reads.
pub const CONFIG_VERSION: i64 = 7;

/// The baud rate in use where none is given.
pub const DEFAULT_BAUDRATE: u32 = 115200;

/// The cap on network clients where none is given.
pub const DEFAULT_MAXCLIENTS: i8 = 1;

/// A listener's port must be above this number.
pub const PORT_FLOOR: u16 = 1024;

/// How often the verbosity flag may be repeated.
pub const MAX_VERBOSITY: usize = 5;

/// The options that the program runs with.
#[derive(Debug, Clone)]
pub struct CmdLineConfig {
    /// The device path, or the host and port, of the backend.
    pub device: String,
    /// The baud rate of a serial backend.
    pub baudrate: u32,
    /// The port of the listener; zero for none.
    pub portnum: u16,
    /// The cap on network clients.
    pub maxclients: i8,
    /// Whether to run as a silent server.
    pub server: bool,
    /// The file that the trace log goes to.
    pub tracefile: String,
    /// Whether to wait for a lost device to come back.
    pub keeprunning: bool,
    /// Whether only to list the serial ports.
    pub enumerate: bool,
    /// How often the verbosity flag was given.
    pub verbose: usize,
    /// Whether the backend is a remote host.
    pub networkdev: bool,
    /// Whether only to show the program's version.
    pub version: bool,
    /// The version of the configuration file's layout that is asked for.
    pub config_version: i64,
    /// The path of the configuration file.
    pub config_file: String,
}

impl CmdLineConfig {
    /// The options of a command line that gives none, for a configuration file at
    /// `config_file`.
    pub fn defaults(config_file: String) -> (opts: CmdLineConfig)
        ensures
            opts.device@ == Seq::<char>::empty(),
            opts.baudrate == DEFAULT_BAUDRATE,
            opts.portnum == 0,
            opts.maxclients == DEFAULT_MAXCLIENTS,
            !opts.server,
            opts.tracefile@ == "/tmp/termswx_trace.log"@,
            !opts.keeprunning,
            !opts.enumerate,
            opts.verbose == 0,
            !opts.networkdev,
            !opts.version,
            opts.config_version == CONFIG_VERSION,
            opts.config_file == config_file,
    {
        CmdLineConfig {
            device: String::new(),
            baudrate: DEFAULT_BAUDRATE,
            portnum: 0,
            maxclients: DEFAULT_MAXCLIENTS,
            server: false,
            tracefile: String::from_str("/tmp/termswx_trace.log"),
            keeprunning: false,
            enumerate: false,
            verbose: 0,
            networkdev: false,
            version: false,
            config_version: CONFIG_VERSION,
            config_file,
        }
    }
}

/// Whether `portnum` may be given as a listener's port.
pub fn valid_portnum(portnum: u16) -> (ok: bool)
    ensures
        ok == (portnum > PORT_FLOOR),
{
    portnum > PORT_FLOOR
}

/// Whether the verbosity flag may be given `count` times.
pub fn valid_verbosity(count: usize) -> (ok: bool)
    ensures
        ok == (count <= MAX_VERBOSITY),
{
    count <= MAX_VERBOSITY
}

/// Whether a device name starts with `COM`, as the serial ports of Windows do.
pub open spec fn names_com(device: Seq<char>) -> bool {
    device.len() >= 3 && device.take(3) == "COM"@
}

/// Tests whether a device name starts with `COM`.
pub fn names_com_port(device: &str) -> (com: bool)
    ensures
        com == names_com(device@),
{
    let v = chars_of(device);
    let word = chars_of("COM");
    if v.len() < 3 {
        false
    } else {
        same_chars(&v, 0, 3, &word)
    }
}

/// Whether a path is absolute, that is, starts at the root.
pub open spec fn is_absolute(path: Seq<char>) -> bool {
    path.len() > 0 && path[0] == '/'
}

/// Settles what the backend is, where `present` tells whether the device path names
/// something in the file system. What exists is a device. What does not exist and is
/// no absolute path is taken for a remote host. An absolute path that does not exist
/// is refused.
pub fn parse_path(opts: &mut CmdLineConfig, present: bool) -> (usable: bool)
    ensures
        usable == (present || !is_absolute(old(opts).device@)),
        final(opts).networkdev == (if present || is_absolute(old(opts).device@) {
            old(opts).networkdev
        } else {
            true
        }),
        final(opts).device == old(opts).device,
        final(opts).baudrate == old(opts).baudrate,
        final(opts).portnum == old(opts).portnum,
        final(opts).maxclients == old(opts).maxclients,
        final(opts).server == old(opts).server,
        final(opts).tracefile == old(opts).tracefile,
        final(opts).keeprunning == old(opts).keeprunning,
        final(opts).enumerate == old(opts).enumerate,
        final(opts).verbose == old(opts).verbose,
        final(opts).version == old(opts).version,
        final(opts).config_version == old(opts).config_version,
        final(opts).config_file == old(opts).config_file,
{
    if present {
        true
    } else {
        let path = chars_of(opts.device.as_str());
        if path.len() > 0 && path[0] == '/' {
            false
        } else {
            opts.networkdev = true;
            true
        }
    }
}

/// Settles what the backend is where serial ports are named `COM`: a name that
/// starts with `COM` is a device, any other is taken for a remote host. No name is
/// refused.
pub fn parse_com_path(opts: &mut CmdLineConfig) -> (usable: bool)
    ensures
        usable,
        final(opts).networkdev == (if names_com(old(opts).device@) {
            old(opts).networkdev
        } else {
            true
        }),
        final(opts).device == old(opts).device,
        final(opts).baudrate == old(opts).baudrate,
        final(opts).portnum == old(opts).portnum,
        final(opts).maxclients == old(opts).maxclients,
        final(opts).server == old(opts).server,
        final(opts).tracefile == old(opts).tracefile,
        final(opts).keeprunning == old(opts).keeprunning,
        final(opts).enumerate == old(opts).enumerate,
        final(opts).verbose == old(opts).verbose,
        final(opts).version == old(opts).version,
        final(opts).config_version == old(opts).config_version,
        final(opts).config_file == old(opts).config_file,
{
    if !names_com_port(opts.device.as_str()) {
        opts.networkdev = true;
    }
    true
}

/// What the program does once its options are settled.
#[derive(Clone, Copy, Debug, PartialEq, Eq, Structural)]
pub enum Startup {
    /// Show the program's version, and end.
    ShowVersion,
    /// List the serial ports, and end.
    Enumerate,
    /// No backend was named: say so, and end.
    NoDevice,
    /// Start the switch without a listener and connect to the remote host.
    Remote,
    /// Start the switch and open the serial device; with a listener where the flag
    /// is set.
    Local(bool),
}

/// What the options make the program do.
pub open spec fn startup_of(opts: CmdLineConfig) -> Startup {
    if opts.version {
        Startup::ShowVersion
    } else if opts.enumerate {
        Startup::Enumerate
    } else if opts.device@.len() == 0 {
        Startup::NoDevice
    } else if opts.networkdev {
        Startup::Remote
    } else {
        Startup::Local(opts.portnum > 0)
    }
}

/// Decides what the program does with the options `opts`.
pub fn startup(opts: &CmdLineConfig) -> (what: Startup)
    ensures
        what == startup_of(*opts),
{
    if opts.version {
        Startup::ShowVersion
    } else if opts.enumerate {
        Startup::Enumerate
    } else if chars_of(opts.device.as_str()).len() == 0 {
        Startup::NoDevice
    } else if opts.networkdev {
        Startup::Remote
    } else {
        Startup::Local(opts.portnum > 0)
    }
}

/// Whether the switch runs in server mode: it does where a listener's port is set.
pub fn server_mode(opts: &CmdLineConfig) -> (server: bool)
    ensures
        server == (opts.portnum > 0),
{
    opts.portnum > 0
}

/// The last line of a run of `secs` seconds that ended well.
pub open spec fn completed_notice(secs: u64) -> Seq<char> {
    "TermSWX completed after "@ + decimal(secs as nat) + "s"@
}

/// The last line of a run of `secs` seconds that ended for the reason `msg`.
pub open spec fn terminate_notice(secs: u64, msg: Seq<char>) -> Seq<char> {
    completed_notice(secs) + ": "@ + msg
}

/// Writes the last line of a run that ended well.
pub fn completed_text(secs: u64) -> (text: String)
    ensures
        text@ == completed_notice(secs),
{
    let mut text = String::from_str("TermSWX completed after ");
    push_decimal(&mut text, secs);
    text.append("s");
    text
}

/// Writes the last line of a run that ended for the reason `msg`.
pub fn terminate_text(secs: u64, msg: &str) -> (text: String)
    ensures
        text@ == terminate_notice(secs, msg@),
{
    let mut text = completed_text(secs);
    text.append(": ");
    text.append(msg);
    text
}

} // verus!
