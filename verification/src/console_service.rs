//! The console endpoint: what a read from the keyboard means, what is written to the
//! screen, and the texts of the banner and of the commands sent to the backend.

use crate::ansi_filter::ESC;
use crate::config::CommandModel;
use crate::config::dump_keyseq;
use crate::config::EnvVar;
use crate::config::FileConfig;
use crate::config::first_hit;
use crate::config::keyseq_text;
use crate::config::ShortCutModel;
use crate::config::shortcuts_view;
use crate::config::TermCommand;
use crate::config::variables_view;
use crate::script_runner::CR;
use crate::term_switch::MsgType;
use crate::text::block;
use crate::text::debug_repr;
use crate::text::debug_text;
use crate::text::decimal;
use crate::text::encode;
use crate::text::join;
use crate::text::push_decimal;
use crate::text::take_block;
use vstd::prelude::*;
use vstd::string::StringExecFns;
use vstd::utf8::encode_utf8;

verus! {

/// Line feed.
pub const NL: u8 = 0x0a;

/// The parts that the welcome banner is made of.
#[derive(Clone, Copy, Debug, PartialEq, Eq, Structural)]
pub enum BannerPart {
    /// The greeting.
    Welcome,
    /// The separator between two parts.
    Arrow,
    /// The port that the listener is bound to.
    Listening(u16),
    /// The remote host that the program is connected to.
    Connected,
    /// The key that opens the help screen.
    HelpHint,
}

/// The parts of the banner, in order: the greeting; the listener's port where one
/// is set; the remote host where the backend is one; the help key. A silent server
/// shows no banner.
pub open spec fn banner_of(portnum: u16, networkdev: bool, silent: bool) -> Seq<BannerPart> {
    if silent {
        Seq::empty()
    } else {
        loud_banner(portnum, networkdev)
    }
}

/// The parts of the banner of a program that is no silent server.
pub open spec fn loud_banner(portnum: u16, networkdev: bool) -> Seq<BannerPart> {
    seq![BannerPart::Welcome] + (if portnum > 0 {
        seq![BannerPart::Arrow, BannerPart::Listening(portnum)]
    } else {
        Seq::empty()
    }) + (if networkdev {
        seq![BannerPart::Arrow, BannerPart::Connected]
    } else {
        Seq::empty()
    }) + seq![BannerPart::Arrow, BannerPart::HelpHint]
}

/// Lists the parts of the welcome banner.
pub fn banner_parts(portnum: u16, networkdev: bool, silent: bool) -> (parts: Vec<BannerPart>)
    ensures
        parts@ == banner_of(portnum, networkdev, silent),
{
    let mut parts: Vec<BannerPart> = Vec::new();
    if silent {
        return parts;
    }
    parts.push(BannerPart::Welcome);
    if portnum > 0 {
        parts.push(BannerPart::Arrow);
        parts.push(BannerPart::Listening(portnum));
    }
    if networkdev {
        parts.push(BannerPart::Arrow);
        parts.push(BannerPart::Connected);
    }
    parts.push(BannerPart::Arrow);
    parts.push(BannerPart::HelpHint);
    parts
}

/// The text of one part of the banner, for the backend `device` and the help key
/// `helpkey`.
pub open spec fn banner_line(part: BannerPart, device: Seq<char>, helpkey: Seq<char>) -> Seq<char> {
    match part {
        BannerPart::Welcome => "=== Welcome to TermSWX"@,
        BannerPart::Arrow => " => "@,
        BannerPart::Listening(port) => "Listening on port "@ + decimal(port as nat),
        BannerPart::Connected => "Connected to "@ + debug_repr(device),
        BannerPart::HelpHint => "Use "@ + helpkey + " to get help ===\r"@,
    }
}

/// Writes one part of the banner.
pub fn banner_text(part: BannerPart, device: &str, helpkey: &str) -> (text: String)
    ensures
        text@ == banner_line(part, device@, helpkey@),
{
    match part {
        BannerPart::Welcome => String::from_str("=== Welcome to TermSWX"),
        BannerPart::Arrow => String::from_str(" => "),
        BannerPart::Listening(port) => {
            let mut text = String::from_str("Listening on port ");
            push_decimal(&mut text, port as u64);
            text
        },
        BannerPart::Connected => join("Connected to ", debug_text(device).as_str()),
        BannerPart::HelpHint => {
            let mut text = String::from_str("Use ");
            text.append(helpkey);
            text.append(" to get help ===\r");
            text
        },
    }
}

/// The command that exports one variable on the backend.
pub open spec fn export_line(var: (Seq<char>, Seq<char>)) -> Seq<char> {
    "export "@ + var.0 + "="@ + var.1 + "\r"@
}

/// The commands that export the variables `vars` on the backend, one after another.
pub open spec fn environment_text(vars: Seq<(Seq<char>, Seq<char>)>) -> Seq<char>
    decreases vars.len(),
{
    if vars.len() == 0 {
        Seq::empty()
    } else {
        environment_text(vars.drop_last()) + export_line(vars.last())
    }
}

/// The bytes that export the configured environment on the backend: for each
/// variable `export NAME=VALUE` and a carriage return.
pub fn environment_command(vars: &Vec<EnvVar>) -> (bytes: Vec<u8>)
    ensures
        bytes@ == encode_utf8(environment_text(variables_view(vars@))),
{
    let ghost all = variables_view(vars@);
    let mut text = String::new();
    let mut i: usize = 0;
    while i < vars.len()
        invariant
            i <= vars.len(),
            all == variables_view(vars@),
            text@ == environment_text(all.take(i as int)),
        decreases vars.len() - i,
    {
        let var = &vars[i];
        proof {
            let upto = all.take(i + 1);
            assert(upto.drop_last() =~= all.take(i as int));
        }
        text.append("export ");
        text.append(var.name.as_str());
        text.append("=");
        text.append(var.value.as_str());
        text.append("\r");
        i += 1;
    }
    assert(all.take(i as int) =~= all);
    encode(text.as_str())
}

/// The command that tells the backend the size of a terminal of `cols` columns and
/// `rows` rows: both are given less one.
pub open spec fn stty_text(cols: u16, rows: u16) -> Seq<char> {
    "stty cols "@ + decimal((cols - 1) as nat) + " rows "@ + decimal((rows - 1) as nat) + "\r"@
}

/// The bytes that tell the backend the size of the local terminal.
pub fn stty_command(cols: u16, rows: u16) -> (bytes: Vec<u8>)
    requires
        cols >= 1,
        rows >= 1,
    ensures
        bytes@ == encode_utf8(stty_text(cols, rows)),
{
    let mut text = String::from_str("stty cols ");
    push_decimal(&mut text, (cols - 1) as u64);
    text.append(" rows ");
    push_decimal(&mut text, (rows - 1) as u64);
    text.append("\r");
    encode(text.as_str())
}

/// The pause, in milliseconds, after a byte of an injected file has been sent: a
/// quarter of a second after each line feed, to let the backend keep up.
pub fn inject_pause_ms(val: u8) -> (ms: u64)
    ensures
        ms == (if val == NL {
            250u64
        } else {
            0u64
        }),
{
    if val == NL {
        250
    } else {
        0
    }
}

/// The refusal shown when a script is asked for while process `pid` still runs one.
pub open spec fn busy_notice(pid: u32) -> Seq<char> {
    "Error: Script with PID "@ + decimal(pid as nat) + " already running"@
}

/// Writes the refusal shown while a script is running.
pub fn busy_text(pid: u32) -> (text: String)
    ensures
        text@ == busy_notice(pid),
{
    let mut text = String::from_str("Error: Script with PID ");
    push_decimal(&mut text, pid as u64);
    text.append(" already running");
    text
}

/// The size of a terminal as the script's environment states it.
pub open spec fn size_text(cols: u16, rows: u16) -> Seq<char> {
    "("@ + decimal(cols as nat) + ", "@ + decimal(rows as nat) + ")"@
}

/// The environment of a script: the terminal size, the backend device and its baud
/// rate, then the configured variables.
pub open spec fn script_envir(
    cols: u16,
    rows: u16,
    device: Seq<char>,
    baudrate: u32,
    vars: Seq<(Seq<char>, Seq<char>)>,
) -> Seq<(Seq<char>, Seq<char>)> {
    seq![
        ("TERMSWX_SIZE"@, size_text(cols, rows)),
        ("TERMSWX_DEV"@, device),
        ("TERMSWX_BAUDRATE"@, decimal(baudrate as nat)),
    ] + vars
}

/// Builds the environment that a script is started with. Where a name occurs twice,
/// the later entry is meant.
pub fn build_script_envir(
    size: (u16, u16),
    device: &str,
    baudrate: u32,
    vars: &Vec<EnvVar>,
) -> (envir: Vec<EnvVar>)
    ensures
        variables_view(envir@) == script_envir(
            size.0,
            size.1,
            device@,
            baudrate,
            variables_view(vars@),
        ),
{
    let mut shown = String::from_str("(");
    push_decimal(&mut shown, size.0 as u64);
    shown.append(", ");
    push_decimal(&mut shown, size.1 as u64);
    shown.append(")");
    let mut rate = String::new();
    push_decimal(&mut rate, baudrate as u64);
    let mut envir: Vec<EnvVar> = Vec::new();
    envir.push(EnvVar { name: String::from_str("TERMSWX_SIZE"), value: shown });
    envir.push(EnvVar { name: String::from_str("TERMSWX_DEV"), value: String::from_str(device) });
    envir.push(EnvVar { name: String::from_str("TERMSWX_BAUDRATE"), value: rate });
    let ghost fixed = variables_view(envir@);
    let ghost all = variables_view(vars@);
    let mut i: usize = 0;
    while i < vars.len()
        invariant
            i <= vars.len(),
            all == variables_view(vars@),
            variables_view(envir@) == fixed + all.take(i as int),
        decreases vars.len() - i,
    {
        let var = &vars[i];
        let ghost before = variables_view(envir@);
        let copy = EnvVar { name: var.name.clone(), value: var.value.clone() };
        envir.push(copy);
        assert(variables_view(envir@) =~= before.push(all[i as int]));
        i += 1;
    }
    assert(fixed =~= seq![
        ("TERMSWX_SIZE"@, size_text(size.0, size.1)),
        ("TERMSWX_DEV"@, device@),
        ("TERMSWX_BAUDRATE"@, decimal(baudrate as nat)),
    ]);
    envir
}

/// What the console does after a read from the keyboard.
#[derive(Debug)]
pub enum ConsoleStep {
    /// Show the help screen.
    Help,
    /// Do nothing.
    Nothing,
    /// End the read loop, which shuts the program down.
    Quit,
    /// Send the terminate signal to this process.
    Signal(u32),
    /// Ask the switch for a break pulse on the backend line.
    Break,
    /// Send each of these bytes to the switch as a console byte.
    Type(Vec<u8>),
    /// Print this text on a line of its own.
    Banner(String),
    /// Refuse: the script with this process id is still running.
    Busy(u32),
    /// Send the content of this file to the backend.
    InjectFile(String),
    /// Run the script named by this argument line.
    RunScript(String),
    /// Ask the terminal for its size and send it to the backend.
    SttySize,
    /// Send each of these bytes to the switch as an answer to the script's prompt
    /// and write it to the screen; the flag tells whether the prompt stays open.
    Answer(Vec<u8>, bool),
}

/// A console step as mathematical values.
pub enum StepModel {
    Help,
    Nothing,
    Quit,
    Signal(u32),
    Break,
    Type(Seq<u8>),
    Banner(Seq<char>),
    Busy(u32),
    InjectFile(Seq<char>),
    RunScript(Seq<char>),
    SttySize,
    Answer(Seq<u8>, bool),
}

impl View for ConsoleStep {
    type V = StepModel;

    open spec fn view(&self) -> StepModel {
        match self {
            ConsoleStep::Help => StepModel::Help,
            ConsoleStep::Nothing => StepModel::Nothing,
            ConsoleStep::Quit => StepModel::Quit,
            ConsoleStep::Signal(pid) => StepModel::Signal(*pid),
            ConsoleStep::Break => StepModel::Break,
            ConsoleStep::Type(bytes) => StepModel::Type(bytes@),
            ConsoleStep::Banner(text) => StepModel::Banner(text@),
            ConsoleStep::Busy(pid) => StepModel::Busy(*pid),
            ConsoleStep::InjectFile(path) => StepModel::InjectFile(path@),
            ConsoleStep::RunScript(line) => StepModel::RunScript(line@),
            ConsoleStep::SttySize => StepModel::SttySize,
            ConsoleStep::Answer(bytes, open) => StepModel::Answer(bytes@, *open),
        }
    }
}

/// What a shortcut's command makes the console do, where the script has process id
/// `script_pid` (zero: no script) and `vars` is the configured environment.
pub open spec fn dispatch(
    command: CommandModel,
    vars: Seq<(Seq<char>, Seq<char>)>,
    script_pid: u32,
) -> StepModel {
    match command {
        CommandModel::HelpMenu => StepModel::Help,
        CommandModel::Nop => StepModel::Nothing,
        CommandModel::Quit => StepModel::Quit,
        CommandModel::StopScript => if script_pid != 0 {
            StepModel::Signal(script_pid)
        } else {
            StepModel::Nothing
        },
        CommandModel::SerialBreak => StepModel::Break,
        CommandModel::Inject(bytes) => StepModel::Type(bytes),
        CommandModel::Prompt(text) => StepModel::Banner(text),
        CommandModel::FileInject(path) => if script_pid != 0 {
            StepModel::Busy(script_pid)
        } else {
            StepModel::InjectFile(path)
        },
        CommandModel::RunScript(line) => if script_pid != 0 {
            StepModel::Busy(script_pid)
        } else {
            StepModel::RunScript(line)
        },
        CommandModel::SttySize => StepModel::SttySize,
        CommandModel::Environment => StepModel::Type(encode_utf8(environment_text(vars))),
    }
}

/// What a read of `cnt` bytes into `buffer` makes the console do: the command of the
/// shortcut that the read stands for, if it stands for one; otherwise the bytes are
/// an answer to the script's prompt while one is open, which a carriage return
/// closes, and input for the backend else.
pub open spec fn console_step_of(
    table: Seq<ShortCutModel>,
    vars: Seq<(Seq<char>, Seq<char>)>,
    buffer: Seq<u8>,
    cnt: nat,
    in_prompt: bool,
    script_pid: u32,
) -> StepModel {
    let hit = first_hit(table, buffer, cnt);
    if 0 <= hit < table.len() {
        dispatch(table[hit].command, vars, script_pid)
    } else if in_prompt {
        StepModel::Answer(block(buffer, cnt), !block(buffer, cnt).contains(CR))
    } else {
        StepModel::Type(block(buffer, cnt))
    }
}

fn has_cr(bytes: &Vec<u8>) -> (r: bool)
    ensures
        r == bytes@.contains(CR),
{
    let mut i: usize = 0;
    while i < bytes.len()
        invariant
            i <= bytes.len(),
            forall|j: int| 0 <= j < i ==> bytes@[j] != CR,
        decreases bytes.len() - i,
    {
        if bytes[i] == CR {
            return true;
        }
        i += 1;
    }
    false
}

/// Decides what the console does after a read of `cnt` bytes into `buffer`, where
/// `in_prompt` tells whether the script's prompt is open and `script_pid` is the
/// process id of the running script, zero where none runs.
pub fn console_step(
    fileconfig: &FileConfig,
    buffer: &Vec<u8>,
    cnt: usize,
    in_prompt: bool,
    script_pid: u32,
) -> (step: ConsoleStep)
    ensures
        step@ == console_step_of(
            shortcuts_view(fileconfig.shortcuts@),
            fileconfig.config@.environment,
            buffer@,
            cnt as nat,
            in_prompt,
            script_pid,
        ),
{
    proof {
        crate::config::lemma_first_hit(shortcuts_view(fileconfig.shortcuts@), buffer@, cnt as nat);
    }
    match fileconfig.find_shortcut(buffer, cnt) {
        Some(cmd) => match cmd {
            TermCommand::HelpMenu => ConsoleStep::Help,
            TermCommand::Nop => ConsoleStep::Nothing,
            TermCommand::Quit => ConsoleStep::Quit,
            TermCommand::StopScript => {
                if script_pid != 0 {
                    ConsoleStep::Signal(script_pid)
                } else {
                    ConsoleStep::Nothing
                }
            },
            TermCommand::SerialBreak => ConsoleStep::Break,
            TermCommand::Inject(seq) => {
                let bytes = seq.clone();
                ConsoleStep::Type(bytes)
            },
            TermCommand::Prompt(arg) => ConsoleStep::Banner(arg.clone()),
            TermCommand::FileInject(arg) => {
                if script_pid != 0 {
                    ConsoleStep::Busy(script_pid)
                } else {
                    ConsoleStep::InjectFile(arg.clone())
                }
            },
            TermCommand::RunScript(arg) => {
                if script_pid != 0 {
                    ConsoleStep::Busy(script_pid)
                } else {
                    ConsoleStep::RunScript(arg.clone())
                }
            },
            TermCommand::SttySize => ConsoleStep::SttySize,
            TermCommand::Environment => ConsoleStep::Type(
                environment_command(fileconfig.get_enviroment()),
            ),
        },
        None => {
            let bytes = take_block(buffer.as_slice(), cnt);
            if in_prompt {
                let open = !has_cr(&bytes);
                ConsoleStep::Answer(bytes, open)
            } else {
                ConsoleStep::Type(bytes)
            }
        },
    }
}

/// Whether a read of `cnt` bytes into `buffer` stands for the `Quit` shortcut: the
/// only input that a silent server acts on.
pub fn silent_quit(fileconfig: &FileConfig, buffer: &Vec<u8>, cnt: usize) -> (quit: bool)
    ensures
        quit == ({
            let table = shortcuts_view(fileconfig.shortcuts@);
            let hit = first_hit(table, buffer@, cnt as nat);
            0 <= hit < table.len() && table[hit].command is Quit
        }),
{
    proof {
        crate::config::lemma_first_hit(shortcuts_view(fileconfig.shortcuts@), buffer@, cnt as nat);
    }
    match fileconfig.find_shortcut(buffer, cnt) {
        Some(TermCommand::Quit) => true,
        _ => false,
    }
}

/// What the help screen does after a read from the keyboard.
#[derive(Debug)]
pub enum HelpStep {
    /// Leave the help screen.
    Close,
    /// Stay, and show nothing.
    Stay,
    /// Stay, and show this line.
    Show(String),
}

/// A help step as mathematical values.
pub enum HelpModel {
    Close,
    Stay,
    Show(Seq<char>),
}

impl View for HelpStep {
    type V = HelpModel;

    open spec fn view(&self) -> HelpModel {
        match self {
            HelpStep::Close => HelpModel::Close,
            HelpStep::Stay => HelpModel::Stay,
            HelpStep::Show(line) => HelpModel::Show(line@),
        }
    }
}

/// What a read of `cnt` bytes into `buffer` makes the help screen do: the help
/// shortcut and a lone `ESC` close it, any other shortcut is ignored, and any other
/// input is shown as a key sequence.
pub open spec fn help_step_of(table: Seq<ShortCutModel>, buffer: Seq<u8>, cnt: nat) -> HelpModel {
    let hit = first_hit(table, buffer, cnt);
    if 0 <= hit < table.len() {
        if table[hit].command is HelpMenu {
            HelpModel::Close
        } else {
            HelpModel::Stay
        }
    } else if cnt == 1 && buffer.len() > 0 && buffer[0] == ESC {
        HelpModel::Close
    } else {
        HelpModel::Show("\rKeyseq: "@ + keyseq_text(block(buffer, cnt)))
    }
}

/// Decides what the help screen does after a read of `cnt` bytes into `buffer`.
pub fn help_step(fileconfig: &FileConfig, buffer: &Vec<u8>, cnt: usize) -> (step: HelpStep)
    ensures
        step@ == help_step_of(shortcuts_view(fileconfig.shortcuts@), buffer@, cnt as nat),
{
    proof {
        crate::config::lemma_first_hit(shortcuts_view(fileconfig.shortcuts@), buffer@, cnt as nat);
    }
    match fileconfig.find_shortcut(buffer, cnt) {
        Some(cmd) => match cmd {
            TermCommand::HelpMenu => HelpStep::Close,
            _ => HelpStep::Stay,
        },
        None => {
            if cnt == 1 && buffer.len() > 0 && buffer[0] == ESC {
                HelpStep::Close
            } else {
                let bytes = take_block(buffer.as_slice(), cnt);
                let mut line = String::from_str("\rKeyseq: ");
                line.append(dump_keyseq(bytes.as_slice()).as_str());
                HelpStep::Show(line)
            }
        },
    }
}

/// What the console's output loop does with an event of the console queue.
#[derive(Clone, Copy, Debug, PartialEq, Eq, Structural)]
pub enum ConsoleOut {
    /// Write this byte to the screen.
    Write(u8),
    /// Write nothing.
    Skip,
    /// End the output loop.
    Exit,
}

/// What an event of the console queue means for the screen: a console byte is
/// written, unless the terminal shows ASCII only and the byte is none; `Exit` ends
/// the loop; anything else is passed over.
pub open spec fn console_out_of(msg: MsgType, ascii_only: bool) -> ConsoleOut {
    match msg {
        MsgType::Console(ch) => if ascii_only && ch >= 0x80 {
            ConsoleOut::Skip
        } else {
            ConsoleOut::Write(ch)
        },
        MsgType::Exit => ConsoleOut::Exit,
        _ => ConsoleOut::Skip,
    }
}

/// Decides what the output loop does with the event `msg`.
pub fn console_output(msg: &MsgType, ascii_only: bool) -> (out: ConsoleOut)
    ensures
        out == console_out_of(*msg, ascii_only),
{
    match msg {
        MsgType::Console(ch) => {
            if ascii_only && *ch >= 0x80 {
                ConsoleOut::Skip
            } else {
                ConsoleOut::Write(*ch)
            }
        },
        MsgType::Exit => ConsoleOut::Exit,
        _ => ConsoleOut::Skip,
    }
}

} // verus!
