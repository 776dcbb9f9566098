//! The script helper protocol: what is fed to a script's standard input, what is
//! taken from its standard output, and what the lines on its standard error mean.

use crate::ansi_filter::FilterModel;
use crate::ansi_seq::after_drain;
use crate::ansi_seq::AnsiSeqState;
use crate::ansi_seq::drained;
use crate::config::EnvVar;
use crate::network_service::console_events;
use crate::network_service::to_console_events;
use crate::config::subst_home;
use crate::config::with_home;
use crate::term_switch::MsgType;
use crate::text::block;
use crate::text::chars_of;
use crate::text::decimal;
use crate::text::push_decimal;
use crate::text::split_at_spaces;
use crate::text::split_spaces;
use crate::text::string_of;
use crate::text::texts;
use crossbeam_channel::Receiver;
use crossbeam_channel::Sender;
use std::collections::VecDeque;
use std::sync::Arc;
use std::sync::atomic::AtomicBool;
use std::sync::atomic::AtomicU32;
use vstd::prelude::*;
use vstd::string::StringExecFns;

verus! {

/// Carriage return.
pub const CR: u8 = 0x0d;

/// Prefix of an alert line.
pub const SCRIPT_ALERT: char = '\u{11}';

/// Prefix of a menu title.
pub const SCRIPT_MENU_TITLE: char = '\u{12}';

/// Prefix of a menu item.
pub const SCRIPT_MENU_ITEM: char = '\u{13}';

/// Prefix of a prompt.
pub const SCRIPT_MENU_PROMPT: char = '\u{14}';

/// Prefix of a line of user text.
pub const SCRIPT_USER_TEXT: char = '\u{15}';

/// Prefix of the line that switches binary mode on.
pub const SCRIPT_BINARY_ON: char = '\u{16}';

/// Prefix of the line that switches binary mode off.
pub const SCRIPT_BINARY_OFF: char = '\u{17}';

/// Everything that a script needs to run: its argument line, its queues to and
/// from the switch, the shared flags, the interpreter and the environment.
pub struct ScriptCommand {
    pub arg: String,
    pub tx: Sender<MsgType>,
    pub rx: Receiver<MsgType>,
    pub pid: Arc<AtomicU32>,
    pub python: String,
    pub envir: Vec<EnvVar>,
    pub in_prompt: Arc<AtomicBool>,
    pub binary_mode: Arc<AtomicBool>,
}

/// What a line on the script's standard error asks for.
#[derive(Debug)]
pub enum ScriptMessage {
    /// Show the text as an alert, on a line of its own.
    Alert(String),
    /// Show the text as a menu title, after a short pause.
    MenuTitle(String),
    /// Show the text as a menu item.
    MenuItem(String),
    /// Show the text without a line end and take the operator's answer.
    Prompt(String),
    /// Show the text as user text.
    UserText(String),
    /// Switch binary mode on.
    BinaryOn,
    /// Switch binary mode off.
    BinaryOff,
    /// Show the line as it is.
    Plain(String),
}

/// A script message as mathematical values.
pub enum ScriptNote {
    Alert(Seq<char>),
    MenuTitle(Seq<char>),
    MenuItem(Seq<char>),
    Prompt(Seq<char>),
    UserText(Seq<char>),
    BinaryOn,
    BinaryOff,
    Plain(Seq<char>),
}

impl View for ScriptMessage {
    type V = ScriptNote;

    open spec fn view(&self) -> ScriptNote {
        match self {
            ScriptMessage::Alert(t) => ScriptNote::Alert(t@),
            ScriptMessage::MenuTitle(t) => ScriptNote::MenuTitle(t@),
            ScriptMessage::MenuItem(t) => ScriptNote::MenuItem(t@),
            ScriptMessage::Prompt(t) => ScriptNote::Prompt(t@),
            ScriptMessage::UserText(t) => ScriptNote::UserText(t@),
            ScriptMessage::BinaryOn => ScriptNote::BinaryOn,
            ScriptMessage::BinaryOff => ScriptNote::BinaryOff,
            ScriptMessage::Plain(t) => ScriptNote::Plain(t@),
        }
    }
}

/// `line` without its last character, from position `from` on; empty where the
/// line is too short.
pub open spec fn line_body(line: Seq<char>, from: int) -> Seq<char> {
    if from < line.len() - 1 {
        line.subrange(from, line.len() - 1)
    } else {
        Seq::empty()
    }
}

/// The meaning of one line of the script's standard error, line end included: the
/// first character tells the kind, the text is what stands between it and the
/// line end. A line without a known prefix is shown whole.
pub open spec fn note_of(line: Seq<char>) -> ScriptNote {
    if line.len() == 0 {
        ScriptNote::Plain(Seq::empty())
    } else if line[0] == SCRIPT_ALERT {
        ScriptNote::Alert(line_body(line, 1))
    } else if line[0] == SCRIPT_MENU_TITLE {
        ScriptNote::MenuTitle(line_body(line, 1))
    } else if line[0] == SCRIPT_MENU_ITEM {
        ScriptNote::MenuItem(line_body(line, 1))
    } else if line[0] == SCRIPT_MENU_PROMPT {
        ScriptNote::Prompt(line_body(line, 1))
    } else if line[0] == SCRIPT_USER_TEXT {
        ScriptNote::UserText(line_body(line, 1))
    } else if line[0] == SCRIPT_BINARY_ON {
        ScriptNote::BinaryOn
    } else if line[0] == SCRIPT_BINARY_OFF {
        ScriptNote::BinaryOff
    } else {
        ScriptNote::Plain(line_body(line, 0))
    }
}

fn body_of(v: &Vec<char>, from: usize) -> (text: String)
    ensures
        text@ == line_body(v@, from as int),
{
    if v.len() > 0 && from < v.len() - 1 {
        string_of(v, from, v.len() - 1)
    } else {
        String::new()
    }
}

/// Reads one line of the script's standard error.
pub fn parse_stderr_line(line: &str) -> (msg: ScriptMessage)
    ensures
        msg@ == note_of(line@),
{
    let v = chars_of(line);
    if v.len() == 0 {
        return ScriptMessage::Plain(String::new());
    }
    let prefix = v[0];
    if prefix == SCRIPT_ALERT {
        ScriptMessage::Alert(body_of(&v, 1))
    } else if prefix == SCRIPT_MENU_TITLE {
        ScriptMessage::MenuTitle(body_of(&v, 1))
    } else if prefix == SCRIPT_MENU_ITEM {
        ScriptMessage::MenuItem(body_of(&v, 1))
    } else if prefix == SCRIPT_MENU_PROMPT {
        ScriptMessage::Prompt(body_of(&v, 1))
    } else if prefix == SCRIPT_USER_TEXT {
        ScriptMessage::UserText(body_of(&v, 1))
    } else if prefix == SCRIPT_BINARY_ON {
        ScriptMessage::BinaryOn
    } else if prefix == SCRIPT_BINARY_OFF {
        ScriptMessage::BinaryOff
    } else {
        ScriptMessage::Plain(body_of(&v, 0))
    }
}

impl ScriptMessage {
    /// Binary mode after this message, where it was `current` before.
    pub fn binary_mode_after(&self, current: bool) -> (mode: bool)
        ensures
            mode == (match self@ {
                ScriptNote::BinaryOn => true,
                ScriptNote::BinaryOff => false,
                _ => current,
            }),
    {
        match self {
            ScriptMessage::BinaryOn => true,
            ScriptMessage::BinaryOff => false,
            _ => current,
        }
    }

    /// Whether the operator is being prompted after this message, where `current`
    /// tells whether they were before.
    pub fn in_prompt_after(&self, current: bool) -> (prompted: bool)
        ensures
            prompted == (current || self@ is Prompt),
    {
        match self {
            ScriptMessage::Prompt(_) => true,
            _ => current,
        }
    }

    /// The pause, in milliseconds, before the message is shown.
    pub fn delay_ms(&self) -> (ms: u64)
        ensures
            ms == (if self@ is MenuTitle {
                200u64
            } else {
                0u64
            }),
    {
        match self {
            ScriptMessage::MenuTitle(_) => 200,
            _ => 0,
        }
    }
}

/// `bytes` without its carriage returns.
pub open spec fn without_cr(bytes: Seq<u8>) -> Seq<u8>
    decreases bytes.len(),
{
    if bytes.len() == 0 {
        Seq::empty()
    } else if bytes.last() == CR {
        without_cr(bytes.drop_last())
    } else {
        without_cr(bytes.drop_last()).push(bytes.last())
    }
}

/// What the pump does with a block read from the script's standard output.
#[derive(Debug)]
pub struct Pumped {
    /// The bytes to send to the switch, each as a console byte.
    pub forward: Vec<u8>,
    /// The bytes whose echo from the backend is to be swallowed.
    pub echo: Vec<u8>,
}

/// Decides what becomes of the `cnt` bytes that were read into `buffer` from the
/// script's standard output. In binary mode every byte goes to the switch and none
/// is expected back; otherwise carriage returns are dropped and every other byte
/// goes to the switch and is expected back as an echo.
pub fn pump_output(buffer: &[u8], cnt: usize, binary_mode: bool) -> (out: Pumped)
    ensures
        binary_mode ==> out.forward@ == block(buffer@, cnt as nat) && out.echo@ == Seq::<
            u8,
        >::empty(),
        !binary_mode ==> out.forward@ == without_cr(block(buffer@, cnt as nat)) && out.echo@
            == out.forward@,
{
    let n = if cnt <= buffer.len() {
        cnt
    } else {
        buffer.len()
    };
    let ghost data = block(buffer@, cnt as nat);
    let mut forward: Vec<u8> = Vec::new();
    let mut echo: Vec<u8> = Vec::new();
    let mut idx: usize = 0;
    while idx < n
        invariant
            idx <= n,
            n == data.len(),
            n <= buffer.len(),
            forall|j: int| 0 <= j < n ==> data[j] == buffer@[j],
            binary_mode ==> forward@ == data.take(idx as int) && echo@ == Seq::<u8>::empty(),
            !binary_mode ==> forward@ == without_cr(data.take(idx as int)) && echo@ == forward@,
        decreases n - idx,
    {
        let val = buffer[idx];
        proof {
            let upto = data.take(idx + 1);
            assert(upto.drop_last() =~= data.take(idx as int));
        }
        if binary_mode {
            forward.push(val);
        } else if val != CR {
            forward.push(val);
            echo.push(val);
        }
        idx += 1;
    }
    assert(data.take(n as int) =~= data);
    Pumped { forward, echo }
}

/// How a read from the script's standard output ended.
#[derive(Clone, Copy, Debug, PartialEq, Eq, Structural)]
pub enum PipeRead {
    /// This many bytes were read; none means that the script has closed its output.
    Data(usize),
    /// The pipe failed.
    Failed,
}

/// What the pump does after a read from the script's standard output.
#[derive(Debug)]
pub struct PumpStep {
    /// The events to publish to the switch, in order.
    pub events: Vec<MsgType>,
    /// The bytes whose echo from the backend is to be swallowed.
    pub echo: Vec<u8>,
    /// Whether the pump ends.
    pub stop: bool,
}

/// The bytes that go to the switch of the `cnt` bytes read into `buffer`: all of them
/// in binary mode, all but the carriage returns otherwise.
pub open spec fn pumped(buffer: Seq<u8>, cnt: nat, binary_mode: bool) -> Seq<u8> {
    if binary_mode {
        block(buffer, cnt)
    } else {
        without_cr(block(buffer, cnt))
    }
}

/// What the pump publishes after a read into `buffer`: that the script is done when
/// its output has closed, nothing when the pipe failed, and the bytes read, as
/// console bytes, otherwise.
pub open spec fn pump_events(buffer: Seq<u8>, read: PipeRead, binary_mode: bool) -> Seq<MsgType> {
    match read {
        PipeRead::Data(cnt) => if cnt == 0 {
            seq![MsgType::ScriptDone]
        } else {
            console_events(pumped(buffer, cnt as nat, binary_mode))
        },
        PipeRead::Failed => Seq::empty(),
    }
}

/// The bytes whose echo is expected after a read into `buffer`: outside binary mode,
/// the bytes that went to the switch.
pub open spec fn pump_echo(buffer: Seq<u8>, read: PipeRead, binary_mode: bool) -> Seq<u8> {
    match read {
        PipeRead::Data(cnt) => if cnt == 0 || binary_mode {
            Seq::empty()
        } else {
            pumped(buffer, cnt as nat, binary_mode)
        },
        PipeRead::Failed => Seq::empty(),
    }
}

/// Decides what the pump does after a read into `buffer` from the script's standard
/// output. A read of no bytes means that the script has finished: `ScriptDone` is
/// published and the pump ends. A failed read ends the pump. Any other read is
/// passed on as `pump_output` says.
pub fn pump_step(buffer: &[u8], read: PipeRead, binary_mode: bool) -> (out: PumpStep)
    ensures
        out.events@ == pump_events(buffer@, read, binary_mode),
        out.echo@ == pump_echo(buffer@, read, binary_mode),
        out.stop == (read == PipeRead::Failed || read == PipeRead::Data(0)),
{
    match read {
        PipeRead::Data(cnt) => {
            if cnt == 0 {
                let mut events: Vec<MsgType> = Vec::new();
                events.push(MsgType::ScriptDone);
                assert(events@ =~= seq![MsgType::ScriptDone]);
                PumpStep { events, echo: Vec::new(), stop: true }
            } else {
                let pumped = pump_output(buffer, cnt, binary_mode);
                PumpStep {
                    events: to_console_events(&pumped.forward),
                    echo: pumped.echo,
                    stop: false,
                }
            }
        },
        PipeRead::Failed => PumpStep { events: Vec::new(), echo: Vec::new(), stop: true },
    }
}

/// Mathematical state of the feeder of a script's standard input.
pub struct FeederModel {
    /// The control-sequence filter.
    pub filter: FilterModel,
    /// The bytes that the script has sent to the backend and whose echo has not
    /// been looked for yet, oldest first.
    pub pending: Seq<u8>,
}

/// What the feeder does with one event, as mathematical values.
pub struct FeedModel {
    pub write: Seq<u8>,
    pub pace: bool,
    pub done: bool,
}

/// What the feeder does with one event.
#[derive(Debug)]
pub struct Feed {
    /// The bytes to write to the script's standard input, in order.
    pub write: Vec<u8>,
    /// Whether to pause after each write.
    pub pace: bool,
    /// Whether the script is done and feeding ends.
    pub done: bool,
}

impl View for Feed {
    type V = FeedModel;

    open spec fn view(&self) -> FeedModel {
        FeedModel { write: self.write@, pace: self.pace, done: self.done }
    }
}

impl FeederModel {
    /// The feeder after one more byte has been sent to the backend.
    pub open spec fn expecting(self, b: u8) -> FeederModel {
        FeederModel { filter: self.filter, pending: self.pending.push(b) }
    }

    /// The feeder once the oldest pending echo, if any, has been looked at.
    pub open spec fn consulted(self) -> FeederModel {
        if self.pending.len() > 0 {
            FeederModel { filter: self.filter, pending: self.pending.drop_first() }
        } else {
            self
        }
    }

    /// Whether `ch` is the echo that is next in line.
    pub open spec fn is_echo(self, ch: u8) -> bool {
        self.pending.len() > 0 && self.pending[0] == ch
    }

    /// The feeder after a byte from the backend outside binary mode. The byte uses up
    /// the oldest pending echo; it goes through the filter unless it is that echo or
    /// a carriage return.
    pub open spec fn after_console(self, ch: u8) -> FeederModel {
        if self.is_echo(ch) || ch == CR {
            self.consulted()
        } else {
            FeederModel {
                filter: after_drain(self.filter.step(ch)),
                pending: self.consulted().pending,
            }
        }
    }

    /// The bytes written to the script for a byte from the backend outside binary
    /// mode.
    pub open spec fn console_output(self, ch: u8) -> Seq<u8> {
        if self.is_echo(ch) || ch == CR {
            Seq::empty()
        } else {
            drained(self.filter.step(ch))
        }
    }

    /// The feeder after the event `msg`.
    pub open spec fn after(self, msg: MsgType, binary_mode: bool) -> FeederModel {
        match msg {
            MsgType::Console(ch) => if binary_mode {
                self
            } else {
                self.after_console(ch)
            },
            _ => self,
        }
    }

    /// What the feeder does with the event `msg`.
    pub open spec fn feed(self, msg: MsgType, binary_mode: bool) -> FeedModel {
        match msg {
            MsgType::Console(ch) => if binary_mode {
                FeedModel { write: seq![ch], pace: false, done: false }
            } else {
                FeedModel { write: self.console_output(ch), pace: true, done: false }
            },
            MsgType::ScriptAlertResponse(ch) => FeedModel {
                write: seq![ch],
                pace: true,
                done: false,
            },
            MsgType::ScriptDone => FeedModel { write: Seq::empty(), pace: false, done: true },
            _ => FeedModel { write: Seq::empty(), pace: false, done: false },
        }
    }

    /// The feeder after the backend bytes `bytes`, outside binary mode.
    pub open spec fn after_run(self, bytes: Seq<u8>) -> FeederModel
        decreases bytes.len(),
    {
        if bytes.len() == 0 {
            self
        } else {
            self.after_run(bytes.drop_last()).after_console(bytes.last())
        }
    }

    /// Everything written to the script for the backend bytes `bytes`, outside
    /// binary mode.
    pub open spec fn run_output(self, bytes: Seq<u8>) -> Seq<u8>
        decreases bytes.len(),
    {
        if bytes.len() == 0 {
            Seq::empty()
        } else {
            self.run_output(bytes.drop_last()) + self.after_run(bytes.drop_last()).console_output(
                bytes.last(),
            )
        }
    }
}

/// Echo suppression, one byte: outside binary mode, the byte that is next in line
/// as an echo is swallowed when it comes back, and is then no longer expected.
pub proof fn lemma_next_echo_swallowed(m: FeederModel, b: u8)
    requires
        m.is_echo(b),
    ensures
        m.feed(MsgType::Console(b), false).write == Seq::<u8>::empty(),
        m.after(MsgType::Console(b), false) == (FeederModel {
            filter: m.filter,
            pending: m.pending.drop_first(),
        }),
{
}

/// Echo suppression: when the backend echoes, in order, the bytes that the script has
/// sent, the script is fed none of them, its filter is left as it was, and the bytes
/// are no longer expected.
pub proof fn lemma_echo_swallowed(m: FeederModel, echoes: Seq<u8>)
    requires
        echoes.len() <= m.pending.len(),
        echoes == m.pending.take(echoes.len() as int),
    ensures
        m.run_output(echoes) == Seq::<u8>::empty(),
        m.after_run(echoes) == (FeederModel {
            filter: m.filter,
            pending: m.pending.skip(echoes.len() as int),
        }),
    decreases echoes.len(),
{
    if echoes.len() == 0 {
        assert(m.pending.skip(0) =~= m.pending);
    } else {
        let head = echoes.drop_last();
        assert(head =~= m.pending.take(head.len() as int));
        lemma_echo_swallowed(m, head);
        let before = m.after_run(head);
        assert(before.pending.drop_first() =~= m.pending.skip(echoes.len() as int));
    }
}

/// The feeder of a script's standard input: it takes the events of the script queue
/// and decides what is written to the script.
#[derive(Debug)]
pub struct ScriptFeeder {
    fsm: AnsiSeqState,
    pending: VecDeque<u8>,
}

impl View for ScriptFeeder {
    type V = FeederModel;

    closed spec fn view(&self) -> FeederModel {
        FeederModel { filter: self.fsm@.filter, pending: self.pending@ }
    }
}

impl ScriptFeeder {
    /// A feeder with a fresh filter that expects no echo.
    pub fn new() -> (feeder: ScriptFeeder)
        ensures
            feeder@ == (FeederModel { filter: FilterModel::start(), pending: Seq::empty() }),
    {
        ScriptFeeder { fsm: AnsiSeqState::new(), pending: VecDeque::new() }
    }

    /// Records that the script has sent `b` to the backend, so that its echo is
    /// expected.
    pub fn expect_echo(&mut self, b: u8)
        ensures
            final(self)@ == old(self)@.expecting(b),
    {
        self.pending.push_back(b);
    }

    /// Decides what the event `msg` of the script queue means for the script's
    /// standard input. In binary mode a backend byte is written as it is. Otherwise
    /// it uses up the oldest pending echo and is dropped if it equals it; a carriage
    /// return is dropped; any other byte goes through the control-sequence filter.
    /// An answer to a prompt is written as it is. `ScriptDone` ends the feeding.
    pub fn feed(&mut self, msg: &MsgType, binary_mode: bool) -> (feed: Feed)
        ensures
            feed@ == old(self)@.feed(*msg, binary_mode),
            final(self)@ == old(self)@.after(*msg, binary_mode),
    {
        match msg {
            MsgType::Console(ch) => {
                if binary_mode {
                    let mut write: Vec<u8> = Vec::new();
                    write.push(*ch);
                    Feed { write, pace: false, done: false }
                } else {
                    let echo = self.pending.pop_front();
                    if echo == Some(*ch) || *ch == CR {
                        Feed { write: Vec::new(), pace: true, done: false }
                    } else {
                        Feed { write: self.fsm.feed(*ch), pace: true, done: false }
                    }
                }
            },
            MsgType::ScriptAlertResponse(ch) => {
                let mut write: Vec<u8> = Vec::new();
                write.push(*ch);
                Feed { write, pace: true, done: false }
            },
            MsgType::ScriptDone => Feed { write: Vec::new(), pace: false, done: true },
            _ => Feed { write: Vec::new(), pace: false, done: false },
        }
    }
}

/// The pause, in microseconds, after a write to the script's standard input that
/// took `written` bytes: none unless pacing is asked for, six milliseconds after a
/// write that took nothing, a tenth of a millisecond otherwise.
pub fn write_pause_micros(written: usize, pace: bool) -> (micros: u64)
    ensures
        micros == (if !pace {
            0u64
        } else if written == 0 {
            6000u64
        } else {
            100u64
        }),
{
    if !pace {
        0
    } else if written == 0 {
        6000
    } else {
        100
    }
}

/// What follows a write of one byte to the script's standard input.
#[derive(Clone, Copy, Debug, PartialEq, Eq, Structural)]
pub struct WriteStep {
    /// Whether the byte is to be written again, because the write took nothing.
    pub retry: bool,
    /// The pause before anything else is done, in microseconds.
    pub pause_micros: u64,
}

/// What follows a write that took `written` bytes: the pause that
/// `write_pause_micros` gives, and then the same byte once more if the write took
/// nothing, the next byte otherwise.
pub open spec fn write_step_of(written: usize, pace: bool) -> WriteStep {
    WriteStep {
        retry: written == 0,
        pause_micros: if !pace {
            0
        } else if written == 0 {
            6000
        } else {
            100
        },
    }
}

/// Decides what follows a write of one byte to the script's standard input that took
/// `written` bytes.
pub fn write_step(written: usize, pace: bool) -> (next: WriteStep)
    ensures
        next == write_step_of(written, pace),
{
    WriteStep { retry: written == 0, pause_micros: write_pause_micros(written, pace) }
}

/// The arguments that the interpreter is started with for the argument line `arg`:
/// `-u`, for unbuffered output, then the pieces of the line between its spaces, with
/// every `~` replaced by `home`.
pub open spec fn arguments_of(arg: Seq<char>, home: Seq<char>) -> Seq<Seq<char>> {
    seq!["-u"@] + split_spaces(with_home(arg, home))
}

/// Builds the interpreter's arguments for a script's argument line.
pub fn script_arguments(arg: &String, home: &str) -> (args: Vec<String>)
    ensures
        texts(args@) == arguments_of(arg@, home@),
{
    let line = subst_home(arg, home);
    let mut pieces = split_at_spaces(line.as_str());
    let mut args: Vec<String> = Vec::new();
    args.push(String::from_str("-u"));
    args.append(&mut pieces);
    args
}

/// The notice that a script has started.
pub open spec fn start_notice(arg: Seq<char>, pid: u32) -> Seq<char> {
    "Start "@ + arg + " as process id "@ + decimal(pid as nat)
}

/// The notice that a script has ended.
pub open spec fn end_notice(arg: Seq<char>, pid: u32) -> Seq<char> {
    "End "@ + arg + " with process id "@ + decimal(pid as nat) + "\r"@
}

/// Writes the notice that the script `arg` runs as process `pid`.
pub fn start_text(arg: &str, pid: u32) -> (text: String)
    ensures
        text@ == start_notice(arg@, pid),
{
    let mut text = String::from_str("Start ");
    text.append(arg);
    text.append(" as process id ");
    push_decimal(&mut text, pid as u64);
    text
}

/// Writes the notice that the script `arg`, process `pid`, has ended.
pub fn end_text(arg: &str, pid: u32) -> (text: String)
    ensures
        text@ == end_notice(arg@, pid),
{
    let mut text = String::from_str("End ");
    text.append(arg);
    text.append(" with process id ");
    push_decimal(&mut text, pid as u64);
    text.append("\r");
    text
}

/// The two lines shown when a script could not be started.
pub open spec fn failure_notice(arg: Seq<char>, error: Seq<char>) -> Seq<Seq<char>> {
    seq![
        "Could not start python script \""@ + arg + "\""@,
        "Error: \""@ + error + "\""@,
    ]
}

/// Writes the lines shown when the script `arg` could not be started for the reason
/// `error`.
pub fn start_failure_lines(arg: &str, error: &str) -> (lines: Vec<String>)
    ensures
        texts(lines@) == failure_notice(arg@, error@),
{
    let mut first = String::from_str("Could not start python script \"");
    first.append(arg);
    first.append("\"");
    let mut second = String::from_str("Error: \"");
    second.append(error);
    second.append("\"");
    let mut lines: Vec<String> = Vec::new();
    lines.push(first);
    lines.push(second);
    lines
}

} // verus!
