//! The configuration: keyboard shortcuts and the commands they stand for, the
//! script's environment and interpreter.

use crate::ansi_filter::byte_is_alphabetic;
use crate::ansi_filter::byte_is_digit;
use crate::ansi_filter::is_alphabetic;
use crate::ansi_filter::is_digit;
use crate::text::bytes_equal;
use crate::text::chars_of;
use crate::text::debug_repr;
use crate::text::debug_text;
use crate::text::decode;
use crate::text::encode;
use crate::text::join3;
use crate::text::join;
use crate::text::push_signed;
use crate::text::same_chars;
use crate::text::signed_decimal;
use crate::text::str_equal;
use crate::text::string_of;
use crate::text::text_of;
use crate::toml_table::error_text;
use crate::toml_table::integer_at;
use crate::toml_table::is_parsed;
use crate::toml_table::parse_table;
use crate::toml_table::section_display;
use crate::toml_table::section_strings;
use crate::toml_table::string_at;
use crate::toml_table::toml_integer_at;
use crate::toml_table::toml_parsed;
use crate::toml_table::toml_section_display;
use crate::toml_table::toml_section_strings;
use crate::toml_table::toml_string_at;
use vstd::prelude::*;
use vstd::std_specs::cmp::PartialEqSpecImpl;
use vstd::string::StringExecFns;
use vstd::utf8::encode_utf8;

verus! {

/// The commands that a keyboard shortcut can stand for.
#[derive(Debug)]
pub enum TermCommand {
    /// Show the help screen.
    HelpMenu,
    /// Swallow the key.
    Nop,
    /// Leave the program.
    Quit,
    /// Terminate the running script.
    StopScript,
    /// Send a break pulse on the backend line.
    SerialBreak,
    /// Send these bytes to the backend.
    Inject(Vec<u8>),
    /// Send the content of this file to the backend.
    FileInject(String),
    /// Run the script named by this argument line.
    RunScript(String),
    /// Tell the backend the size of the local terminal.
    SttySize,
    /// Export the configured environment on the backend.
    Environment,
    /// Print this text on the console.
    Prompt(String),
}

/// A command as mathematical values.
pub enum CommandModel {
    HelpMenu,
    Nop,
    Quit,
    StopScript,
    SerialBreak,
    Inject(Seq<u8>),
    FileInject(Seq<char>),
    RunScript(Seq<char>),
    SttySize,
    Environment,
    Prompt(Seq<char>),
}

impl View for TermCommand {
    type V = CommandModel;

    open spec fn view(&self) -> CommandModel {
        match self {
            TermCommand::HelpMenu => CommandModel::HelpMenu,
            TermCommand::Nop => CommandModel::Nop,
            TermCommand::Quit => CommandModel::Quit,
            TermCommand::StopScript => CommandModel::StopScript,
            TermCommand::SerialBreak => CommandModel::SerialBreak,
            TermCommand::Inject(bytes) => CommandModel::Inject(bytes@),
            TermCommand::FileInject(path) => CommandModel::FileInject(path@),
            TermCommand::RunScript(line) => CommandModel::RunScript(line@),
            TermCommand::SttySize => CommandModel::SttySize,
            TermCommand::Environment => CommandModel::Environment,
            TermCommand::Prompt(text) => CommandModel::Prompt(text@),
        }
    }
}

impl TermCommand {
    /// Whether two commands are the same command with the same argument.
    pub fn same(&self, other: &TermCommand) -> (r: bool)
        ensures
            r == (self@ == other@),
    {
        match (self, other) {
            (TermCommand::HelpMenu, TermCommand::HelpMenu) => true,
            (TermCommand::Nop, TermCommand::Nop) => true,
            (TermCommand::Quit, TermCommand::Quit) => true,
            (TermCommand::StopScript, TermCommand::StopScript) => true,
            (TermCommand::SerialBreak, TermCommand::SerialBreak) => true,
            (TermCommand::Inject(a), TermCommand::Inject(b)) => bytes_equal(a, b),
            (TermCommand::FileInject(a), TermCommand::FileInject(b)) => str_equal(a.as_str(), b.as_str()),
            (TermCommand::RunScript(a), TermCommand::RunScript(b)) => str_equal(a.as_str(), b.as_str()),
            (TermCommand::SttySize, TermCommand::SttySize) => true,
            (TermCommand::Environment, TermCommand::Environment) => true,
            (TermCommand::Prompt(a), TermCommand::Prompt(b)) => str_equal(a.as_str(), b.as_str()),
            _ => false,
        }
    }

    /// A copy of the command.
    pub fn duplicate(&self) -> (copy: TermCommand)
        ensures
            copy@ == self@,
    {
        match self {
            TermCommand::HelpMenu => TermCommand::HelpMenu,
            TermCommand::Nop => TermCommand::Nop,
            TermCommand::Quit => TermCommand::Quit,
            TermCommand::StopScript => TermCommand::StopScript,
            TermCommand::SerialBreak => TermCommand::SerialBreak,
            TermCommand::Inject(bytes) => {
                let copy = bytes.clone();
                TermCommand::Inject(copy)
            },
            TermCommand::FileInject(path) => TermCommand::FileInject(path.clone()),
            TermCommand::RunScript(line) => TermCommand::RunScript(line.clone()),
            TermCommand::SttySize => TermCommand::SttySize,
            TermCommand::Environment => TermCommand::Environment,
            TermCommand::Prompt(text) => TermCommand::Prompt(text.clone()),
        }
    }
}

impl PartialEq for TermCommand {
    fn eq(&self, other: &TermCommand) -> (r: bool) {
        self.same(other)
    }
}

impl PartialEqSpecImpl for TermCommand {
    open spec fn obeys_eq_spec() -> bool {
        true
    }

    open spec fn eq_spec(&self, other: &TermCommand) -> bool {
        self@ == other@
    }
}

impl Eq for TermCommand {

}

/// A key, the bytes that the terminal sends for it, and the command it stands for.
#[derive(Debug)]
pub struct ShortCut {
    pub keyname: String,
    pub keyseq: Vec<u8>,
    pub command: TermCommand,
}

/// A shortcut as mathematical values.
pub struct ShortCutModel {
    pub keyname: Seq<char>,
    pub keyseq: Seq<u8>,
    pub command: CommandModel,
}

impl View for ShortCut {
    type V = ShortCutModel;

    open spec fn view(&self) -> ShortCutModel {
        ShortCutModel { keyname: self.keyname@, keyseq: self.keyseq@, command: self.command@ }
    }
}

/// The table of shortcuts, in the order in which they are tried.
pub type KeyConfig = Vec<ShortCut>;

/// The shortcuts of a table as mathematical values.
pub open spec fn shortcuts_view(table: Seq<ShortCut>) -> Seq<ShortCutModel> {
    table.map_values(|s: ShortCut| s@)
}

/// One entry of a configuration table whose values are meant to be strings:
/// the key, and the value where it is a string.
#[derive(Debug)]
pub struct KeyValue {
    pub key: String,
    pub value: Option<String>,
}

impl View for KeyValue {
    type V = (Seq<char>, Option<Seq<char>>);

    open spec fn view(&self) -> (Seq<char>, Option<Seq<char>>) {
        (
            self.key@,
            match self.value {
                Some(s) => Some(s@),
                None => None,
            },
        )
    }
}

/// The entries of a table as mathematical values.
pub open spec fn entries_view(entries: Seq<KeyValue>) -> Seq<(Seq<char>, Option<Seq<char>>)> {
    entries.map_values(|e: KeyValue| e@)
}

/// One variable of the script's environment: its name, and its value as the
/// configuration file writes it.
#[derive(Debug)]
pub struct EnvVar {
    pub name: String,
    pub value: String,
}

impl View for EnvVar {
    type V = (Seq<char>, Seq<char>);

    open spec fn view(&self) -> (Seq<char>, Seq<char>) {
        (self.name@, self.value@)
    }
}

/// The variables of an environment as mathematical values.
pub open spec fn variables_view(vars: Seq<EnvVar>) -> Seq<(Seq<char>, Seq<char>)> {
    vars.map_values(|v: EnvVar| v@)
}

/// The position of the first space in `s`; the length of `s` where it has none.
pub open spec fn first_space(s: Seq<char>) -> int
    decreases s.len(),
{
    if s.len() == 0 {
        0
    } else if s[0] == ' ' {
        0
    } else {
        1 + first_space(s.drop_first())
    }
}

/// The command that a command string stands for: one of the bare words, or a word,
/// one space and an argument. `None` where the string is neither.
pub open spec fn command_of(s: Seq<char>) -> Option<CommandModel> {
    let cut = first_space(s);
    let word = s.take(cut);
    let arg = s.skip(cut + 1);
    if s == "help"@ {
        Some(CommandModel::HelpMenu)
    } else if s == "nop"@ {
        Some(CommandModel::Nop)
    } else if s == "stop"@ {
        Some(CommandModel::StopScript)
    } else if s == "break"@ {
        Some(CommandModel::SerialBreak)
    } else if s == "sttysize"@ {
        Some(CommandModel::SttySize)
    } else if s == "environment"@ {
        Some(CommandModel::Environment)
    } else if s == "quit"@ {
        Some(CommandModel::Quit)
    } else if cut == s.len() {
        None
    } else if word == "prompt"@ {
        Some(CommandModel::Prompt(arg))
    } else if word == "inject"@ {
        Some(CommandModel::Inject(encode_utf8(arg)))
    } else if word == "file"@ {
        Some(CommandModel::FileInject(arg))
    } else if word == "run"@ {
        Some(CommandModel::RunScript(arg))
    } else {
        None
    }
}

/// The first space is where a space stands with no space before it.
pub proof fn lemma_first_space_at(s: Seq<char>, i: int)
    requires
        0 <= i <= s.len(),
        i < s.len() ==> s[i] == ' ',
        forall|j: int| 0 <= j < i ==> s[j] != ' ',
    ensures
        first_space(s) == i,
    decreases s.len(),
{
    if i > 0 {
        let rest = s.drop_first();
        assert forall|j: int| 0 <= j < i - 1 implies rest[j] != ' ' by {
        }
        lemma_first_space_at(rest, i - 1);
    }
}

fn find_space(v: &Vec<char>) -> (cut: usize)
    ensures
        cut == first_space(v@),
        cut <= v.len(),
{
    let mut i: usize = 0;
    while i < v.len() && v[i] != ' '
        invariant
            i <= v.len(),
            forall|j: int| 0 <= j < i ==> v@[j] != ' ',
        decreases v.len() - i,
    {
        i += 1;
    }
    proof {
        lemma_first_space_at(v@, i as int);
    }
    i
}

fn is_word(v: &Vec<char>, to: usize, word: &str) -> (r: bool)
    requires
        to <= v.len(),
    ensures
        r == (v@.take(to as int) == word@),
{
    let w = chars_of(word);
    same_chars(v, 0, to, &w)
}

/// Reads a command string: one of the bare words `help`, `nop`, `stop`, `break`,
/// `sttysize`, `environment`, `quit`, or one of `prompt`, `inject`, `file`, `run`
/// followed by one space and an argument.
pub fn parse_command(cmdstr: &str) -> (cmd: Option<TermCommand>)
    ensures
        match cmd {
            Some(c) => command_of(cmdstr@) == Some(c@),
            None => command_of(cmdstr@) is None,
        },
{
    let v = chars_of(cmdstr);
    let n = v.len();
    assert(v@.take(n as int) =~= v@);
    if is_word(&v, n, "help") {
        return Some(TermCommand::HelpMenu);
    }
    if is_word(&v, n, "nop") {
        return Some(TermCommand::Nop);
    }
    if is_word(&v, n, "stop") {
        return Some(TermCommand::StopScript);
    }
    if is_word(&v, n, "break") {
        return Some(TermCommand::SerialBreak);
    }
    if is_word(&v, n, "sttysize") {
        return Some(TermCommand::SttySize);
    }
    if is_word(&v, n, "environment") {
        return Some(TermCommand::Environment);
    }
    if is_word(&v, n, "quit") {
        return Some(TermCommand::Quit);
    }
    let cut = find_space(&v);
    if cut == n {
        return None;
    }
    let arg = string_of(&v, cut + 1, n);
    if is_word(&v, cut, "prompt") {
        return Some(TermCommand::Prompt(arg));
    }
    if is_word(&v, cut, "inject") {
        return Some(TermCommand::Inject(encode(arg.as_str())));
    }
    if is_word(&v, cut, "file") {
        return Some(TermCommand::FileInject(arg));
    }
    if is_word(&v, cut, "run") {
        return Some(TermCommand::RunScript(arg));
    }
    None
}

/// The entries of a configuration table, as mathematical values.
pub type Entries = Seq<(Seq<char>, Option<Seq<char>>)>;

/// The bytes that a key table gives for the key `key`: the UTF-8 bytes of the value
/// of the first entry named `key` whose value is a string.
pub open spec fn key_sequence(keynames: Entries, key: Seq<char>) -> Option<Seq<u8>>
    decreases keynames.len(),
{
    if keynames.len() == 0 {
        None
    } else if keynames[0].0 == key && keynames[0].1 is Some {
        Some(encode_utf8(keynames[0].1->0))
    } else {
        key_sequence(keynames.drop_first(), key)
    }
}

/// The shortcut that one entry of the key map defines: its key must have a byte
/// sequence in the key table, and its value must be a command string.
pub open spec fn shortcut_of(keynames: Entries, entry: (Seq<char>, Option<Seq<char>>)) -> Option<
    ShortCutModel,
> {
    match (key_sequence(keynames, entry.0), entry.1) {
        (Some(keyseq), Some(cmdstr)) => match command_of(cmdstr) {
            Some(command) => Some(ShortCutModel { keyname: entry.0, keyseq, command }),
            None => None,
        },
        _ => None,
    }
}

/// The shortcut table that a key table and a key map define: the shortcuts of the
/// key map's entries, in the key map's order.
pub open spec fn keymap_of(keynames: Entries, keymap: Entries) -> Seq<ShortCutModel>
    decreases keymap.len(),
{
    if keymap.len() == 0 {
        Seq::empty()
    } else {
        let rest = keymap_of(keynames, keymap.drop_last());
        match shortcut_of(keynames, keymap.last()) {
            Some(s) => rest.push(s),
            None => rest,
        }
    }
}

/// What the configuration file holds, as far as the program reads it.
#[derive(Debug)]
pub struct ConfigData {
    /// `general.version`, where it is an integer.
    pub version: Option<i64>,
    /// The entries of `environment`.
    pub environment: Vec<EnvVar>,
    /// `scripting.python`, where it is a string.
    pub python: Option<String>,
    /// The entries of `keynames`.
    pub keynames: Vec<KeyValue>,
    /// The entries of `keymap`.
    pub keymap: Vec<KeyValue>,
}

/// The configuration as mathematical values.
pub struct ConfigModel {
    pub version: Option<i64>,
    pub environment: Seq<(Seq<char>, Seq<char>)>,
    pub python: Option<Seq<char>>,
    pub keynames: Entries,
    pub keymap: Entries,
}

impl View for ConfigData {
    type V = ConfigModel;

    open spec fn view(&self) -> ConfigModel {
        ConfigModel {
            version: self.version,
            environment: variables_view(self.environment@),
            python: match self.python {
                Some(p) => Some(p@),
                None => None,
            },
            keynames: entries_view(self.keynames@),
            keymap: entries_view(self.keymap@),
        }
    }
}

/// What the program reads of a TOML document.
pub open spec fn config_of(t: toml::Table) -> ConfigModel {
    ConfigModel {
        version: toml_integer_at(t, "general"@, "version"@),
        environment: toml_section_display(t, "environment"@),
        python: toml_string_at(t, "scripting"@, "python"@),
        keynames: toml_section_strings(t, "keynames"@),
        keymap: toml_section_strings(t, "keymap"@),
    }
}

impl ConfigData {
    /// Reads the configuration out of a document that the parser has returned.
    pub fn from_table(t: &toml::Table) -> (data: ConfigData)
        requires
            is_parsed(*t),
        ensures
            data@ == config_of(*t),
    {
        ConfigData {
            version: integer_at(t, "general", "version"),
            environment: section_display(t, "environment"),
            python: string_at(t, "scripting", "python"),
            keynames: section_strings(t, "keynames"),
            keymap: section_strings(t, "keymap"),
        }
    }
}

/// Why a configuration is refused.
#[derive(Debug)]
pub enum ConfigError {
    /// The text is not a TOML document; the parser's account is attached.
    Syntax(String),
    /// The document states no version.
    MissingVersion,
    /// The document states this version, which is not the expected one.
    IncorrectVersion(i64),
}

/// A refusal as mathematical values.
pub enum ConfigFault {
    /// The text is no document; the parser's account is attached.
    Syntax(Seq<char>),
    /// The document states no version.
    MissingVersion,
    /// The document states this version, which is not the expected one.
    IncorrectVersion(i64),
}

impl View for ConfigError {
    type V = ConfigFault;

    open spec fn view(&self) -> ConfigFault {
        match self {
            ConfigError::Syntax(account) => ConfigFault::Syntax(account@),
            ConfigError::MissingVersion => ConfigFault::MissingVersion,
            ConfigError::IncorrectVersion(v) => ConfigFault::IncorrectVersion(*v),
        }
    }
}

/// The reason given for a refusal, where version `expected` was asked for of the
/// file `path`.
pub open spec fn fault_notice(fault: ConfigFault, expected: i64, path: Seq<char>) -> Seq<char> {
    match fault {
        ConfigFault::Syntax(account) => "Error in the configuration file: "@ + account,
        ConfigFault::MissingVersion => "Missing configuration file version: "@ + signed_decimal(
            expected as int,
        ) + " in "@ + debug_repr(path),
        ConfigFault::IncorrectVersion(found) => "Incorrect configuration file version: "@
            + signed_decimal(found as int) + ", expected: "@ + signed_decimal(expected as int)
            + " in "@ + debug_repr(path),
    }
}

impl ConfigError {
    /// Writes the reason for the refusal of the configuration file `config_file`, of
    /// which version `config_version` was asked for.
    pub fn message(&self, config_version: i64, config_file: &str) -> (text: String)
        ensures
            text@ == fault_notice(self@, config_version, config_file@),
    {
        match self {
            ConfigError::Syntax(account) => join(
                "Error in the configuration file: ",
                account.as_str(),
            ),
            ConfigError::MissingVersion => {
                let mut text = String::from_str("Missing configuration file version: ");
                push_signed(&mut text, config_version);
                join3(text.as_str(), " in ", debug_text(config_file).as_str())
            },
            ConfigError::IncorrectVersion(found) => {
                let mut text = String::from_str("Incorrect configuration file version: ");
                push_signed(&mut text, *found);
                text.append(", expected: ");
                push_signed(&mut text, config_version);
                join3(text.as_str(), " in ", debug_text(config_file).as_str())
            },
        }
    }
}

/// The fault of a configuration that states `version` where `expected` is asked for.
pub open spec fn version_fault(version: Option<i64>, expected: i64) -> Option<ConfigFault> {
    match version {
        None => Some(ConfigFault::MissingVersion),
        Some(v) => if v == expected {
            None
        } else {
            Some(ConfigFault::IncorrectVersion(v))
        },
    }
}

/// Checks that the configuration states the expected version.
pub fn validate_version(config: &ConfigData, config_version: i64) -> (r: Result<(), ConfigError>)
    ensures
        match r {
            Ok(_) => version_fault(config.version, config_version) is None,
            Err(e) => version_fault(config.version, config_version) == Some(e@),
        },
{
    match config.version {
        None => Err(ConfigError::MissingVersion),
        Some(v) => {
            if v == config_version {
                Ok(())
            } else {
                Err(ConfigError::IncorrectVersion(v))
            }
        },
    }
}

/// Looks a key up in the key table and returns the bytes that the terminal sends
/// for it.
pub fn to_keyseq<'a>(config: &'a ConfigData, key: &String) -> (keyseq: Option<&'a [u8]>)
    ensures
        match keyseq {
            Some(bytes) => key_sequence(config@.keynames, key@) == Some(bytes@),
            None => key_sequence(config@.keynames, key@) is None,
        },
{
    let ghost all = config@.keynames;
    let mut i: usize = 0;
    assert(all.skip(0) =~= all);
    while i < config.keynames.len()
        invariant
            i <= config.keynames.len(),
            all == entries_view(config.keynames@),
            key_sequence(all, key@) == key_sequence(all.skip(i as int), key@),
        decreases config.keynames.len() - i,
    {
        let entry = &config.keynames[i];
        let ghost rest = all.skip(i as int);
        assert(rest.drop_first() =~= all.skip(i + 1));
        if str_equal(entry.key.as_str(), key.as_str()) {
            match &entry.value {
                Some(s) => {
                    return Some(s.as_str().as_bytes());
                },
                None => {},
            }
        }
        i += 1;
    }
    None
}

/// Builds the shortcut table from the key table and the key map of a configuration.
pub fn create_keymap(config: &ConfigData) -> (keyconfig: KeyConfig)
    ensures
        shortcuts_view(keyconfig@) == keymap_of(config@.keynames, config@.keymap),
{
    let ghost names = config@.keynames;
    let ghost map = config@.keymap;
    let mut keyconfig: Vec<ShortCut> = Vec::new();
    let mut i: usize = 0;
    while i < config.keymap.len()
        invariant
            i <= config.keymap.len(),
            names == config@.keynames,
            map == entries_view(config.keymap@),
            shortcuts_view(keyconfig@) == keymap_of(names, map.take(i as int)),
        decreases config.keymap.len() - i,
    {
        let entry = &config.keymap[i];
        proof {
            let upto = map.take(i + 1);
            assert(upto.drop_last() =~= map.take(i as int));
        }
        if let Some(keyseq) = to_keyseq(config, &entry.key) {
            if let Some(cmdstr) = &entry.value {
                if let Some(command) = parse_command(cmdstr.as_str()) {
                    let shortcut = ShortCut {
                        keyname: entry.key.clone(),
                        keyseq: vstd::slice::slice_to_vec(keyseq),
                        command,
                    };
                    keyconfig.push(shortcut);
                }
            }
        }
        i += 1;
    }
    assert(map.take(i as int) =~= map);
    keyconfig
}

/// The wrapping difference of two bytes; zero exactly when they are equal.
pub fn u8diff(elem: (&u8, &u8)) -> (d: u8)
    ensures
        d as int == (if *elem.0 >= *elem.1 {
            *elem.0 - *elem.1
        } else {
            256 + *elem.0 - *elem.1
        }),
        (d == 0) == (*elem.0 == *elem.1),
{
    let a = *elem.0;
    let b = *elem.1;
    if a >= b {
        a - b
    } else {
        255 - b + a + 1
    }
}

/// Whether a stored key sequence answers a read of `cnt` bytes into `buffer`: the
/// sequence has exactly `cnt` bytes, and they are the bytes that `buffer` holds in
/// those places.
pub open spec fn key_matches(keyseq: Seq<u8>, buffer: Seq<u8>, cnt: nat) -> bool {
    &&& keyseq.len() == cnt
    &&& forall|j: int| 0 <= j < cnt && j < buffer.len() ==> keyseq[j] == buffer[j]
}

/// The position of the first shortcut of `table` whose key sequence answers the
/// read; the length of `table` where none does.
pub open spec fn first_hit(table: Seq<ShortCutModel>, buffer: Seq<u8>, cnt: nat) -> int
    decreases table.len(),
{
    if table.len() == 0 {
        0
    } else if key_matches(table[0].keyseq, buffer, cnt) {
        0
    } else {
        1 + first_hit(table.drop_first(), buffer, cnt)
    }
}

/// The first hit is where a shortcut matches that no earlier one matches.
pub proof fn lemma_first_hit_at(table: Seq<ShortCutModel>, buffer: Seq<u8>, cnt: nat, i: int)
    requires
        0 <= i <= table.len(),
        i < table.len() ==> key_matches(table[i].keyseq, buffer, cnt),
        forall|j: int| 0 <= j < i ==> !key_matches(table[j].keyseq, buffer, cnt),
    ensures
        first_hit(table, buffer, cnt) == i,
    decreases table.len(),
{
    if i > 0 {
        let rest = table.drop_first();
        assert forall|j: int| 0 <= j < i - 1 implies !key_matches(rest[j].keyseq, buffer, cnt) by {
        }
        lemma_first_hit_at(rest, buffer, cnt, i - 1);
    }
}

/// The first hit lies within the table or at its end; where it lies within, that
/// shortcut matches; before it, none does.
pub proof fn lemma_first_hit(table: Seq<ShortCutModel>, buffer: Seq<u8>, cnt: nat)
    ensures
        0 <= first_hit(table, buffer, cnt) <= table.len(),
        first_hit(table, buffer, cnt) < table.len() ==> key_matches(
            table[first_hit(table, buffer, cnt)].keyseq,
            buffer,
            cnt,
        ),
        forall|j: int|
            0 <= j < first_hit(table, buffer, cnt) ==> !key_matches(table[j].keyseq, buffer, cnt),
    decreases table.len(),
{
    if table.len() > 0 && !key_matches(table[0].keyseq, buffer, cnt) {
        let rest = table.drop_first();
        lemma_first_hit(rest, buffer, cnt);
        assert forall|j: int| 0 <= j < first_hit(table, buffer, cnt) implies !key_matches(
            table[j].keyseq,
            buffer,
            cnt,
        ) by {
            if j > 0 {
                assert(table[j] == rest[j - 1]);
            }
        }
    }
}

/// Shortcut matching: a read of `cnt` bytes finds a shortcut exactly when some
/// shortcut's key sequence equals the first `cnt` bytes of the buffer, and the
/// shortcut found is the first such.
pub proof fn lemma_shortcut_found_iff(table: Seq<ShortCutModel>, buffer: Seq<u8>, cnt: nat)
    requires
        cnt <= buffer.len(),
    ensures
        first_hit(table, buffer, cnt) < table.len() <==> exists|i: int|
            0 <= i < table.len() && table[i].keyseq == buffer.take(cnt as int),
        first_hit(table, buffer, cnt) < table.len() ==> table[first_hit(
            table,
            buffer,
            cnt,
        )].keyseq == buffer.take(cnt as int),
        forall|j: int|
            0 <= j < first_hit(table, buffer, cnt) ==> table[j].keyseq != buffer.take(cnt as int),
{
    lemma_first_hit(table, buffer, cnt);
    let prefix = buffer.take(cnt as int);
    assert forall|j: int| 0 <= j < table.len() implies (key_matches(table[j].keyseq, buffer, cnt)
        <==> table[j].keyseq == prefix) by {
        if key_matches(table[j].keyseq, buffer, cnt) {
            assert(table[j].keyseq =~= prefix);
        }
    }
}

fn answers(keyseq: &Vec<u8>, buffer: &Vec<u8>, cnt: usize) -> (r: bool)
    ensures
        r == key_matches(keyseq@, buffer@, cnt as nat),
{
    if keyseq.len() != cnt {
        return false;
    }
    let mut j: usize = 0;
    while j < cnt && j < buffer.len()
        invariant
            keyseq.len() == cnt,
            forall|k: int| 0 <= k < j ==> keyseq@[k] == buffer@[k],
        decreases cnt - j,
    {
        if u8diff((&keyseq[j], &buffer[j])) != 0 {
            return false;
        }
        j += 1;
    }
    true
}

/// The configuration in use: the shortcut table and the data it was built from.
#[derive(Debug)]
pub struct FileConfig {
    pub shortcuts: KeyConfig,
    pub config: ConfigData,
}

/// What loading the document `t` gives when version `expected` is asked for.
pub open spec fn loaded(t: toml::Table, expected: i64) -> Result<ConfigModel, ConfigFault> {
    match version_fault(config_of(t).version, expected) {
        Some(fault) => Err(fault),
        None => Ok(config_of(t)),
    }
}

impl FileConfig {
    /// The shortcut table is the one that the key table and the key map define.
    pub open spec fn wf(&self) -> bool {
        shortcuts_view(self.shortcuts@) == keymap_of(self.config@.keynames, self.config@.keymap)
    }

    /// Builds the configuration from its data, whatever version they state.
    pub fn from_data(config: ConfigData) -> (fc: FileConfig)
        ensures
            fc.wf(),
            fc.config == config,
    {
        let shortcuts = create_keymap(&config);
        FileConfig { shortcuts, config }
    }

    /// Builds the configuration from a parsed document, which must state the version
    /// `config_version`.
    pub fn from_table(t: &toml::Table, config_version: i64) -> (r: Result<FileConfig, ConfigError>)
        requires
            is_parsed(*t),
        ensures
            match r {
                Ok(fc) => fc.wf() && loaded(*t, config_version) == Ok::<ConfigModel, ConfigFault>(
                    fc.config@,
                ),
                Err(e) => loaded(*t, config_version) == Err::<ConfigModel, ConfigFault>(e@),
            },
    {
        let config = ConfigData::from_table(t);
        match validate_version(&config, config_version) {
            Ok(_) => Ok(FileConfig::from_data(config)),
            Err(e) => Err(e),
        }
    }

    /// Loads the configuration from the text of a configuration file. The text must
    /// be a TOML document that states the version `config_version`.
    pub fn new(content: &str, config_version: i64) -> (r: Result<FileConfig, ConfigError>)
        ensures
            match r {
                Ok(fc) => {
                    &&& fc.wf()
                    &&& toml_parsed(content@) matches Some(t)
                    &&& loaded(t, config_version) == Ok::<ConfigModel, ConfigFault>(fc.config@)
                },
                Err(e) => match toml_parsed(content@) {
                    Some(t) => loaded(t, config_version) == Err::<ConfigModel, ConfigFault>(e@),
                    None => e@ is Syntax,
                },
            },
    {
        match parse_table(content) {
            Ok(t) => FileConfig::from_table(&t, config_version),
            Err(e) => Err(ConfigError::Syntax(error_text(&e))),
        }
    }

    /// Looks up the shortcut that a read of `cnt` bytes into `buffer` stands for.
    /// Only shortcuts of exactly `cnt` bytes are considered; the first hit wins.
    pub fn find_shortcut(&self, buffer: &Vec<u8>, cnt: usize) -> (hit: Option<&TermCommand>)
        ensures
            match hit {
                Some(cmd) => {
                    let i = first_hit(shortcuts_view(self.shortcuts@), buffer@, cnt as nat);
                    0 <= i < self.shortcuts@.len() && cmd@ == self.shortcuts@[i]@.command
                },
                None => first_hit(shortcuts_view(self.shortcuts@), buffer@, cnt as nat)
                    == self.shortcuts@.len(),
            },
    {
        let ghost table = shortcuts_view(self.shortcuts@);
        let mut i: usize = 0;
        while i < self.shortcuts.len()
            invariant
                i <= self.shortcuts.len(),
                table == shortcuts_view(self.shortcuts@),
                forall|j: int| 0 <= j < i ==> !key_matches(table[j].keyseq, buffer@, cnt as nat),
            decreases self.shortcuts.len() - i,
        {
            let elem = &self.shortcuts[i];
            if answers(&elem.keyseq, buffer, cnt) {
                proof {
                    lemma_first_hit_at(table, buffer@, cnt as nat, i as int);
                }
                return Some(&elem.command);
            }
            i += 1;
        }
        proof {
            lemma_first_hit_at(table, buffer@, cnt as nat, i as int);
        }
        None
    }

    /// The name of the first key whose shortcut stands for `cmd`.
    pub fn find_command(&self, cmd: TermCommand) -> (keyname: Option<String>)
        ensures
            match keyname {
                Some(name) => exists|i: int|
                    {
                        &&& 0 <= i < self.shortcuts@.len()
                        &&& #[trigger] self.shortcuts@[i]@.command == cmd@
                        &&& name@ == self.shortcuts@[i]@.keyname
                        &&& forall|j: int| 0 <= j < i ==> self.shortcuts@[j]@.command != cmd@
                    },
                None => forall|j: int|
                    0 <= j < self.shortcuts@.len() ==> self.shortcuts@[j]@.command != cmd@,
            },
    {
        let mut i: usize = 0;
        while i < self.shortcuts.len()
            invariant
                i <= self.shortcuts.len(),
                forall|j: int| 0 <= j < i ==> self.shortcuts@[j]@.command != cmd@,
            decreases self.shortcuts.len() - i,
        {
            let elem = &self.shortcuts[i];
            if elem.command.same(&cmd) {
                return Some(elem.keyname.clone());
            }
            i += 1;
        }
        None
    }

    /// The variables that the configuration adds to a script's environment.
    pub fn get_enviroment(&self) -> (vars: &Vec<EnvVar>)
        ensures
            vars == &self.config.environment,
    {
        &self.config.environment
    }

    /// The interpreter that runs scripts: the configured one, or `/usr/bin/python3`.
    pub fn get_python(&self) -> (pyexe: String)
        ensures
            pyexe@ == (match self.config@.python {
                Some(p) => p,
                None => "/usr/bin/python3"@,
            }),
    {
        match &self.config.python {
            Some(p) => p.clone(),
            None => String::from_str("/usr/bin/python3"),
        }
    }
}

/// True for the bytes that are letters or numbers when read as Latin-1 code points:
/// the alphabetic bytes, the ASCII digits, the superscripts `²`, `³`, `¹` and the
/// fractions `¼`, `½`, `¾`.
pub open spec fn is_alphanumeric(b: u8) -> bool {
    ||| is_alphabetic(b)
    ||| is_digit(b)
    ||| b == 0xb2
    ||| b == 0xb3
    ||| b == 0xb9
    ||| 0xbc <= b <= 0xbe
}

/// True for the ASCII punctuation characters.
pub open spec fn is_ascii_punctuation(b: u8) -> bool {
    ||| 0x21 <= b <= 0x2f
    ||| 0x3a <= b <= 0x40
    ||| 0x5b <= b <= 0x60
    ||| 0x7b <= b <= 0x7e
}

/// Whether a byte is shown as a character, between quotes, or as a number.
pub open spec fn is_shown_as_char(b: u8) -> bool {
    is_alphanumeric(b) || is_ascii_punctuation(b)
}

/// The lower-case hexadecimal digit for `d`, which is below 16.
pub open spec fn hex_digit(d: int) -> char {
    if d < 10 {
        (0x30 + d) as char
    } else {
        (0x61 + d - 10) as char
    }
}

/// A byte as a hexadecimal number: `0x`, then one or two digits.
pub open spec fn hex_text(b: u8) -> Seq<char> {
    if b < 16 {
        seq!['0', 'x', hex_digit(b as int)]
    } else {
        seq!['0', 'x', hex_digit(b as int / 16), hex_digit(b as int % 16)]
    }
}

/// How one byte of a key sequence is shown.
pub open spec fn key_text(b: u8) -> Seq<char> {
    if is_shown_as_char(b) {
        seq!['\'', b as char, '\'']
    } else {
        hex_text(b)
    }
}

/// The bytes of a key sequence as shown, separated by a comma and a space.
pub open spec fn keyseq_items(seq: Seq<u8>) -> Seq<char>
    decreases seq.len(),
{
    if seq.len() == 0 {
        Seq::empty()
    } else if seq.len() == 1 {
        key_text(seq[0])
    } else {
        keyseq_items(seq.drop_last()) + seq![',', ' '] + key_text(seq.last())
    }
}

/// A key sequence as shown: its bytes between square brackets.
pub open spec fn keyseq_text(seq: Seq<u8>) -> Seq<char> {
    seq!['['] + keyseq_items(seq) + seq![']']
}

fn hex_char(d: u8) -> (c: char)
    requires
        d < 16,
    ensures
        c == hex_digit(d as int),
{
    if d < 10 {
        (0x30 + d) as char
    } else {
        (0x61 + (d - 10)) as char
    }
}

fn shown_as_char(b: u8) -> (r: bool)
    ensures
        r == is_shown_as_char(b),
{
    byte_is_alphabetic(b) || byte_is_digit(b) || b == 0xb2 || b == 0xb3 || b == 0xb9 || (0xbc <= b
        && b <= 0xbe) || (0x21 <= b && b <= 0x2f) || (0x3a <= b && b <= 0x40) || (0x5b <= b && b
        <= 0x60) || (0x7b <= b && b <= 0x7e)
}

fn push_key_text(out: &mut String, b: u8)
    ensures
        final(out)@ == old(out)@ + key_text(b),
{
    if shown_as_char(b) {
        out.push('\'');
        out.push(b as char);
        out.push('\'');
    } else {
        out.push('0');
        out.push('x');
        if b >= 16 {
            out.push(hex_char(b / 16));
        }
        out.push(hex_char(b % 16));
    }
}

/// Writes a key sequence for a reader: each byte as a quoted character where it is a
/// letter, a number or punctuation, as a hexadecimal number otherwise.
pub fn dump_keyseq(seq: &[u8]) -> (text: String)
    ensures
        text@ == keyseq_text(seq@),
{
    let mut text = String::new();
    text.push('[');
    let mut idx: usize = 0;
    while idx < seq.len()
        invariant
            idx <= seq.len(),
            text@ == seq!['['] + keyseq_items(seq@.take(idx as int)),
        decreases seq.len() - idx,
    {
        let ghost before = seq@.take(idx as int);
        let ghost upto = seq@.take(idx + 1);
        proof {
            assert(upto.drop_last() =~= before);
        }
        if idx != 0 {
            text.push(',');
            text.push(' ');
        }
        push_key_text(&mut text, seq[idx]);
        proof {
            if idx != 0 {
                assert(text@ =~= seq!['['] + (keyseq_items(before) + seq![',', ' '] + key_text(
                    seq@[idx as int],
                )));
            }
        }
        idx += 1;
    }
    assert(seq@.take(idx as int) =~= seq@);
    text.push(']');
    text
}

/// How a command is shown in the help screen.
pub open spec fn command_text(c: CommandModel) -> Seq<char> {
    match c {
        CommandModel::Inject(bytes) => match text_of(bytes) {
            Some(t) => "Inject '"@ + t + "'"@,
            None => "Invalid string"@,
        },
        CommandModel::HelpMenu => "HelpMenu"@,
        CommandModel::Nop => "Nop"@,
        CommandModel::Quit => "Quit"@,
        CommandModel::StopScript => "StopScript"@,
        CommandModel::SerialBreak => "SerialBreak"@,
        CommandModel::FileInject(path) => "FileInject("@ + debug_repr(path) + ")"@,
        CommandModel::RunScript(line) => "RunScript("@ + debug_repr(line) + ")"@,
        CommandModel::SttySize => "SttySize"@,
        CommandModel::Environment => "Environment"@,
        CommandModel::Prompt(text) => "Prompt("@ + debug_repr(text) + ")"@,
    }
}

fn with_argument(name: &str, arg: &str) -> (text: String)
    ensures
        text@ == name@ + debug_repr(arg@) + ")"@,
{
    join3(name, debug_text(arg).as_str(), ")")
}

/// Writes the command of a shortcut for the help screen: injected bytes as text,
/// every other command by its name and argument.
pub fn to_command(shortcut: &ShortCut) -> (text: String)
    ensures
        text@ == command_text(shortcut@.command),
{
    match &shortcut.command {
        TermCommand::Inject(arg) => {
            match decode(arg) {
                Some(cmd) => {
                    let mut text = String::from_str("Inject '");
                    text.append(cmd.as_str());
                    text.append("'");
                    text
                },
                None => String::from_str("Invalid string"),
            }
        },
        TermCommand::HelpMenu => String::from_str("HelpMenu"),
        TermCommand::Nop => String::from_str("Nop"),
        TermCommand::Quit => String::from_str("Quit"),
        TermCommand::StopScript => String::from_str("StopScript"),
        TermCommand::SerialBreak => String::from_str("SerialBreak"),
        TermCommand::FileInject(path) => with_argument("FileInject(", path.as_str()),
        TermCommand::RunScript(line) => with_argument("RunScript(", line.as_str()),
        TermCommand::SttySize => String::from_str("SttySize"),
        TermCommand::Environment => String::from_str("Environment"),
        TermCommand::Prompt(text) => with_argument("Prompt(", text.as_str()),
    }
}

/// The line that the help screen shows for a shortcut.
pub open spec fn shortcut_line(s: ShortCutModel) -> Seq<char> {
    "  "@ + s.keyname + " => "@ + debug_repr(command_text(s.command))
}

impl FileConfig {
    /// The lines that the help screen shows, one for each shortcut, in table order.
    pub fn shortcut_lines(&self) -> (lines: Vec<String>)
        ensures
            lines@.len() == self.shortcuts@.len(),
            forall|i: int|
                0 <= i < lines@.len() ==> (#[trigger] lines@[i])@ == shortcut_line(
                    self.shortcuts@[i]@,
                ),
    {
        let mut lines: Vec<String> = Vec::new();
        let mut i: usize = 0;
        while i < self.shortcuts.len()
            invariant
                i <= self.shortcuts.len(),
                lines@.len() == i,
                forall|j: int|
                    0 <= j < i ==> (#[trigger] lines@[j])@ == shortcut_line(self.shortcuts@[j]@),
            decreases self.shortcuts.len() - i,
        {
            let elem = &self.shortcuts[i];
            let key = join3("  ", elem.keyname.as_str(), " => ");
            let shown = debug_text(to_command(elem).as_str());
            lines.push(join(key.as_str(), shown.as_str()));
            i += 1;
        }
        lines
    }
}

/// `arg` with every `~` replaced by `home`.
pub open spec fn with_home(arg: Seq<char>, home: Seq<char>) -> Seq<char>
    decreases arg.len(),
{
    if arg.len() == 0 {
        Seq::empty()
    } else if arg.last() == '~' {
        with_home(arg.drop_last(), home) + home
    } else {
        with_home(arg.drop_last(), home).push(arg.last())
    }
}

/// Replaces every `~` in `arg` by the home folder `home`.
pub fn subst_home(arg: &String, home: &str) -> (path: String)
    ensures
        path@ == with_home(arg@, home@),
{
    let v = chars_of(arg.as_str());
    let mut path = String::new();
    let mut i: usize = 0;
    while i < v.len()
        invariant
            i <= v.len(),
            path@ == with_home(v@.take(i as int), home@),
        decreases v.len() - i,
    {
        proof {
            let upto = v@.take(i + 1);
            assert(upto.drop_last() =~= v@.take(i as int));
        }
        if v[i] == '~' {
            path.append(home);
        } else {
            path.push(v[i]);
        }
        i += 1;
    }
    assert(v@.take(i as int) =~= v@);
    path
}

/// The entry of the default key table for the control key of the letter number
/// `i`, counted from zero: `Ctrl+a` sends byte 1, and so on to `Ctrl+z`, byte 26.
pub open spec fn control_key(i: int) -> (Seq<char>, Option<Seq<char>>) {
    ("Ctrl+"@.push((0x61 + i) as char), Some(seq![(i + 1) as char]))
}

/// The named keys of the default key table, after the control keys.
pub open spec fn default_named_keys() -> Entries {
    seq![
        ("Del"@, Some("\x7f"@)),
        ("F1"@, Some("\x1bOP"@)),
        ("F10"@, Some("\x1b[21~"@)),
        ("F11"@, Some("\x1b[23~"@)),
        ("F12"@, Some("\x1b[24~"@)),
        ("F2"@, Some("\x1bOQ"@)),
        ("F3"@, Some("\x1bOR"@)),
        ("F4"@, Some("\x1bOS"@)),
        ("F5"@, Some("\x1b[15~"@)),
        ("F6"@, Some("\x1b[17~"@)),
        ("F7"@, Some("\x1b[18~"@)),
        ("F8"@, Some("\x1b[19~"@)),
        ("F9"@, Some("\x1b[20~"@)),
        ("Pause"@, Some("\x1b[57362u"@)),
        ("Print"@, Some("\x1b[57361u"@)),
        ("Scroll"@, Some("\x1b[57359u"@)),
    ]
}

/// The default key table: the twenty-six control keys, then the named keys.
pub open spec fn default_keynames() -> Entries {
    Seq::new(26, |i: int| control_key(i)) + default_named_keys()
}

/// The default key map.
pub open spec fn default_keymap() -> Entries {
    seq![
        ("Ctrl+b"@, Some("break"@)),
        ("Ctrl+e"@, Some("environment"@)),
        ("Ctrl+f"@, Some("file test.sh"@)),
        ("Ctrl+o"@, Some("inject cat /proc/meminfo\n"@)),
        ("Ctrl+p"@, Some("run test.py --count 2 username password"@)),
        ("Ctrl+q"@, Some("quit"@)),
        ("Ctrl+r"@, Some("prompt ---------- New Session ----------"@)),
        ("Ctrl+t"@, Some("sttysize"@)),
        ("Ctrl+w"@, Some("help"@)),
        ("Ctrl+x"@, Some("stop"@)),
        ("Del"@, Some("inject \x08"@)),
        ("Pause"@, Some("break"@)),
        ("Print"@, Some("nop"@)),
        ("Scroll"@, Some("nop"@)),
    ]
}

/// The default configuration for version `version`.
pub open spec fn default_config(version: i64) -> ConfigModel {
    ConfigModel {
        version: Some(version),
        environment: seq![("TERM"@, "\"xterm\""@)],
        python: Some("python3"@),
        keynames: default_keynames(),
        keymap: default_keymap(),
    }
}

fn entry(key: &str, value: &str) -> (e: KeyValue)
    ensures
        e@ == (key@, Some(value@)),
{
    KeyValue { key: String::from_str(key), value: Some(String::from_str(value)) }
}

fn named_keys(keynames: &mut Vec<KeyValue>)
    ensures
        entries_view(final(keynames)@) == entries_view(old(keynames)@) + default_named_keys(),
{
    keynames.push(entry("Del", "\x7f"));
    keynames.push(entry("F1", "\x1bOP"));
    keynames.push(entry("F10", "\x1b[21~"));
    keynames.push(entry("F11", "\x1b[23~"));
    keynames.push(entry("F12", "\x1b[24~"));
    keynames.push(entry("F2", "\x1bOQ"));
    keynames.push(entry("F3", "\x1bOR"));
    keynames.push(entry("F4", "\x1bOS"));
    keynames.push(entry("F5", "\x1b[15~"));
    keynames.push(entry("F6", "\x1b[17~"));
    keynames.push(entry("F7", "\x1b[18~"));
    keynames.push(entry("F8", "\x1b[19~"));
    keynames.push(entry("F9", "\x1b[20~"));
    keynames.push(entry("Pause", "\x1b[57362u"));
    keynames.push(entry("Print", "\x1b[57361u"));
    keynames.push(entry("Scroll", "\x1b[57359u"));
}

fn control_keys() -> (keynames: Vec<KeyValue>)
    ensures
        entries_view(keynames@) == Seq::new(26, |i: int| control_key(i)),
{
    let mut keynames: Vec<KeyValue> = Vec::new();
    let mut i: u8 = 0;
    while i < 26
        invariant
            i <= 26,
            keynames@.len() == i,
            forall|j: int| 0 <= j < i ==> (#[trigger] keynames@[j])@ == control_key(j),
        decreases 26 - i,
    {
        let mut key = String::from_str("Ctrl+");
        key.push((0x61 + i) as char);
        let mut value = String::new();
        value.push((i + 1) as char);
        keynames.push(KeyValue { key, value: Some(value) });
        i += 1;
    }
    keynames
}

fn keymap_entries() -> (keymap: Vec<KeyValue>)
    ensures
        entries_view(keymap@) == default_keymap(),
{
    let mut keymap: Vec<KeyValue> = Vec::new();
    keymap.push(entry("Ctrl+b", "break"));
    keymap.push(entry("Ctrl+e", "environment"));
    keymap.push(entry("Ctrl+f", "file test.sh"));
    keymap.push(entry("Ctrl+o", "inject cat /proc/meminfo\n"));
    keymap.push(entry("Ctrl+p", "run test.py --count 2 username password"));
    keymap.push(entry("Ctrl+q", "quit"));
    keymap.push(entry("Ctrl+r", "prompt ---------- New Session ----------"));
    keymap.push(entry("Ctrl+t", "sttysize"));
    keymap.push(entry("Ctrl+w", "help"));
    keymap.push(entry("Ctrl+x", "stop"));
    keymap.push(entry("Del", "inject \x08"));
    keymap.push(entry("Pause", "break"));
    keymap.push(entry("Print", "nop"));
    keymap.push(entry("Scroll", "nop"));
    keymap
}

impl ConfigData {
    /// The configuration that a new configuration file is written with.
    pub fn with_defaults(config_version: i64) -> (data: ConfigData)
        ensures
            data@ == default_config(config_version),
    {
        let mut keynames = control_keys();
        named_keys(&mut keynames);
        let mut environment: Vec<EnvVar> = Vec::new();
        environment.push(
            EnvVar { name: String::from_str("TERM"), value: String::from_str("\"xterm\"") },
        );
        assert(variables_view(environment@) =~= seq![("TERM"@, "\"xterm\""@)]);
        ConfigData {
            version: Some(config_version),
            environment,
            python: Some(String::from_str("python3")),
            keynames,
            keymap: keymap_entries(),
        }
    }
}

impl FileConfig {
    /// The configuration in use when no configuration file exists yet.
    pub fn with_defaults(config_version: i64) -> (fc: FileConfig)
        ensures
            fc.wf(),
            fc.config@ == default_config(config_version),
    {
        FileConfig::from_data(ConfigData::with_defaults(config_version))
    }
}

} // verus!
