use termswx::config::create_keymap;
use termswx::config::dump_keyseq;
use termswx::config::parse_command;
use termswx::config::subst_home;
use termswx::config::to_command;
use termswx::config::to_keyseq;
use termswx::config::u8diff;
use termswx::config::validate_version;
use termswx::config::ConfigData;
use termswx::config::ConfigError;
use termswx::config::FileConfig;
use termswx::config::ShortCut;
use termswx::config::TermCommand;

const SAMPLE: &str = r#"
[general]
version = 7

[environment]
TERM = "xterm"
COUNT = 3

[scripting]
python = "/opt/python/bin/python3"

[keynames]
"F1" = "\u001bOP"
"Ctrl+q" = "\u0011"
"Ctrl+i" = "\u0009"
"Odd" = 5

[keymap]
"F1" = "help"
"Ctrl+q" = "quit"
"Ctrl+i" = "inject ls -l\n"
"Odd" = "nop"
"Unnamed" = "nop"
"Ctrl+z" = 12
"#;

fn sample() -> FileConfig {
    FileConfig::new(SAMPLE, 7).expect("the sample is a configuration")
}

#[test]
fn command_words() {
    assert_eq!(parse_command("help"), Some(TermCommand::HelpMenu));
    assert_eq!(parse_command("nop"), Some(TermCommand::Nop));
    assert_eq!(parse_command("stop"), Some(TermCommand::StopScript));
    assert_eq!(parse_command("break"), Some(TermCommand::SerialBreak));
    assert_eq!(parse_command("sttysize"), Some(TermCommand::SttySize));
    assert_eq!(parse_command("environment"), Some(TermCommand::Environment));
    assert_eq!(parse_command("quit"), Some(TermCommand::Quit));
}

#[test]
fn command_words_with_argument() {
    assert_eq!(
        parse_command("prompt ---------- New Session ----------"),
        Some(TermCommand::Prompt("---------- New Session ----------".to_string()))
    );
    assert_eq!(
        parse_command("inject cat /proc/meminfo\n"),
        Some(TermCommand::Inject(b"cat /proc/meminfo\n".to_vec()))
    );
    assert_eq!(parse_command("inject \u{8}"), Some(TermCommand::Inject(vec![0x08])));
    assert_eq!(
        parse_command("inject gr\u{fc}n"),
        Some(TermCommand::Inject(vec![b'g', b'r', 0xc3, 0xbc, b'n']))
    );
    assert_eq!(
        parse_command("file test.sh"),
        Some(TermCommand::FileInject("test.sh".to_string()))
    );
    assert_eq!(
        parse_command("run test.py --count 2 username password"),
        Some(TermCommand::RunScript("test.py --count 2 username password".to_string()))
    );
    assert_eq!(parse_command("run "), Some(TermCommand::RunScript(String::new())));
    assert_eq!(parse_command("run  x"), Some(TermCommand::RunScript(" x".to_string())));
}

#[test]
fn command_strings_that_are_none() {
    assert_eq!(parse_command(""), None);
    assert_eq!(parse_command("help "), None);
    assert_eq!(parse_command("help me"), None);
    assert_eq!(parse_command("Help"), None);
    assert_eq!(parse_command("run"), None);
    assert_eq!(parse_command("inject"), None);
    assert_eq!(parse_command("launch rocket"), None);
    assert_eq!(parse_command(" quit"), None);
}

#[test]
fn commands_compare_by_content() {
    assert_eq!(TermCommand::Inject(vec![1, 2]), TermCommand::Inject(vec![1, 2]));
    assert_ne!(TermCommand::Inject(vec![1, 2]), TermCommand::Inject(vec![1]));
    assert_ne!(TermCommand::Inject(vec![1, 2]), TermCommand::Inject(vec![1, 3]));
    assert_ne!(TermCommand::FileInject("a".to_string()), TermCommand::RunScript("a".to_string()));
    assert_ne!(TermCommand::Prompt("a".to_string()), TermCommand::Prompt("b".to_string()));
    assert_eq!(TermCommand::Quit, TermCommand::Quit);
    assert_ne!(TermCommand::Quit, TermCommand::Nop);
    assert!(TermCommand::Prompt("x".to_string()).same(&TermCommand::Prompt("x".to_string())));
    assert_eq!(TermCommand::Inject(vec![7]).duplicate(), TermCommand::Inject(vec![7]));
}

#[test]
fn wrapping_difference() {
    assert_eq!(u8diff((&5, &3)), 2);
    assert_eq!(u8diff((&3, &5)), 254);
    assert_eq!(u8diff((&0, &255)), 1);
    assert_eq!(u8diff((&255, &0)), 255);
    assert_eq!(u8diff((&77, &77)), 0);
}

#[test]
fn document_is_read_in_key_order() {
    let fc = sample();
    assert_eq!(fc.config.version, Some(7));
    assert_eq!(fc.config.python, Some("/opt/python/bin/python3".to_string()));

    let env: Vec<(String, String)> =
        fc.get_enviroment().iter().map(|v| (v.name.clone(), v.value.clone())).collect();
    assert_eq!(
        env,
        vec![
            ("COUNT".to_string(), "3".to_string()),
            ("TERM".to_string(), "\"xterm\"".to_string())
        ]
    );

    let names: Vec<(String, Option<String>)> =
        fc.config.keynames.iter().map(|e| (e.key.clone(), e.value.clone())).collect();
    assert_eq!(
        names,
        vec![
            ("Ctrl+i".to_string(), Some("\t".to_string())),
            ("Ctrl+q".to_string(), Some("\u{11}".to_string())),
            ("F1".to_string(), Some("\u{1b}OP".to_string())),
            ("Odd".to_string(), None),
        ]
    );
    assert_eq!(fc.config.keymap.len(), 6);
    assert_eq!(fc.config.keymap[1].key, "Ctrl+q");
    assert_eq!(fc.config.keymap[1].value, Some("quit".to_string()));
    assert_eq!(fc.config.keymap[2].key, "Ctrl+z");
    assert_eq!(fc.config.keymap[2].value, None);
}

#[test]
fn shortcut_table_of_a_document() {
    let fc = sample();
    let table: Vec<(String, Vec<u8>, TermCommand)> = fc
        .shortcuts
        .iter()
        .map(|s| (s.keyname.clone(), s.keyseq.clone(), s.command.duplicate()))
        .collect();
    assert_eq!(
        table,
        vec![
            ("Ctrl+i".to_string(), vec![0x09], TermCommand::Inject(b"ls -l\n".to_vec())),
            ("Ctrl+q".to_string(), vec![0x11], TermCommand::Quit),
            ("F1".to_string(), vec![0x1b, b'O', b'P'], TermCommand::HelpMenu),
        ]
    );
}

#[test]
fn version_is_checked() {
    match FileConfig::new(SAMPLE, 8) {
        Err(ConfigError::IncorrectVersion(7)) => {}
        other => panic!("unexpected: {:?}", other),
    }
    match FileConfig::new("[keymap]\n", 7) {
        Err(ConfigError::MissingVersion) => {}
        other => panic!("unexpected: {:?}", other),
    }
    match FileConfig::new("[general]\nversion = \"7\"\n", 7) {
        Err(ConfigError::MissingVersion) => {}
        other => panic!("unexpected: {:?}", other),
    }
    match FileConfig::new("general = 7\n", 7) {
        Err(ConfigError::MissingVersion) => {}
        other => panic!("unexpected: {:?}", other),
    }
    let fc = FileConfig::new("[general]\nversion = 7\n", 7).expect("a bare document");
    assert!(fc.shortcuts.is_empty());
    assert!(fc.get_enviroment().is_empty());
    assert_eq!(fc.get_python(), "/usr/bin/python3");
}

#[test]
fn text_that_is_no_document_is_a_syntax_error() {
    match FileConfig::new("[general\nversion = 7\n", 7) {
        Err(ConfigError::Syntax(text)) => assert!(!text.is_empty()),
        other => panic!("unexpected: {:?}", other),
    }
}

#[test]
fn validate_version_on_data() {
    let mut data = ConfigData::with_defaults(7);
    assert!(validate_version(&data, 7).is_ok());
    assert!(matches!(validate_version(&data, 6), Err(ConfigError::IncorrectVersion(7))));
    data.version = None;
    assert!(matches!(validate_version(&data, 7), Err(ConfigError::MissingVersion)));
}

#[test]
fn from_table_reads_a_parsed_document() {
    let table: toml::Table = SAMPLE.parse().expect("the sample parses");
    let data = ConfigData::from_table(&table);
    assert_eq!(data.version, Some(7));
    assert_eq!(data.keynames.len(), 4);
    let fc = FileConfig::from_table(&table, 7).expect("version matches");
    assert_eq!(fc.shortcuts.len(), 3);
    assert!(matches!(FileConfig::from_table(&table, 1), Err(ConfigError::IncorrectVersion(7))));
}

#[test]
fn key_lookup() {
    let fc = sample();
    assert_eq!(to_keyseq(&fc.config, &"F1".to_string()), Some(&[0x1b, b'O', b'P'][..]));
    assert_eq!(to_keyseq(&fc.config, &"Ctrl+q".to_string()), Some(&[0x11u8][..]));
    assert_eq!(to_keyseq(&fc.config, &"Odd".to_string()), None);
    assert_eq!(to_keyseq(&fc.config, &"F2".to_string()), None);
    assert_eq!(create_keymap(&fc.config).len(), 3);
}

#[test]
fn shortcut_lookup() {
    let fc = sample();
    assert_eq!(fc.find_shortcut(&vec![0x11], 1), Some(&TermCommand::Quit));
    assert_eq!(fc.find_shortcut(&vec![0x11, 0x41], 1), Some(&TermCommand::Quit));
    assert_eq!(fc.find_shortcut(&vec![0x11, 0x41], 2), None);
    assert_eq!(fc.find_shortcut(&vec![0x1b, b'O', b'P'], 3), Some(&TermCommand::HelpMenu));
    assert_eq!(fc.find_shortcut(&vec![0x1b, b'O', b'P'], 2), None);
    assert_eq!(fc.find_shortcut(&vec![0x1b, b'O', b'Q'], 3), None);
    assert_eq!(fc.find_shortcut(&vec![0x41], 1), None);
    assert_eq!(fc.find_shortcut(&vec![0x41], 0), None);
    // A read that reports more than the buffer holds is compared as far as the buffer goes.
    assert_eq!(fc.find_shortcut(&vec![0x1b, b'O'], 3), Some(&TermCommand::HelpMenu));
}

#[test]
fn first_shortcut_wins() {
    let fc = FileConfig {
        shortcuts: vec![
            ShortCut { keyname: "a".to_string(), keyseq: vec![1], command: TermCommand::Nop },
            ShortCut { keyname: "b".to_string(), keyseq: vec![1], command: TermCommand::Quit },
            ShortCut { keyname: "c".to_string(), keyseq: vec![2], command: TermCommand::Quit },
        ],
        config: ConfigData::with_defaults(7),
    };
    assert_eq!(fc.find_shortcut(&vec![1], 1), Some(&TermCommand::Nop));
    assert_eq!(fc.find_command(TermCommand::Quit), Some("b".to_string()));
    assert_eq!(fc.find_command(TermCommand::HelpMenu), None);
}

#[test]
fn default_configuration_quits_on_ctrl_q() {
    let fc = FileConfig::with_defaults(7);
    assert_eq!(fc.find_shortcut(&vec![0x11], 1), Some(&TermCommand::Quit));
    assert_eq!(fc.find_command(TermCommand::HelpMenu), Some("Ctrl+w".to_string()));
    assert_eq!(fc.find_command(TermCommand::Quit), Some("Ctrl+q".to_string()));
    assert_eq!(fc.get_python(), "python3");
    assert_eq!(fc.config.version, Some(7));
    assert_eq!(fc.config.keynames.len(), 42);
    assert_eq!(fc.config.keymap.len(), 14);
    assert_eq!(fc.shortcuts.len(), 14);
    assert_eq!(fc.get_enviroment().len(), 1);
    assert_eq!(fc.get_enviroment()[0].name, "TERM");
    assert_eq!(fc.get_enviroment()[0].value, "\"xterm\"");
}

#[test]
fn default_configuration_shortcuts() {
    let fc = FileConfig::with_defaults(7);
    assert_eq!(fc.find_shortcut(&vec![0x18], 1), Some(&TermCommand::StopScript));
    assert_eq!(fc.find_shortcut(&vec![0x02], 1), Some(&TermCommand::SerialBreak));
    assert_eq!(fc.find_shortcut(&vec![0x7f], 1), Some(&TermCommand::Inject(vec![0x08])));
    assert_eq!(fc.find_shortcut(&vec![0x17], 1), Some(&TermCommand::HelpMenu));
    assert_eq!(fc.find_shortcut(&vec![0x14], 1), Some(&TermCommand::SttySize));
    assert_eq!(fc.find_shortcut(&vec![0x05], 1), Some(&TermCommand::Environment));
    assert_eq!(
        fc.find_shortcut(&vec![0x0f], 1),
        Some(&TermCommand::Inject(b"cat /proc/meminfo\n".to_vec()))
    );
    assert_eq!(
        fc.find_shortcut(&vec![0x10], 1),
        Some(&TermCommand::RunScript("test.py --count 2 username password".to_string()))
    );
    assert_eq!(
        fc.find_shortcut(&vec![0x06], 1),
        Some(&TermCommand::FileInject("test.sh".to_string()))
    );
    assert_eq!(
        fc.find_shortcut(&vec![0x12], 1),
        Some(&TermCommand::Prompt("---------- New Session ----------".to_string()))
    );
    assert_eq!(fc.find_shortcut(&b"\x1b[57361u".to_vec(), 8), Some(&TermCommand::Nop));
    assert_eq!(fc.find_shortcut(&b"\x1b[57359u".to_vec(), 8), Some(&TermCommand::Nop));
    assert_eq!(fc.find_shortcut(&b"\x1b[57362u".to_vec(), 8), Some(&TermCommand::SerialBreak));
    assert_eq!(fc.find_shortcut(&vec![0x01], 1), None);
}

#[test]
fn default_configuration_is_what_its_file_gives() {
    let defaults = ConfigData::with_defaults(7);
    let mut general = toml::Table::new();
    general.insert("version".to_string(), toml::Value::Integer(7));
    let mut environment = toml::Table::new();
    environment.insert("TERM".to_string(), toml::Value::String("xterm".to_string()));
    let mut scripting = toml::Table::new();
    scripting.insert("python".to_string(), toml::Value::String("python3".to_string()));
    let mut keynames = toml::Table::new();
    for e in defaults.keynames.iter() {
        keynames.insert(e.key.clone(), toml::Value::String(e.value.clone().unwrap()));
    }
    let mut keymap = toml::Table::new();
    for e in defaults.keymap.iter() {
        keymap.insert(e.key.clone(), toml::Value::String(e.value.clone().unwrap()));
    }
    let mut root = toml::Table::new();
    root.insert("general".to_string(), toml::Value::Table(general));
    root.insert("environment".to_string(), toml::Value::Table(environment));
    root.insert("scripting".to_string(), toml::Value::Table(scripting));
    root.insert("keynames".to_string(), toml::Value::Table(keynames));
    root.insert("keymap".to_string(), toml::Value::Table(keymap));
    let text = toml::to_string(&root).expect("the defaults can be written");

    let loaded = FileConfig::new(&text, 7).expect("the written defaults can be read");
    let fresh = FileConfig::with_defaults(7);
    assert_eq!(loaded.shortcuts.len(), fresh.shortcuts.len());
    for (a, b) in loaded.shortcuts.iter().zip(fresh.shortcuts.iter()) {
        assert_eq!(a.keyname, b.keyname);
        assert_eq!(a.keyseq, b.keyseq);
        assert_eq!(a.command, b.command);
    }
    assert_eq!(loaded.config.keynames.len(), fresh.config.keynames.len());
    for (a, b) in loaded.config.keynames.iter().zip(fresh.config.keynames.iter()) {
        assert_eq!(a.key, b.key);
        assert_eq!(a.value, b.value);
    }
    assert_eq!(loaded.config.python, fresh.config.python);
    assert_eq!(loaded.get_enviroment()[0].value, fresh.get_enviroment()[0].value);
}

#[test]
fn key_sequences_are_dumped() {
    assert_eq!(dump_keyseq(&[]), "[]");
    assert_eq!(dump_keyseq(&[0x1b, b'O', b'P']), "[0x1b, 'O', 'P']");
    assert_eq!(dump_keyseq(&[0x00]), "[0x0]");
    assert_eq!(dump_keyseq(&[0x0a, 0x10, 0x7f, 0xff]), "[0xa, 0x10, 0x7f, '\u{ff}']");
    assert_eq!(dump_keyseq(&[b' ', b'~', b'7', b'[']), "[0x20, '~', '7', '[']");
    assert_eq!(dump_keyseq(&[0xe9, 0xd7, 0xb2, 0x80]), "['\u{e9}', 0xd7, '\u{b2}', 0x80]");
}

#[test]
fn key_dump_agrees_with_the_character_classes() {
    for b in 0u8..=255 {
        let ch = b as char;
        let expected = if ch.is_alphanumeric() || ch.is_ascii_punctuation() {
            format!("['{}']", ch)
        } else {
            format!("[{:#02x}]", b)
        };
        assert_eq!(dump_keyseq(&[b]), expected);
    }
}

#[test]
fn commands_are_shown() {
    let show = |command: TermCommand| {
        to_command(&ShortCut { keyname: "k".to_string(), keyseq: vec![1], command })
    };
    assert_eq!(show(TermCommand::Inject(b"cat /proc/meminfo\n".to_vec())), "Inject 'cat /proc/meminfo\n'");
    assert_eq!(show(TermCommand::Inject(vec![0xff, 0xfe])), "Invalid string");
    assert_eq!(show(TermCommand::Inject(vec![])), "Inject ''");
    assert_eq!(show(TermCommand::HelpMenu), "HelpMenu");
    assert_eq!(show(TermCommand::Nop), "Nop");
    assert_eq!(show(TermCommand::Quit), "Quit");
    assert_eq!(show(TermCommand::StopScript), "StopScript");
    assert_eq!(show(TermCommand::SerialBreak), "SerialBreak");
    assert_eq!(show(TermCommand::SttySize), "SttySize");
    assert_eq!(show(TermCommand::Environment), "Environment");
    assert_eq!(show(TermCommand::FileInject("test.sh".to_string())), "FileInject(\"test.sh\")");
    assert_eq!(show(TermCommand::RunScript("a \"b\"".to_string())), "RunScript(\"a \\\"b\\\"\")");
    assert_eq!(show(TermCommand::Prompt("--\n".to_string())), "Prompt(\"--\\n\")");
}

#[test]
fn commands_are_shown_as_their_debug_form() {
    for command in [
        TermCommand::HelpMenu,
        TermCommand::FileInject("~/x y.sh".to_string()),
        TermCommand::RunScript("t\u{e9}st\t1".to_string()),
        TermCommand::Prompt("'\\".to_string()),
    ] {
        let expected = format!("{:?}", command);
        let shown = to_command(&ShortCut { keyname: String::new(), keyseq: vec![], command });
        assert_eq!(shown, expected);
    }
}

#[test]
fn help_lines() {
    let fc = sample();
    assert_eq!(
        fc.shortcut_lines(),
        vec![
            "  Ctrl+i => \"Inject 'ls -l\\n'\"".to_string(),
            "  Ctrl+q => \"Quit\"".to_string(),
            "  F1 => \"HelpMenu\"".to_string(),
        ]
    );
}

#[test]
fn home_is_substituted() {
    assert_eq!(subst_home(&"~/bin/test.py -x".to_string(), "/home/op"), "/home/op/bin/test.py -x");
    assert_eq!(subst_home(&"a~b~".to_string(), "H"), "aHbH");
    assert_eq!(subst_home(&"plain".to_string(), "/home/op"), "plain");
    assert_eq!(subst_home(&"".to_string(), "/home/op"), "");
    assert_eq!(subst_home(&"~".to_string(), ""), "");
}

#[test]
fn refusals_are_explained() {
    let path = "/home/op/.config/termswx/config.toml";
    assert_eq!(
        ConfigError::IncorrectVersion(6).message(7, path),
        "Incorrect configuration file version: 6, expected: 7 in \"/home/op/.config/termswx/config.toml\""
    );
    assert_eq!(
        ConfigError::MissingVersion.message(7, path),
        "Missing configuration file version: 7 in \"/home/op/.config/termswx/config.toml\""
    );
    assert_eq!(
        ConfigError::Syntax("expected `]`".to_string()).message(7, path),
        "Error in the configuration file: expected `]`"
    );
    assert_eq!(
        ConfigError::IncorrectVersion(-3).message(7, "c"),
        format!("Incorrect configuration file version: {}, expected: {} in {:?}", -3, 7, "c")
    );
}
