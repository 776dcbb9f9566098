use termswx::config::EnvVar;
use termswx::config::FileConfig;
use termswx::console_service::banner_parts;
use termswx::console_service::banner_text;
use termswx::console_service::build_script_envir;
use termswx::console_service::busy_text;
use termswx::console_service::console_output;
use termswx::console_service::console_step;
use termswx::console_service::environment_command;
use termswx::console_service::help_step;
use termswx::console_service::inject_pause_ms;
use termswx::console_service::silent_quit;
use termswx::console_service::stty_command;
use termswx::console_service::BannerPart;
use termswx::console_service::ConsoleOut;
use termswx::console_service::ConsoleStep;
use termswx::console_service::HelpStep;
use termswx::term_switch::MsgType;

fn defaults() -> FileConfig {
    FileConfig::with_defaults(7)
}

fn buffer(bytes: &[u8]) -> Vec<u8> {
    let mut buffer = vec![0u8; 80];
    buffer[..bytes.len()].copy_from_slice(bytes);
    buffer
}

#[test]
fn ctrl_q_quits() {
    let fc = defaults();
    assert!(matches!(console_step(&fc, &buffer(&[0x11]), 1, false, 0), ConsoleStep::Quit));
    assert!(matches!(console_step(&fc, &buffer(&[0x11]), 1, true, 55), ConsoleStep::Quit));
}

#[test]
fn shortcuts_are_dispatched() {
    let fc = defaults();
    assert!(matches!(console_step(&fc, &buffer(&[0x17]), 1, false, 0), ConsoleStep::Help));
    assert!(matches!(console_step(&fc, &buffer(b"\x1b[57361u"), 8, false, 0), ConsoleStep::Nothing));
    assert!(matches!(console_step(&fc, &buffer(&[0x02]), 1, false, 0), ConsoleStep::Break));
    assert!(matches!(console_step(&fc, &buffer(&[0x14]), 1, false, 0), ConsoleStep::SttySize));
    assert!(matches!(
        console_step(&fc, &buffer(&[0x7f]), 1, false, 0),
        ConsoleStep::Type(bytes) if bytes == vec![0x08]
    ));
    assert!(matches!(
        console_step(&fc, &buffer(&[0x0f]), 1, false, 0),
        ConsoleStep::Type(bytes) if bytes == b"cat /proc/meminfo\n".to_vec()
    ));
    assert!(matches!(
        console_step(&fc, &buffer(&[0x12]), 1, false, 0),
        ConsoleStep::Banner(text) if text == "---------- New Session ----------"
    ));
    assert!(matches!(
        console_step(&fc, &buffer(&[0x05]), 1, false, 0),
        ConsoleStep::Type(bytes) if bytes == b"export TERM=\"xterm\"\r".to_vec()
    ));
}

#[test]
fn script_shortcuts_mind_a_running_script() {
    let fc = defaults();
    assert!(matches!(console_step(&fc, &buffer(&[0x18]), 1, false, 0), ConsoleStep::Nothing));
    assert!(matches!(console_step(&fc, &buffer(&[0x18]), 1, false, 77), ConsoleStep::Signal(77)));
    assert!(matches!(
        console_step(&fc, &buffer(&[0x06]), 1, false, 0),
        ConsoleStep::InjectFile(path) if path == "test.sh"
    ));
    assert!(matches!(console_step(&fc, &buffer(&[0x06]), 1, false, 77), ConsoleStep::Busy(77)));
    assert!(matches!(
        console_step(&fc, &buffer(&[0x10]), 1, false, 0),
        ConsoleStep::RunScript(line) if line == "test.py --count 2 username password"
    ));
    assert!(matches!(console_step(&fc, &buffer(&[0x10]), 1, false, 77), ConsoleStep::Busy(77)));
}

#[test]
fn other_input_goes_to_the_backend() {
    let fc = defaults();
    assert!(matches!(
        console_step(&fc, &buffer(b"ls\r"), 3, false, 0),
        ConsoleStep::Type(bytes) if bytes == b"ls\r".to_vec()
    ));
    assert!(matches!(
        console_step(&fc, &buffer(&[0x01]), 1, false, 0),
        ConsoleStep::Type(bytes) if bytes == vec![0x01]
    ));
    assert!(matches!(
        console_step(&fc, &buffer(b""), 0, false, 0),
        ConsoleStep::Type(bytes) if bytes.is_empty()
    ));
}

#[test]
fn input_during_a_prompt_answers_the_script() {
    let fc = defaults();
    assert!(matches!(
        console_step(&fc, &buffer(b"ad"), 2, true, 9),
        ConsoleStep::Answer(bytes, true) if bytes == b"ad".to_vec()
    ));
    assert!(matches!(
        console_step(&fc, &buffer(b"min\rxy"), 4, true, 9),
        ConsoleStep::Answer(bytes, false) if bytes == b"min\r".to_vec()
    ));
    assert!(matches!(
        console_step(&fc, &buffer(b"a\rb"), 3, true, 9),
        ConsoleStep::Answer(bytes, false) if bytes == b"a\rb".to_vec()
    ));
}

#[test]
fn silent_server_only_quits() {
    let fc = defaults();
    assert!(silent_quit(&fc, &buffer(&[0x11]), 1));
    assert!(!silent_quit(&fc, &buffer(&[0x17]), 1));
    assert!(!silent_quit(&fc, &buffer(&[0x41]), 1));
    assert!(!silent_quit(&fc, &buffer(&[0x11, 0x11]), 2));
}

#[test]
fn help_screen_input() {
    let fc = defaults();
    assert!(matches!(help_step(&fc, &buffer(&[0x17]), 1), HelpStep::Close));
    assert!(matches!(help_step(&fc, &buffer(&[0x1b]), 1), HelpStep::Close));
    assert!(matches!(help_step(&fc, &buffer(&[0x11]), 1), HelpStep::Stay));
    assert!(matches!(
        help_step(&fc, &buffer(&[0x1b, b'O', b'P']), 3),
        HelpStep::Show(line) if line == "\rKeyseq: [0x1b, 'O', 'P']"
    ));
    assert!(matches!(
        help_step(&fc, &buffer(&[0x1b, 0x1b]), 2),
        HelpStep::Show(line) if line == "\rKeyseq: [0x1b, 0x1b]"
    ));
    assert!(matches!(
        help_step(&fc, &buffer(&[]), 0),
        HelpStep::Show(line) if line == "\rKeyseq: []"
    ));
}

#[test]
fn screen_output() {
    assert_eq!(console_output(&MsgType::Console(0x41), false), ConsoleOut::Write(0x41));
    assert_eq!(console_output(&MsgType::Console(0x80), false), ConsoleOut::Write(0x80));
    assert_eq!(console_output(&MsgType::Console(0x7f), true), ConsoleOut::Write(0x7f));
    assert_eq!(console_output(&MsgType::Console(0x80), true), ConsoleOut::Skip);
    assert_eq!(console_output(&MsgType::Console(0xff), true), ConsoleOut::Skip);
    assert_eq!(console_output(&MsgType::Exit, false), ConsoleOut::Exit);
    assert_eq!(console_output(&MsgType::Serial(0x41), false), ConsoleOut::Skip);
    assert_eq!(console_output(&MsgType::ScriptDone, true), ConsoleOut::Skip);
}

#[test]
fn terminal_size_command() {
    assert_eq!(stty_command(80, 24), b"stty cols 79 rows 23\r".to_vec());
    assert_eq!(stty_command(1, 1), b"stty cols 0 rows 0\r".to_vec());
    assert_eq!(stty_command(65535, 100), b"stty cols 65534 rows 99\r".to_vec());
}

#[test]
fn environment_export_commands() {
    let vars = vec![
        EnvVar { name: "COUNT".to_string(), value: "3".to_string() },
        EnvVar { name: "TERM".to_string(), value: "\"xterm\"".to_string() },
    ];
    assert_eq!(environment_command(&vars), b"export COUNT=3\rexport TERM=\"xterm\"\r".to_vec());
    assert_eq!(environment_command(&Vec::new()), Vec::<u8>::new());
}

#[test]
fn injected_files_pause_after_a_line() {
    assert_eq!(inject_pause_ms(0x0a), 250);
    assert_eq!(inject_pause_ms(0x0d), 0);
    assert_eq!(inject_pause_ms(0x41), 0);
}

#[test]
fn busy_refusal() {
    assert_eq!(busy_text(4711), "Error: Script with PID 4711 already running");
}

#[test]
fn banner_for_each_mode() {
    let welcome = BannerPart::Welcome;
    let arrow = BannerPart::Arrow;
    let hint = BannerPart::HelpHint;
    let port = BannerPart::Listening(5000);
    let host = BannerPart::Connected;
    assert_eq!(banner_parts(0, false, false), vec![welcome, arrow, hint]);
    assert_eq!(banner_parts(5000, false, false), vec![welcome, arrow, port, arrow, hint]);
    assert_eq!(banner_parts(0, true, false), vec![welcome, arrow, host, arrow, hint]);
    assert_eq!(banner_parts(5000, true, false), vec![welcome, arrow, port, arrow, host, arrow, hint]);
}

#[test]
fn banner_texts() {
    assert_eq!(banner_text(BannerPart::Welcome, "d", "k"), "=== Welcome to TermSWX");
    assert_eq!(banner_text(BannerPart::Arrow, "d", "k"), " => ");
    assert_eq!(banner_text(BannerPart::Listening(5000), "d", "k"), "Listening on port 5000");
    assert_eq!(banner_text(BannerPart::Connected, "host:5000", "k"), "Connected to \"host:5000\"");
    assert_eq!(banner_text(BannerPart::HelpHint, "d", "Ctrl+w"), "Use Ctrl+w to get help ===\r");
}

#[test]
fn script_environment() {
    let vars = vec![
        EnvVar { name: "TERM".to_string(), value: "\"xterm\"".to_string() },
        EnvVar { name: "TERMSWX_DEV".to_string(), value: "\"mine\"".to_string() },
    ];
    let envir: Vec<(String, String)> = build_script_envir((80, 24), "/dev/ttyUSB0", 115200, &vars)
        .into_iter()
        .map(|v| (v.name, v.value))
        .collect();
    assert_eq!(
        envir,
        vec![
            ("TERMSWX_SIZE".to_string(), "(80, 24)".to_string()),
            ("TERMSWX_DEV".to_string(), "/dev/ttyUSB0".to_string()),
            ("TERMSWX_BAUDRATE".to_string(), "115200".to_string()),
            ("TERM".to_string(), "\"xterm\"".to_string()),
            ("TERMSWX_DEV".to_string(), "\"mine\"".to_string()),
        ]
    );
    assert_eq!(format!("{:?}", (80u16, 24u16)), envir[0].1);
}

#[test]
fn silent_server_shows_no_banner() {
    assert!(banner_parts(5000, false, true).is_empty());
    assert!(banner_parts(0, true, true).is_empty());
}
