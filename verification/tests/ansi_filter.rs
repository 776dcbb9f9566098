use termswx::ansi_filter::AnsiFilter;

fn check(testdata: Vec<u8>, expdata: Vec<Option<u8>>) {
    let mut filter = AnsiFilter::new();
    for (pos, val) in testdata.iter().enumerate() {
        filter.input(*val);
        assert_eq!(filter.next(), expdata[pos], "Input: {:#02x}", val);
    }
}

#[test]
fn pure_ascii() {
    let mut filter = AnsiFilter::new();
    let mut testdata: Vec<u8> = vec![0x41, 0x42, 0x43, 0x51, 0x52, 0x53];
    let expdata: Vec<Option<u8>> =
        vec![Some(0x41), Some(0x42), Some(0x43), Some(0x51), Some(0x52), Some(0x53)];

    for (pos, val) in testdata.iter_mut().enumerate() {
        filter.input(*val);
        assert_eq!(filter.next(), expdata[pos], "Input: {:#02x}", val);
    }
}

#[test]
fn set_color_green() {
    let mut filter = AnsiFilter::new();
    let mut testdata: Vec<u8> =
        vec![0x41, 0x42, 0x43, 0x1b, 0x5b, 0x30, 0x3b, 0x33, 0x32, 0x6d, 0x51, 0x52, 0x53];
    let expdata: Vec<Option<u8>> = vec![
        Some(0x41),
        Some(0x42),
        Some(0x43),
        None,
        None,
        None,
        None,
        None,
        None,
        None,
        Some(0x51),
        Some(0x52),
        Some(0x53),
    ];

    for (pos, val) in testdata.iter_mut().enumerate() {
        filter.input(*val);
        assert_eq!(filter.next(), expdata[pos], "Input: {:#02x}", val);
    }
}

#[test]
fn reset() {
    let mut filter = AnsiFilter::new();
    let mut testdata: Vec<u8> = vec![0x41, 0x42, 0x43, 0x1b, 0x5b, 0x30, 0x6d, 0x51, 0x52, 0x53];
    let expdata: Vec<Option<u8>> = vec![
        Some(0x41),
        Some(0x42),
        Some(0x43),
        None,
        None,
        None,
        None,
        Some(0x51),
        Some(0x52),
        Some(0x53),
    ];

    for (pos, val) in testdata.iter_mut().enumerate() {
        filter.input(*val);
        assert_eq!(filter.next(), expdata[pos], "Input: {:#02x}", val);
    }
}

#[test]
fn single_escape() {
    let mut filter = AnsiFilter::new();
    let mut testdata: Vec<u8> = vec![0x41, 0x42, 0x43, 0x1b, 0x51, 0x52, 0x53, 0x00];
    let expdata: Vec<Option<u8>> = vec![
        Some(0x41),
        Some(0x42),
        Some(0x43),
        None,
        Some(0x1b),
        Some(0x51),
        Some(0x52),
        Some(0x53),
    ];

    for (pos, val) in testdata.iter_mut().enumerate() {
        filter.input(*val);
        assert_eq!(filter.next(), expdata[pos], "Input: {:#02x}", val);
    }
}

#[test]
fn not_ansi_seq() {
    let mut filter = AnsiFilter::new();
    let mut testdata: Vec<u8> =
        vec![0x41, 0x42, 0x43, 0x1b, 0x45, 0x30, 0x3b, 0x33, 0x32, 0x6d, 0x51, 0x52, 0x53];
    let expdata: Vec<Option<u8>> = vec![
        Some(0x41),
        Some(0x42),
        Some(0x43),
        None,
        Some(0x1b),
        Some(0x45),
        Some(0x30),
        Some(0x3b),
        Some(0x33),
        Some(0x32),
        Some(0x6d),
        Some(0x51),
        Some(0x52),
        Some(0x53),
    ];

    for (pos, val) in testdata.iter_mut().enumerate() {
        filter.input(*val);
        assert_eq!(filter.next(), expdata[pos], "Input: {:#02x}", val);
    }
}

#[test]
fn paste_sequence_is_dropped() {
    // ESC [ ? then a non-digit ends the sequence.
    check(
        vec![0x41, 0x1b, 0x5b, 0x3f, 0x68, 0x42],
        vec![Some(0x41), None, None, None, None, Some(0x42)],
    );
}

fn run(input: &[u8]) -> Vec<u8> {
    let mut filter = AnsiFilter::new();
    let mut out = Vec::new();
    for val in input {
        filter.input(*val);
        while let Some(b) = filter.next() {
            out.push(b);
        }
    }
    out
}

#[test]
fn bytes_without_escape_are_preserved() {
    let input: Vec<u8> = (0u8..=255).filter(|b| *b != 0x1b).collect();
    assert_eq!(run(&input), input);
}

#[test]
fn well_formed_sequences_are_elided() {
    assert_eq!(run(b"\x1b[m"), Vec::<u8>::new());
    assert_eq!(run(b"\x1b[0m"), Vec::<u8>::new());
    assert_eq!(run(b"\x1b[0;32m"), Vec::<u8>::new());
    assert_eq!(run(b"\x1b[12;40H"), Vec::<u8>::new());
    assert_eq!(run(b"\x1b[1;;2J"), Vec::<u8>::new());
}

#[test]
fn sequence_that_opens_with_a_separator_ends_at_once() {
    // `;` right after `ESC [` is neither a digit nor `?`: the sequence is over.
    assert_eq!(run(b"\x1b[;5H"), b"5H".to_vec());
}

#[test]
fn lone_escape_passes_with_the_next_byte() {
    for x in 0u8..=255 {
        if x != b'[' {
            assert_eq!(run(&[0x1b, x]), vec![0x1b, x]);
        }
    }
}

#[test]
fn released_bytes_survive_a_later_sequence() {
    let mut filter = AnsiFilter::new();
    for val in b"AB\x1b[0m" {
        filter.input(*val);
    }
    assert_eq!(filter.next(), Some(b'A'));
    assert_eq!(filter.next(), Some(b'B'));
    assert_eq!(filter.next(), None);
}

#[test]
fn nothing_is_handed_out_inside_a_sequence() {
    let mut filter = AnsiFilter::new();
    filter.input(b'A');
    filter.input(0x1b);
    assert_eq!(filter.next(), None);
    filter.input(b'x');
    assert_eq!(filter.next(), Some(b'A'));
    assert_eq!(filter.next(), Some(0x1b));
    assert_eq!(filter.next(), Some(b'x'));
    assert_eq!(filter.next(), None);
}

#[test]
fn paste_digits_continue_as_screen_sequence() {
    // ESC [ ? 2 0 0 4 h: the digits move the machine to the screen state.
    assert_eq!(run(b"a\x1b[?2004hb"), b"ab".to_vec());
    // ESC [ ? ~: the first non-digit ends a paste sequence.
    assert_eq!(run(b"a\x1b[?~b"), b"ab".to_vec());
}

#[test]
fn alphabetic_bytes_are_those_of_latin_1() {
    for b in 0u8..=255 {
        assert_eq!(
            termswx::ansi_filter::byte_is_alphabetic(b),
            (b as char).is_alphabetic(),
            "byte {:#04x}",
            b
        );
        assert_eq!(termswx::ansi_filter::byte_is_digit(b), (b as char).is_digit(10));
    }
}
