use colorize::mode::{Mode, Stream};

fn test_case_insensitive_mode_from_str<const N: usize>(input: [u8; N], mode: Mode) {
    for i in 0..1 << N {
        let mut input = input;
        for j in 0..input.len() {
            if i & (1 << j) != 0 {
                input[j] = input[j].to_ascii_uppercase();
            };
        }

        assert_eq!(Mode::from_ascii_bytes(&input), Ok(mode));
    }
}

fn test_case_insensitive_stream_from_str<const N: usize>(input: [u8; N], stream: Stream) {
    for i in 0..1 << N {
        let mut input = input;
        for j in 0..input.len() {
            if i & (1 << j) != 0 {
                input[j] = input[j].to_ascii_uppercase();
            };
        }

        assert_eq!(Stream::from_ascii_bytes(&input), Ok(stream));
    }
}

#[test]
fn mode_from_str_never() {
    test_case_insensitive_mode_from_str(*b"never", Mode::Never);
}

#[test]
fn mode_from_str_always() {
    test_case_insensitive_mode_from_str(*b"always", Mode::Always);
}

#[test]
fn mode_from_str_detect() {
    test_case_insensitive_mode_from_str(*b"detect", Mode::Detect);
}

#[test]
fn stream_from_str_never() {
    test_case_insensitive_stream_from_str(*b"never", Stream::NeverColor);
}

#[test]
fn stream_from_str_always() {
    test_case_insensitive_stream_from_str(*b"always", Stream::AlwaysColor);
}

#[test]
fn stream_from_str_stdout() {
    test_case_insensitive_stream_from_str(*b"stdout", Stream::Stdout);
}

#[test]
fn stream_from_str_stderr() {
    test_case_insensitive_stream_from_str(*b"stderr", Stream::Stderr);
}

#[test]
fn mode_and_stream_reject_other_words() {
    assert!(Mode::from_ascii_bytes(b"").is_err());
    assert!(Mode::from_ascii_bytes(b"nevers").is_err());
    assert!(Mode::from_ascii_bytes(b"stdout").is_err());
    assert!(Stream::from_ascii_bytes(b"detect").is_err());
    assert!(Stream::from_ascii_bytes(b"std0ut").is_err());
    assert_eq!("Always".parse::<Mode>(), Ok(Mode::Always));
    assert_eq!("STDERR".parse::<Stream>(), Ok(Stream::Stderr));
}
