//! The command line: modes, durations and where the socket is.

use mii_sound::cli::{
    mode, serve_failed, Cli, Command, Mode, ServeArgs, TtsArgs, TtsWorkerArgs, DEFAULT_HOLDS,
    DEFAULT_PARALLEL,
};
use mii_sound::client::tts::Flags;
use mii_sound::duration::{modest, parse_duration, parse_modest_duration};
use mii_sound::text::{decimal_text, label_number, starts_with};
use mii_sound::transport::{
    default_socket_path, invalid_socket_name, invalid_socket_path, resolve_name, token_from_env,
    SocketName, SocketPath,
};
use std::path::PathBuf;

fn serve(quiet: bool) -> Command {
    Command::Serve(ServeArgs {
        tts_dir: Some(PathBuf::from("/m")),
        cpu: false,
        holds: DEFAULT_HOLDS,
        network: None,
        relay: None,
        parallel: DEFAULT_PARALLEL,
        batch_window: 300_000_000,
        quiet,
    })
}

fn tts() -> TtsArgs {
    TtsArgs {
        out: None,
        json: None,
        voice_clone: true,
        cfg_bits: 3,
        steps: 4,
        stream: true,
    }
}

fn level(command: Option<Command>) -> &'static str {
    Cli { url: None, socket: None, status: false, command }.default_level()
}

#[test]
fn a_server_is_chatty_unless_told_otherwise() {
    assert_eq!(level(Some(serve(false))), "info");
    assert_eq!(level(Some(serve(true))), "warn");
    assert_eq!(level(Some(Command::Tts(tts()))), "warn");
    assert_eq!(level(None), "warn");
}

#[test]
fn a_status_check_goes_first() {
    assert!(matches!(mode(true, Some(serve(false))), Mode::Status));
    assert!(matches!(mode(true, None), Mode::Status));
    assert!(matches!(mode(false, Some(serve(true))), Mode::Serve(a) if a.quiet));
    assert!(matches!(mode(false, Some(Command::Tts(tts()))), Mode::Tts(a) if a.steps == 4));
    let worker = TtsWorkerArgs { tts_dir: PathBuf::from("/m"), cpu: true };
    assert!(matches!(mode(false, Some(Command::TtsWorker(worker))), Mode::Worker(a) if a.cpu));
    match mode(false, None) {
        Mode::Fail(f) => assert_eq!(
            (f.line.as_str(), f.code),
            ("mii-sound: no subcommand given (use `tts` or `serve`, or pass --status)", 4)
        ),
        other => panic!("{other:?}"),
    }
    let f = serve_failed("port in use");
    assert_eq!((f.line.as_str(), f.code), ("mii-sound serve: port in use", 5));
}

#[test]
fn flags_are_taken_over() {
    assert_eq!(
        tts().flags(),
        Flags { voice_clone: true, cfg_bits: 3, steps: 4, stream: true }
    );
}

#[test]
fn durations_are_read() {
    assert_eq!(parse_duration("10m"), Ok(600_000_000_000));
    assert_eq!(DEFAULT_HOLDS, 600_000_000_000);
    assert_eq!(parse_duration("30s"), Ok(30_000_000_000));
    assert_eq!(parse_duration("1h"), Ok(3_600_000_000_000));
    assert_eq!(parse_duration("3d"), Ok(259_200_000_000_000));
    assert_eq!(parse_duration("300ms"), Ok(300_000_000));
    assert_eq!(parse_duration("1h 30m"), Ok(5_400_000_000_000));
    assert_eq!(parse_duration("0"), Ok(0));
    let reason = humantime::parse_duration("soon").unwrap_err();
    assert_eq!(parse_duration("soon"), Err(format!("invalid duration `soon`: {reason}")));
    assert_eq!(parse_modest_duration("10m"), Some(Ok(600_000_000_000)));
    assert_eq!(
        parse_modest_duration(""),
        Some(Err("invalid duration ``: value was empty".to_string()))
    );
    assert_eq!(parse_modest_duration("18446744073709551615s 999ms 1ms"), None);
}

#[test]
fn a_duration_is_modest_unless_its_parts_fill_one_second_too_many() {
    assert!(modest(""));
    assert!(modest("1h 2m 3s"));
    assert!(modest("18446744073709551615s"));
    assert!(modest("18446744073709551615s 999999999ns"));
    assert!(!modest("18446744073709551615s 1000ms"));
    assert!(!modest("18446744073709551615s 999ms 1ms"));
    assert!(!modest("18446744073709551615s 999millis 1000usec"));
    assert!(!modest("18446744073709551615s 999999us 1\u{b5}s"));
    assert!(!modest("18446744073709551615.999s 1ms"));
    assert!(modest("18446744073709551614s 999ms 1001ms"));
    assert!(!modest("307445734561825860m 15s 1000ms trailing"));
    assert!(modest("18446744073709551615s 1s"));
    assert!(modest("18446744073709551615s 2000ms"));
    assert!(modest("18446744073709551615s 600ms 600ms"));
    assert!(modest("18446744073709551616s 1000ms"));
    assert!(modest("18446744073709551615x 1000ms"));
    assert!(modest("99999999999999999999s 99999999999999999999s"));
}

#[test]
fn modest_durations_are_read_as_they_are() {
    let texts = [
        "1000000s 1000000ms",
        "18446744073709551615ns 1ns",
        "18446744073709551615ns 18446744073709551615ns",
        "18446744073709551615us 1ns",
        "18446744073709551614s 1ns",
        "18446744073709551614s 1000ms",
        "18446744073709551615s 999999999ns",
        "18446744073709551615s 1s",
        "18446744073709551615s 2000ms",
        "18446744073709551616s 1000ms",
        "18446744073709551614s 999ms 1001ms",
        "584542046090y 1ms",
        "584542046091y 1ms",
        "7000000000000months 1s",
        "7100000000000M 1s",
        "300000000000000000min 1msec",
        "307445734561825860minutes 15secs 1s",
        "1.5h 2.25min 0.001s",
        "0.01666666667m 1s",
        "1.5ns",
        "1.s",
        "1..5s",
        "h5m",
        "5 s",
        "5s6m7h",
        "1 0 m",
        "99999999999999999999d",
        "1.00000000000000000001s",
        "3x",
        "3 millis 4 nanos 5 usec 6wks 7yrs",
    ];
    for text in texts {
        let expected = humantime::parse_duration(text)
            .map(|d| d.as_nanos())
            .map_err(|e| format!("invalid duration `{text}`: {e}"));
        assert_eq!(parse_modest_duration(text), Some(expected), "{text}");
    }
}

#[test]
fn the_socket_has_its_place() {
    let run = || Some(PathBuf::from("/run/user/1000"));
    for uid in [Some(1000), None] {
        match default_socket_path(run(), uid) {
            SocketPath::InRuntimeDir(dir, name) => {
                assert_eq!((dir, name), (PathBuf::from("/run/user/1000"), "mii-sound.sock"))
            }
            other => panic!("{other:?}"),
        }
    }
    match default_socket_path(None, Some(1000)) {
        SocketPath::At(path) => assert_eq!(path, "/tmp/mii-sound-1000.sock"),
        other => panic!("{other:?}"),
    }
    match default_socket_path(None, None) {
        SocketPath::At(path) => assert_eq!(path, "mii-sound.sock"),
        other => panic!("{other:?}"),
    }
    let custom = || Some(PathBuf::from("/mine.sock"));
    let fallback = || PathBuf::from("/fallback.sock");
    for namespaces in [true, false] {
        match resolve_name(custom(), namespaces, fallback()) {
            SocketName::Path(path) => assert_eq!(path, PathBuf::from("/mine.sock")),
            other => panic!("{other:?}"),
        }
    }
    match resolve_name(None, true, fallback()) {
        SocketName::Namespaced(name) => assert_eq!(name, "mii-sound.sock"),
        other => panic!("{other:?}"),
    }
    match resolve_name(None, false, fallback()) {
        SocketName::Path(path) => assert_eq!(path, fallback()),
        other => panic!("{other:?}"),
    }
    assert_eq!(invalid_socket_path("/x", "why"), "invalid socket path /x: why");
    assert_eq!(invalid_socket_name("why"), "invalid namespaced socket name: why");
}

#[test]
fn the_token_comes_from_the_environment() {
    assert_eq!(token_from_env(Some("t".to_string())), Ok("t".to_string()));
    assert_eq!(token_from_env(None), Err("$TOKEN env var must be set for network mode"));
}

#[test]
fn numbers_are_written_in_decimal() {
    for n in [0, 9, 10, 99, 100, 4096, u64::MAX] {
        assert_eq!(decimal_text(n), n.to_string());
    }
    assert_eq!(label_number("n=", 42), "n=42");
    assert!(starts_with("https://x", "https://"));
    assert!(!starts_with("http", "http://"));
    assert!(starts_with("anything", ""));
}
