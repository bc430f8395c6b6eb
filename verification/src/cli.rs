//! The command line: what can be asked for, and what is done about it.

use crate::client::tts::Flags;
use crate::client::Failure;
use crate::exit;
use crate::text;
use std::path::PathBuf;
use vstd::prelude::*;

verus! {

/// Declares `std::path::PathBuf`, a path that is carried through.
#[verifier::external_type_specification]
#[verifier::external_body]
pub struct ExPathBuf(std::path::PathBuf);

/// The whole command line.
#[derive(Debug)]
pub struct Cli {
    /// The address of a remote server; without one, the local socket is used.
    pub url: Option<String>,
    /// Where the local socket is.
    pub socket: Option<PathBuf>,
    /// Whether just to check that the server can be reached.
    pub status: bool,
    pub command: Option<Command>,
}

/// A subcommand.
#[derive(Debug)]
pub enum Command {
    /// Run as the server.
    Serve(ServeArgs),
    /// Turn text into speech.
    Tts(TtsArgs),
    /// Run as the worker of a server.
    TtsWorker(TtsWorkerArgs),
}

/// What a worker is started with.
#[derive(Debug)]
pub struct TtsWorkerArgs {
    pub tts_dir: PathBuf,
    pub cpu: bool,
}

/// What a server is started with. Durations are nanoseconds.
#[derive(Debug)]
pub struct ServeArgs {
    /// The directory of the model.
    pub tts_dir: Option<PathBuf>,
    pub cpu: bool,
    /// How long an idle resource stays loaded.
    pub holds: u128,
    /// The port to listen at, instead of the local socket.
    pub network: Option<u16>,
    /// The remote server that gets all requests.
    pub relay: Option<String>,
    /// How many requests run as one batch.
    pub parallel: usize,
    /// How long a batch waits for more requests.
    pub batch_window: u128,
    pub quiet: bool,
}

/// What the TTS client is started with.
#[derive(Debug)]
pub struct TtsArgs {
    /// The file to write, instead of the standard output.
    pub out: Option<PathBuf>,
    /// The request, instead of the standard input.
    pub json: Option<String>,
    pub voice_clone: bool,
    /// The guidance, a single-precision number, as its bits.
    pub cfg_bits: u32,
    pub steps: u32,
    pub stream: bool,
}

impl TtsArgs {
    /// The flags that shape the request.
    pub fn flags(&self) -> (flags: Flags)
        ensures
            flags == (Flags {
                voice_clone: self.voice_clone,
                cfg_bits: self.cfg_bits,
                steps: self.steps,
                stream: self.stream,
            }),
    {
        Flags {
            voice_clone: self.voice_clone,
            cfg_bits: self.cfg_bits,
            steps: self.steps,
            stream: self.stream,
        }
    }
}

/// How long idle resources stay loaded unless told otherwise: ten minutes.
pub const DEFAULT_HOLDS: u128 = 600_000_000_000;

/// How many requests run as one batch unless told otherwise.
pub const DEFAULT_PARALLEL: usize = 1;

impl Cli {
    /// How much is logged unless the environment says otherwise: a server that
    /// is not to be quiet says what it does.
    pub fn default_level(&self) -> (level: &'static str)
        ensures
            level@ == match self.command {
                Some(Command::Serve(args)) => if args.quiet {
                    "warn"@
                } else {
                    "info"@
                },
                _ => "warn"@,
            },
    {
        match &self.command {
            Some(Command::Serve(args)) => if args.quiet {
                "warn"
            } else {
                "info"
            },
            _ => "warn",
        }
    }
}

/// What the program does.
#[derive(Debug)]
pub enum Mode {
    /// Check that the server can be reached.
    Status,
    Serve(ServeArgs),
    Tts(TtsArgs),
    Worker(TtsWorkerArgs),
    /// Give up.
    Fail(Failure),
}

/// What the program does. A status check goes before any subcommand.
pub fn mode(status: bool, command: Option<Command>) -> (m: Mode)
    ensures
        match m {
            Mode::Status => status,
            Mode::Serve(args) => !status && command == Some(Command::Serve(args)),
            Mode::Tts(args) => !status && command == Some(Command::Tts(args)),
            Mode::Worker(args) => !status && command == Some(Command::TtsWorker(args)),
            Mode::Fail(f) => !status && command is None && f.says(
                "mii-sound: no subcommand given (use `tts` or `serve`, or pass --status)"@,
                exit::BAD_REQUEST,
            ),
        },
{
    if status {
        return Mode::Status;
    }
    match command {
        Some(Command::Serve(args)) => Mode::Serve(args),
        Some(Command::Tts(args)) => Mode::Tts(args),
        Some(Command::TtsWorker(args)) => Mode::Worker(args),
        None => Mode::Fail(
            Failure {
                line:
                    "mii-sound: no subcommand given (use `tts` or `serve`, or pass --status)".to_owned(),
                code: exit::BAD_REQUEST,
            },
        ),
    }
}

/// How a server ends that cannot go on.
pub fn serve_failed(reason: &str) -> (f: Failure)
    ensures
        f.says("mii-sound serve: "@ + reason@, exit::UNKNOWN),
{
    Failure { line: text::join("mii-sound serve: ", reason), code: exit::UNKNOWN }
}

/// What the flags say is what the command line says.
pub proof fn flags_are_taken_over(args: TtsArgs, flags: Flags)
    requires
        call_ensures(TtsArgs::flags, (&args,), flags),
    ensures
        flags.voice_clone == args.voice_clone,
        flags.cfg_bits == args.cfg_bits,
        flags.steps == args.steps,
        flags.stream == args.stream,
{
}

/// A status check goes before all else; without one, the subcommand is done
/// with its own arguments, and there has to be one.
pub proof fn subcommands_are_done(status: bool, command: Option<Command>, m: Mode)
    requires
        call_ensures(mode, (status, command), m),
    ensures
        m is Status <==> status,
        m is Fail <==> !status && command is None,
        !status ==> match command {
            Some(Command::Serve(args)) => m == Mode::Serve(args),
            Some(Command::Tts(args)) => m == Mode::Tts(args),
            Some(Command::TtsWorker(args)) => m == Mode::Worker(args),
            None => m matches Mode::Fail(f) && f.code == 4 && f.line@
                == "mii-sound: no subcommand given (use `tts` or `serve`, or pass --status)"@,
        },
{
}

/// Only a server that is not to be quiet says what it does.
pub proof fn servers_say_what_they_do(cli: Cli, level: &'static str)
    requires
        call_ensures(Cli::default_level, (&cli,), level),
    ensures
        level@ == "info"@ || level@ == "warn"@,
        (cli.command matches Some(Command::Serve(args)) && !args.quiet) ==> level@ == "info"@,
        !(cli.command matches Some(Command::Serve(args)) && !args.quiet) ==> level@ == "warn"@,
{
}

} // verus!
