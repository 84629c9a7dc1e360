//! The process of a session: how it is started, and what its terminal and its end
//! mean.

use vstd::prelude::*;

use crate::session::ConfigView;
use crate::session::SessionConfig;
use crate::text::texts;

verus! {

/// The number of bytes that are read from a terminal at once, at most.
pub const READ_BUFFER: usize = 8192;

/// The terminal type that processes are told of.
pub const TERMINAL_TYPE: &'static str = "xterm-256color";

/// A process to be started in a terminal of so many columns and rows.
#[derive(Debug)]
pub struct PtyCommand {
    pub program: String,
    pub args: Vec<String>,
    pub cwd: String,
    /// The value of the environment variable `TERM`.
    pub term: String,
    pub cols: u16,
    pub rows: u16,
}

/// What a process to be started holds.
#[verifier::ext_equal]
pub struct CommandView {
    pub program: Seq<char>,
    pub args: Seq<Seq<char>>,
    pub cwd: Seq<char>,
    pub term: Seq<char>,
    pub cols: u16,
    pub rows: u16,
}

impl View for PtyCommand {
    type V = CommandView;

    open spec fn view(&self) -> CommandView {
        CommandView {
            program: self.program@,
            args: texts(self.args@),
            cwd: self.cwd@,
            term: self.term@,
            cols: self.cols,
            rows: self.rows,
        }
    }
}

/// The process that a session runs: its shell, with its arguments, in its directory.
pub open spec fn command_view(config: ConfigView, cols: u16, rows: u16) -> CommandView {
    CommandView {
        program: config.shell,
        args: config.args,
        cwd: config.cwd,
        term: TERMINAL_TYPE@,
        cols,
        rows,
    }
}

/// The process that a session runs.
pub fn session_command(config: &SessionConfig, cols: u16, rows: u16) -> (r: PtyCommand)
    ensures
        r@ == command_view(config@, cols, rows),
{
    PtyCommand {
        program: config.shell.clone(),
        args: crate::text::copy_texts(&config.args),
        cwd: config.cwd.clone(),
        term: TERMINAL_TYPE.to_owned(),
        cols,
        rows,
    }
}

/// What is done with a read from a terminal.
#[derive(Debug)]
pub enum ReadStep {
    /// The bytes are output; read on.
    Output(Vec<u8>),
    /// The terminal is at its end, or cannot be read any more.
    Stop,
}

/// What is done once `count` bytes have been read to the front of the buffer, or the
/// read has failed.
pub fn on_read(buffer: &Vec<u8>, count: Option<usize>) -> (r: ReadStep)
    requires
        count matches Some(n) ==> n <= buffer@.len(),
    ensures
        match count {
            Some(n) => if n > 0 {
                r matches ReadStep::Output(data) && data@ == buffer@.take(n as int)
            } else {
                r is Stop
            },
            None => r is Stop,
        },
{
    match count {
        None => ReadStep::Stop,
        Some(n) => {
            if n == 0 {
                return ReadStep::Stop;
            }
            let mut data: Vec<u8> = buffer.clone();
            assert(data@ =~= buffer@);
            data.truncate(n);
            ReadStep::Output(data)
        },
    }
}

/// The exit code that is recorded: the process's own, or 1 where waiting for it
/// failed.
pub fn recorded_exit_code(waited: Option<u32>) -> (r: u32)
    ensures
        r == match waited {
            Some(code) => code,
            None => 1,
        },
{
    match waited {
        Some(code) => code,
        None => 1,
    }
}

} // verus!
