//! The vocabulary of debugger requests: queries, feature reports and the
//! settings a client may push. The serve loop parses packets into these
//! and answers them against the board.

use vstd::prelude::*;
use crate::server::packet::{leading_alpha, hex_to_byte};

verus! {

/// A `q` packet: something the debugger wants to know.
#[derive(Debug)]
pub enum Query {
    CurrentThread,
    CrcChecksum { addr: u32, length: u32 },
    ThreadInfoFirst,
    ThreadInfoSubsequent,
    ThreadInfoDeprecated { first: bool, count: u32, next_thread: u32 },
    ThreadLocalStorageAddress { id: i32, offset: i32, lm: u32 },
    ThreadInformationBlockAddress { id: i32 },
    SectionOffsets,
    ThreadExtraInfoDeprecated { mode: u32, id: i32 },
    ExecCommand { command: Vec<u8> },
    SearchMemory { address: u32, length: u32, pattern: Vec<u8> },
    Supported { features: Vec<GdbFeature> },
    OfferingSymbolLookup,
    TracepointStatus,
    TracepointPieceFirst,
    TracepointPieceSubsequent,
    TracevariableFirst,
    TracevariableSubsequent,
    TracepointStaticFirst,
    TracepointStaticSubsequent,
    TracepointStaticAtAddress,
    TracepointBuffer { offset: u32, length: u32 },
    ThreadExtraInfo { id: i32 },
    AttachedToProcess { process: Option<u32> },
}

/// Operations a client may allow or forbid.
#[derive(Debug)]
pub enum AllowOp {
    WriteReg,
    WriteMem,
    InsertBreak,
    InsertTrace,
    InsertFastTrace,
    Stop,
}

/// A capability the debugger declares.
#[derive(Debug)]
pub enum GdbFeature {
    SoftwareBreakpoint { supported: bool },
    HardwareBreakpoint { supported: bool },
    VContSupported { supported: bool },
}

/// A capability this server reports back.
#[derive(Debug)]
pub enum ServerFeature {
    PacketSize { size: u32 },
    NoAcknowledgmentMode { supported: bool },
    SoftwareBreakpoint { supported: bool },
    HardwareBreakpoint { supported: bool },
    VContSupported { supported: bool },
}

#[derive(Debug)]
pub enum BranchTraceKind {
    BranchTraceStore,
    IntelProcessorTrace,
    Disable,
}

/// A `Q` packet: a setting the debugger pushes at the server.
#[derive(Debug)]
pub enum SetCommand {
    Agent { enabled: bool },
    Allow { operations: Vec<(AllowOp, bool)> },
    DisableRandomization { disabled: bool },
    StartupWithShell { enabled: bool },
    EnvironmentHexEncoded { name: String, value: String },
    EnvironmentUnset { name: String, value: String },
    EnvironmentReset,
    WorkingDir { dir: String },
    NonStop { enabled: bool },
    CatchSyscalls { enabled: bool, calls: Vec<u32> },
    PassSignals { signals: Vec<u32> },
    ProgramSignals { signals: Vec<u32> },
    ThreadEvents { enabled: bool },
    NoAcknowledgmentMode,
    TracepointSave { file: String },
    TracepointBufferKind { circular: bool },
    TracepointBufferConstruct { size: i32 },
    TracepointNotes,
    BranchTracing { kind: BranchTraceKind },
    BranchTracingBufferSize { kind: BranchTraceKind, size: u32 },
}


/// Whether two byte slices hold the same bytes.
fn bytes_eq(a: &[u8], b: &[u8]) -> (r: bool)
    ensures
        r == (a@ == b@),
{
    let n = a.len();
    if n != b.len() {
        proof {
            assert(a@.len() != b@.len());
        }
        return false;
    }
    let mut i: usize = 0;
    while i < n
        invariant
            i <= n,
            n == a@.len(),
            n == b@.len(),
            forall|j: int| 0 <= j < i ==> a@[j] == b@[j],
        decreases n - i,
    {
        if a[i] != b[i] {
            return false;
        }
        i = i + 1;
    }
    proof {
        assert(a@ =~= b@);
    }
    true
}

/// Decodes pairs of hex digits into bytes; fails on an odd length or a
/// non-hex digit.
pub fn parse_hex_bytes(data: &[u8]) -> (r: Result<Vec<u8>, ()>)
    ensures
        r matches Ok(out) ==> data@.len() % 2 == 0 && out@.len() == data@.len() / 2,
        data@.len() % 2 != 0 ==> r is Err,
{
    let n = data.len();
    if n % 2 != 0 {
        return Err(());
    }
    let mut out: Vec<u8> = Vec::new();
    let mut i: usize = 0;
    while i + 1 < n
        invariant
            n == data@.len(),
            n % 2 == 0,
            i % 2 == 0,
            i <= n,
            out@.len() == i / 2,
        decreases n - i,
    {
        let hi = match hex_to_byte(data[i]) {
            Ok(v) => v,
            Err(_) => {
                return Err(());
            },
        };
        let lo = match hex_to_byte(data[i + 1]) {
            Ok(v) => v,
            Err(_) => {
                return Err(());
            },
        };
        out.push(hi * 16 + lo);
        i = i + 2;
    }
    Ok(out)
}

/// The outcome of parsing a `q` packet body.
#[derive(Debug)]
pub enum QueryParse {
    Known(Query),
    Unknown,
    Malformed,
}

/// Parses the body of a `q` packet (without its leading letter) into the
/// query it stands for.
pub fn parse_query_packet(body: &[u8]) -> QueryParse {
    let command = leading_alpha(body);
    let all = command.len() == body.len();
    if all && bytes_eq(command, "C".as_bytes()) {
        QueryParse::Known(Query::CurrentThread)
    } else if bytes_eq(command, "Supported".as_bytes()) {
        QueryParse::Known(Query::Supported { features: Vec::new() })
    } else if bytes_eq(command, "Rcmd".as_bytes()) {
        if body.len() >= 5 {
            let rest = vstd::slice::slice_subrange(body, 5, body.len());
            match parse_hex_bytes(rest) {
                Ok(cmd) => QueryParse::Known(Query::ExecCommand { command: cmd }),
                Err(_) => QueryParse::Malformed,
            }
        } else {
            QueryParse::Malformed
        }
    } else if all && bytes_eq(command, "Offsets".as_bytes()) {
        QueryParse::Known(Query::SectionOffsets)
    } else if all && bytes_eq(command, "fThreadInfo".as_bytes()) {
        QueryParse::Known(Query::ThreadInfoFirst)
    } else if all && bytes_eq(command, "sThreadInfo".as_bytes()) {
        QueryParse::Known(Query::ThreadInfoSubsequent)
    } else if all && bytes_eq(command, "TStatus".as_bytes()) {
        QueryParse::Known(Query::TracepointStatus)
    } else if all && bytes_eq(command, "Attached".as_bytes()) {
        QueryParse::Known(Query::AttachedToProcess { process: None })
    } else if all && bytes_eq(command, "TfP".as_bytes()) {
        QueryParse::Known(Query::TracepointPieceFirst)
    } else if all && bytes_eq(command, "TsP".as_bytes()) {
        QueryParse::Known(Query::TracepointPieceSubsequent)
    } else if all && bytes_eq(command, "TfV".as_bytes()) {
        QueryParse::Known(Query::TracevariableFirst)
    } else if all && bytes_eq(command, "TsV".as_bytes()) {
        QueryParse::Known(Query::TracevariableSubsequent)
    } else {
        QueryParse::Unknown
    }
}

/// Parses the body of a `Q` packet (without its leading letter) into the
/// setting it pushes; only no-acknowledgment mode is recognised.
pub fn parse_set_packet(body: &[u8]) -> (r: Option<SetCommand>) {
    let command = leading_alpha(body);
    let all = command.len() == body.len();
    if all && bytes_eq(command, "StartNoAckMode".as_bytes()) {
        Some(SetCommand::NoAcknowledgmentMode)
    } else {
        None
    }
}

} // verus!
