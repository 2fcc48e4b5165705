//! The order of the commands sent to one card: each vendor selector in turn
//! until a decoder claims the answer, then a write probe, then a final read
//! that the generic decoder reads. The caller submits each request and hands
//! back its result; the decisions are made here.

use vstd::prelude::*;
use nix::errno::Errno;
use crate::mmc_ioc_cmd::{cmd56_arg, cmds56, cmds56_spec, Cmd56, SDBlock, CMDS56_LEN};
use crate::parsers::{
    decodes, dispatch, first_claim, get_smartdata_parser, registry, Decoder, Report, SDParser,
};

verus! {

/// The error number of a failed device-control call, carried unchanged.
#[verifier::external_type_specification]
#[verifier::external_body]
pub struct ExErrno(Errno);

/// Argument of the write probe.
pub const WRITE_PROBE_ARG: u32 = 0x10;

/// Argument of the final read of the generic health block.
pub const READ_SMART_DATA_ARG: u32 = 0x21;

/// Where the sequence stands.
#[derive(Clone, Copy, Debug, PartialEq, Eq, Structural)]
pub enum Phase {
    /// Probing the vendor selector at this index of the probe order.
    Identify(usize),
    /// Every selector was tried and none was decoded: probing the write path.
    WriteProbe,
    /// Reading the generic health block.
    FinalRead,
    /// Nothing is left to send.
    Finished,
}

/// A command for the caller to submit to the card.
#[derive(Clone, Copy, Debug, PartialEq, Eq, Structural)]
pub enum Request {
    /// Read one block, sending `arg`.
    DataIn { arg: u32 },
    /// Write one all-zero block, sending `arg`.
    Write { arg: u32 },
}

/// What one step of the sequence reports.
pub enum Notice {
    /// A vendor decoder claimed the block answered to `command`.
    Decoded { command: Cmd56, report: Report },
    /// The command for `command` failed.
    CommandFailed { command: Cmd56, error: Errno },
    /// The command for `command` succeeded but no decoder claims its block.
    NoDecoder { command: Cmd56 },
    /// The write probe failed.
    WriteProbeFailed { error: Errno },
    /// The write probe succeeded.
    WriteProbeDone,
    /// The final read succeeded and the generic decoder read its block.
    SmartData { report: Report },
    /// The final read failed.
    SmartDataFailed { error: Errno },
}

/// The phases that the sequence can be in.
pub open spec fn phase_ok(p: Phase) -> bool {
    match p {
        Phase::Identify(i) => i < CMDS56_LEN,
        _ => true,
    }
}

/// The command to submit in phase `p`, if any.
pub open spec fn request_of(p: Phase) -> Option<Request> {
    match p {
        Phase::Identify(i) => Some(Request::DataIn { arg: cmd56_arg(cmds56_spec()[i as int]) }),
        Phase::WriteProbe => Some(Request::Write { arg: WRITE_PROBE_ARG }),
        Phase::FinalRead => Some(Request::DataIn { arg: READ_SMART_DATA_ARG }),
        Phase::Finished => None,
    }
}

/// The phase after `p`, where the command succeeded (`ok`) and a vendor
/// decoder claimed its block (`claimed`).
pub open spec fn next_phase(p: Phase, ok: bool, claimed: bool) -> Phase {
    match p {
        Phase::Identify(i) => if ok && claimed {
            Phase::Finished
        } else if i + 1 < CMDS56_LEN {
            Phase::Identify((i + 1) as usize)
        } else {
            Phase::WriteProbe
        },
        Phase::WriteProbe => Phase::FinalRead,
        Phase::FinalRead => Phase::Finished,
        Phase::Finished => Phase::Finished,
    }
}

/// `n` is what phase `p` reports after its command ended with `result` and
/// left `b` in the response block.
pub open spec fn notice_of(p: Phase, result: Result<i32, Errno>, b: Seq<u8>, n: Notice) -> bool {
    match p {
        Phase::Identify(i) => {
            let c = cmds56_spec()[i as int];
            match result {
                Err(e) => n == Notice::CommandFailed { command: c, error: e },
                Ok(_) => match first_claim(registry(), c, b) {
                    Some(d) => match n {
                        Notice::Decoded { command, report } => command == c && decodes(
                            d,
                            b,
                            report,
                        ),
                        _ => false,
                    },
                    None => n == Notice::NoDecoder { command: c },
                },
            }
        },
        Phase::WriteProbe => match result {
            Err(e) => n == Notice::WriteProbeFailed { error: e },
            Ok(_) => n == Notice::WriteProbeDone,
        },
        Phase::FinalRead => match result {
            Err(e) => n == Notice::SmartDataFailed { error: e },
            Ok(_) => match n {
                Notice::SmartData { report } => decodes(Decoder::SmartData, b, report),
                _ => false,
            },
        },
        Phase::Finished => false,
    }
}

/// The state of the command sequence for one card.
pub struct Sequencer {
    phase: Phase,
}

impl View for Sequencer {
    type V = Phase;

    closed spec fn view(&self) -> Phase {
        self.phase
    }
}

impl Sequencer {
    #[verifier::type_invariant]
    spec fn inv(self) -> bool {
        phase_ok(self.phase)
    }

    /// A sequence that starts with the first vendor selector.
    pub fn new() -> (r: Self)
        ensures
            r@ == Phase::Identify(0),
    {
        Sequencer { phase: Phase::Identify(0) }
    }

    pub fn phase(&self) -> (r: Phase)
        ensures
            r == self@,
            phase_ok(r),
    {
        proof {
            use_type_invariant(self);
        }
        self.phase
    }

    /// The command to submit next; none once the sequence is finished.
    pub fn request(&self) -> (r: Option<Request>)
        ensures
            r == request_of(self@),
    {
        proof {
            use_type_invariant(self);
        }
        match self.phase {
            Phase::Identify(i) => {
                let cmds = cmds56();
                Some(Request::DataIn { arg: cmds[i].value() })
            },
            Phase::WriteProbe => Some(Request::Write { arg: WRITE_PROBE_ARG }),
            Phase::FinalRead => Some(Request::DataIn { arg: READ_SMART_DATA_ARG }),
            Phase::Finished => None,
        }
    }

    /// Takes the result of the command that `request` named, with the
    /// response block as that command left it, and moves on.
    pub fn advance(&mut self, result: Result<i32, Errno>, block: &SDBlock) -> (n: Notice)
        requires
            old(self)@ != Phase::Finished,
        ensures
            notice_of(old(self)@, result, block@, n),
            final(self)@ == next_phase(
                old(self)@,
                result is Ok,
                result is Ok && old(self)@ is Identify && first_claim(
                    registry(),
                    cmds56_spec()[old(self)@->Identify_0 as int],
                    block@,
                ) is Some,
            ),
    {
        proof {
            use_type_invariant(&*self);
        }
        match self.phase {
            Phase::Identify(i) => {
                let cmds = cmds56();
                let command = cmds[i];
                let next = if i + 1 < CMDS56_LEN {
                    Phase::Identify(i + 1)
                } else {
                    Phase::WriteProbe
                };
                match result {
                    Err(error) => {
                        self.phase = next;
                        Notice::CommandFailed { command, error }
                    },
                    Ok(_) => match dispatch(command, block) {
                        Some(d) => {
                            self.phase = Phase::Finished;
                            Notice::Decoded { command, report: d.dump_data(block) }
                        },
                        None => {
                            self.phase = next;
                            Notice::NoDecoder { command }
                        },
                    },
                }
            },
            Phase::WriteProbe => {
                self.phase = Phase::FinalRead;
                match result {
                    Err(error) => Notice::WriteProbeFailed { error },
                    Ok(_) => Notice::WriteProbeDone,
                }
            },
            _ => {
                self.phase = Phase::Finished;
                match result {
                    Err(error) => Notice::SmartDataFailed { error },
                    Ok(_) => Notice::SmartData { report: get_smartdata_parser().dump_data(block) },
                }
            },
        }
    }
}

} // verus!
