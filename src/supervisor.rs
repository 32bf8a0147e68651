use vstd::prelude::*;
use crate::relay::RelayEnd;

verus! {

/// A stage of the pipeline: the fetching stage feeds the encoding one.
#[derive(Clone, Copy, Debug, PartialEq, Eq, Structural)]
pub enum Stage {
    Fetch,
    Encode,
}

/// Where an I/O failure of a run came from.
#[derive(Clone, Copy, Debug, PartialEq, Eq, Structural)]
pub enum IoFault {
    /// Reading the fetching stage's output.
    Read,
    /// Writing the encoding stage's input.
    Write,
    /// Asking a stage for its status.
    Poll(Stage),
    /// Signalling a stage to stop.
    Kill(Stage),
}

/// How a run ended.
#[derive(Clone, Copy, Debug, PartialEq, Eq, Structural)]
pub enum PipelineResult {
    /// Every stage exited with code 0 and no cancellation was seen.
    Succeeded,
    /// The stage could not be launched.
    SpawnError(Stage),
    /// The stage exited with this code, or with none when a signal ended it.
    StageFailed(Stage, Option<i32>),
    /// Cancellation was requested.
    Cancelled,
    /// An I/O failure not caused by cancellation.
    IoError(IoFault),
}

/// What one poll of a stage found.
#[derive(Clone, Copy, Debug, PartialEq, Eq, Structural)]
pub enum StageObs {
    /// The run has no such stage.
    Absent,
    Running,
    Exited(Option<i32>),
    PollFailed,
}

/// A decision of the supervisor: which stages to kill, and the result if
/// the run is over.
#[derive(Clone, Copy, Debug, PartialEq, Eq, Structural)]
pub struct Verdict {
    pub kill_fetch: bool,
    pub kill_encode: bool,
    pub result: Option<PipelineResult>,
}

/// The stage has finished well, or is not part of the run.
pub open spec fn finished_ok(o: StageObs) -> bool {
    o == StageObs::Absent || o == StageObs::Exited(Some(0i32))
}

/// The stage exited with a code other than 0.
pub open spec fn exited_badly(o: StageObs) -> bool {
    o is Exited && o->Exited_0 != Some(0i32)
}

/// Kill everything that may be alive and end with `result`.
pub open spec fn stop_all(result: PipelineResult) -> Verdict {
    Verdict { kill_fetch: true, kill_encode: true, result: Some(result) }
}

/// The supervisor's decision after one poll of both stages.
pub open spec fn wait_verdict(fetch: StageObs, encode: StageObs, cancelled: bool) -> Verdict {
    if cancelled {
        stop_all(PipelineResult::Cancelled)
    } else if fetch == StageObs::PollFailed {
        stop_all(PipelineResult::IoError(IoFault::Poll(Stage::Fetch)))
    } else if exited_badly(fetch) {
        Verdict {
            kill_fetch: false,
            kill_encode: encode == StageObs::Running,
            result: Some(PipelineResult::StageFailed(Stage::Fetch, fetch->Exited_0)),
        }
    } else if encode == StageObs::PollFailed {
        stop_all(PipelineResult::IoError(IoFault::Poll(Stage::Encode)))
    } else if exited_badly(encode) {
        Verdict {
            kill_fetch: fetch == StageObs::Running,
            kill_encode: false,
            result: Some(PipelineResult::StageFailed(Stage::Encode, encode->Exited_0)),
        }
    } else if finished_ok(fetch) && finished_ok(encode) {
        Verdict { kill_fetch: false, kill_encode: false, result: Some(PipelineResult::Succeeded) }
    } else {
        Verdict { kill_fetch: false, kill_encode: false, result: None }
    }
}

fn exits_badly(o: StageObs) -> (r: bool)
    ensures
        r == exited_badly(o),
{
    match o {
        StageObs::Exited(c) => match c {
            Some(code) => code != 0,
            None => true,
        },
        _ => false,
    }
}

fn finishes_ok(o: StageObs) -> (r: bool)
    ensures
        r == finished_ok(o),
{
    match o {
        StageObs::Absent => true,
        StageObs::Exited(c) => match c {
            Some(code) => code == 0,
            None => false,
        },
        _ => false,
    }
}

/// One step of the wait loop, taken every polling interval: `fetch` and
/// `encode` are what the polls found, `cancelled` what the signal says.
/// Without a result, the loop sleeps one interval and polls again.
pub fn wait_step(fetch: StageObs, encode: StageObs, cancelled: bool) -> (r: Verdict)
    ensures
        r == wait_verdict(fetch, encode, cancelled),
{
    let stop = Verdict { kill_fetch: true, kill_encode: true, result: None };
    if cancelled {
        Verdict { result: Some(PipelineResult::Cancelled), ..stop }
    } else if fetch == StageObs::PollFailed {
        Verdict { result: Some(PipelineResult::IoError(IoFault::Poll(Stage::Fetch))), ..stop }
    } else if exits_badly(fetch) {
        let code = match fetch {
            StageObs::Exited(c) => c,
            _ => None,
        };
        Verdict {
            kill_fetch: false,
            kill_encode: encode == StageObs::Running,
            result: Some(PipelineResult::StageFailed(Stage::Fetch, code)),
        }
    } else if encode == StageObs::PollFailed {
        Verdict { result: Some(PipelineResult::IoError(IoFault::Poll(Stage::Encode))), ..stop }
    } else if exits_badly(encode) {
        let code = match encode {
            StageObs::Exited(c) => c,
            _ => None,
        };
        Verdict {
            kill_fetch: fetch == StageObs::Running,
            kill_encode: false,
            result: Some(PipelineResult::StageFailed(Stage::Encode, code)),
        }
    } else if finishes_ok(fetch) && finishes_ok(encode) {
        Verdict { kill_fetch: false, kill_encode: false, result: Some(PipelineResult::Succeeded) }
    } else {
        Verdict { kill_fetch: false, kill_encode: false, result: None }
    }
}

/// The supervisor's decision once the relay has stopped.
pub open spec fn relay_verdict(end: RelayEnd, cancelled: bool) -> Verdict {
    if cancelled || end == RelayEnd::Cancelled {
        stop_all(PipelineResult::Cancelled)
    } else if end == RelayEnd::ReadFailed {
        stop_all(PipelineResult::IoError(IoFault::Read))
    } else if end == RelayEnd::WriteFailed {
        stop_all(PipelineResult::IoError(IoFault::Write))
    } else {
        Verdict { kill_fetch: false, kill_encode: false, result: None }
    }
}

/// The step after the relay has closed both endpoints: a failed relay
/// stops the run, a completed one moves on to waiting for the stages.
pub fn after_relay(end: RelayEnd, cancelled: bool) -> (r: Verdict)
    ensures
        r == relay_verdict(end, cancelled),
{
    let stop = Verdict { kill_fetch: true, kill_encode: true, result: None };
    match end {
        RelayEnd::Cancelled => Verdict { result: Some(PipelineResult::Cancelled), ..stop },
        _ => if cancelled {
            Verdict { result: Some(PipelineResult::Cancelled), ..stop }
        } else {
            match end {
                RelayEnd::ReadFailed => Verdict {
                    result: Some(PipelineResult::IoError(IoFault::Read)),
                    ..stop
                },
                RelayEnd::WriteFailed => Verdict {
                    result: Some(PipelineResult::IoError(IoFault::Write)),
                    ..stop
                },
                _ => Verdict { kill_fetch: false, kill_encode: false, result: None },
            }
        },
    }
}

/// What follows an attempt to launch a stage.
#[derive(Clone, Copy, Debug, PartialEq, Eq, Structural)]
pub enum SpawnStep {
    /// Launch the encoding stage next.
    SpawnEncode,
    /// Every stage is up: start the relay and the drain, or wait.
    Run,
    /// The run is over; the fetching stage is killed when `kill_fetch`.
    Fail { result: PipelineResult, kill_fetch: bool },
}

/// The step after launching `stage`, which succeeded when `launched`; a
/// chained run has an encoding stage, launched after the fetching one.
pub fn after_spawn(stage: Stage, launched: bool, chained: bool) -> (r: SpawnStep)
    ensures
        r == (match stage {
            Stage::Fetch => if !launched {
                SpawnStep::Fail { result: PipelineResult::SpawnError(Stage::Fetch), kill_fetch: false }
            } else if chained {
                SpawnStep::SpawnEncode
            } else {
                SpawnStep::Run
            },
            Stage::Encode => if !launched {
                SpawnStep::Fail { result: PipelineResult::SpawnError(Stage::Encode), kill_fetch: true }
            } else {
                SpawnStep::Run
            },
        }),
{
    match stage {
        Stage::Fetch => if !launched {
            SpawnStep::Fail { result: PipelineResult::SpawnError(Stage::Fetch), kill_fetch: false }
        } else if chained {
            SpawnStep::SpawnEncode
        } else {
            SpawnStep::Run
        },
        Stage::Encode => if !launched {
            SpawnStep::Fail { result: PipelineResult::SpawnError(Stage::Encode), kill_fetch: true }
        } else {
            SpawnStep::Run
        },
    }
}

/// The outcome of a kill request on a stage that a poll found as `before`,
/// when signalling it went as `signalled` says. Only a stage that was still
/// running is signalled; any other request succeeds at once.
pub fn kill_outcome(stage: Stage, before: StageObs, signalled: bool) -> (r: Result<(), IoFault>)
    ensures
        before != StageObs::Running ==> r is Ok,
        before == StageObs::Running ==> (r is Ok <==> signalled),
        r is Err ==> r->Err_0 == IoFault::Kill(stage),
{
    if before == StageObs::Running && !signalled {
        Err(IoFault::Kill(stage))
    } else {
        Ok(())
    }
}

/// The result of a step once its kill requests were made: the verdict's
/// own result wins; without one, a failed kill of the fetching stage, then
/// one of the encoding stage, ends the run as an I/O error.
pub fn settle(
    result: Option<PipelineResult>,
    fetch_kill: Result<(), IoFault>,
    encode_kill: Result<(), IoFault>,
) -> (r: Option<PipelineResult>)
    ensures
        result is Some ==> r == result,
        result is None && fetch_kill is Err ==> r == Some(
            PipelineResult::IoError(fetch_kill->Err_0),
        ),
        result is None && fetch_kill is Ok && encode_kill is Err ==> r == Some(
            PipelineResult::IoError(encode_kill->Err_0),
        ),
        result is None && fetch_kill is Ok && encode_kill is Ok ==> r is None,
{
    match result {
        Some(res) => Some(res),
        None => match fetch_kill {
            Err(f) => Some(PipelineResult::IoError(f)),
            Ok(()) => match encode_kill {
                Err(f) => Some(PipelineResult::IoError(f)),
                Ok(()) => None,
            },
        },
    }
}

/// The exit code of the program for a run that ended with `result`: 0 only
/// on success.
pub fn exit_code(result: PipelineResult) -> (r: i32)
    ensures
        (r == 0) <==> (result == PipelineResult::Succeeded),
        r == 0 || r == 1,
{
    match result {
        PipelineResult::Succeeded => 0,
        _ => 1,
    }
}

/// When both stages exit with code 0 and no cancellation is seen, the run
/// succeeds and no stage is killed.
pub proof fn clean_exits_succeed(fetch: StageObs, encode: StageObs)
    requires
        finished_ok(fetch),
        finished_ok(encode),
    ensures
        wait_verdict(fetch, encode, false) == (Verdict {
            kill_fetch: false,
            kill_encode: false,
            result: Some(PipelineResult::Succeeded),
        }),
        relay_verdict(RelayEnd::Completed, false).result is None,
        !relay_verdict(RelayEnd::Completed, false).kill_fetch,
        !relay_verdict(RelayEnd::Completed, false).kill_encode,
{
}

/// When the fetching stage exits with a code other than 0 and no
/// cancellation is seen, the run fails naming it and its code, and the
/// encoding stage is killed exactly when it is still running.
pub proof fn fetch_failure_kills_encode(code: Option<i32>, encode: StageObs)
    requires
        code != Some(0i32),
    ensures
        wait_verdict(StageObs::Exited(code), encode, false) == (Verdict {
            kill_fetch: false,
            kill_encode: encode == StageObs::Running,
            result: Some(PipelineResult::StageFailed(Stage::Fetch, code)),
        }),
{
}

/// Once cancellation is seen, wherever the run stands, every stage gets a
/// kill request and the run ends cancelled.
pub proof fn cancellation_stops_everything(fetch: StageObs, encode: StageObs, end: RelayEnd)
    ensures
        wait_verdict(fetch, encode, true) == stop_all(PipelineResult::Cancelled),
        relay_verdict(end, true) == stop_all(PipelineResult::Cancelled),
{
}

} // verus!
