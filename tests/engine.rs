use vodpipe::cancel::CancelSignal;
use vodpipe::drain::{drain_step, status_text, LineRead};
use vodpipe::relay::{Relay, RelayAction, RelayEnd, BUFFER_SIZE};
use vodpipe::supervisor::{
    after_relay, after_spawn, exit_code, kill_outcome, settle, wait_step, IoFault, PipelineResult,
    SpawnStep, Stage, StageObs, Verdict,
};

/// Drives a relay over `source`, the sink taking at most `max_write` bytes
/// per write; `cancel_after` sets the signal once that many bytes are out.
fn run_relay(source: &[u8], max_write: usize, cancel_after: Option<usize>) -> (Vec<u8>, RelayEnd) {
    let mut relay = Relay::new();
    let mut pos = 0;
    let mut sink = Vec::new();
    loop {
        match relay.action() {
            RelayAction::Read => {
                let end = usize::min(pos + BUFFER_SIZE, source.len());
                relay.on_read(source[pos..end].to_vec());
                pos = end;
            }
            RelayAction::Write => {
                let rest = &relay.chunk()[relay.written()..];
                let n = usize::min(rest.len(), max_write);
                sink.extend_from_slice(&rest[..n]);
                let cancelled = cancel_after.map_or(false, |c| sink.len() >= c);
                relay.on_written(n, cancelled);
            }
            RelayAction::Close(end) => return (sink, end),
        }
    }
}

fn pattern(n: usize) -> Vec<u8> {
    (0..n).map(|i| (i * 7 % 251) as u8).collect()
}

#[test]
fn relay_empty_stream() {
    let (sink, end) = run_relay(&[], BUFFER_SIZE, None);
    assert!(sink.is_empty());
    assert_eq!(end, RelayEnd::Completed);
}

#[test]
fn relay_short_stream() {
    let src = pattern(100);
    let (sink, end) = run_relay(&src, BUFFER_SIZE, None);
    assert_eq!(sink, src);
    assert_eq!(end, RelayEnd::Completed);
}

#[test]
fn relay_exactly_one_buffer() {
    let src = pattern(BUFFER_SIZE);
    let (sink, end) = run_relay(&src, BUFFER_SIZE, None);
    assert_eq!(sink, src);
    assert_eq!(end, RelayEnd::Completed);
}

#[test]
fn relay_many_buffers_with_partial_writes() {
    let src = pattern(BUFFER_SIZE * 5 + 123);
    let (sink, end) = run_relay(&src, 1000, None);
    assert_eq!(sink, src);
    assert_eq!(end, RelayEnd::Completed);
}

#[test]
fn producer_of_ten_thousand_bytes_reaches_consumer() {
    let src = pattern(10_000);
    let (sink, end) = run_relay(&src, BUFFER_SIZE, None);
    assert_eq!(sink.len(), 10_000);
    assert_eq!(sink, src);
    assert_eq!(after_relay(end, false).result, None);
    let v = wait_step(StageObs::Exited(Some(0)), StageObs::Exited(Some(0)), false);
    assert_eq!(
        v,
        Verdict { kill_fetch: false, kill_encode: false, result: Some(PipelineResult::Succeeded) }
    );
}

#[test]
fn relay_cancel_finishes_chunk_then_stops() {
    let src = pattern(BUFFER_SIZE * 3);
    let (sink, end) = run_relay(&src, 1000, Some(10));
    assert_eq!(end, RelayEnd::Cancelled);
    assert_eq!(sink, src[..BUFFER_SIZE].to_vec());
}

#[test]
fn relay_write_of_nothing_fails() {
    let mut relay = Relay::new();
    relay.on_read(vec![1, 2, 3]);
    relay.on_written(0, false);
    assert_eq!(relay.action(), RelayAction::Close(RelayEnd::WriteFailed));
    assert_eq!(after_relay(RelayEnd::WriteFailed, false).result, Some(PipelineResult::IoError(IoFault::Write)));
}

#[test]
fn relay_read_error_stops() {
    let mut relay = Relay::new();
    relay.on_read_error();
    assert_eq!(relay.action(), RelayAction::Close(RelayEnd::ReadFailed));
    let v = after_relay(RelayEnd::ReadFailed, false);
    assert!(v.kill_fetch && v.kill_encode);
    assert_eq!(v.result, Some(PipelineResult::IoError(IoFault::Read)));
}

#[test]
fn signal_twice_is_signal_once() {
    let mut once = CancelSignal::new();
    assert!(!once.is_set());
    once.signal();
    let mut twice = CancelSignal::new();
    twice.signal();
    twice.signal();
    assert_eq!(once.is_set(), twice.is_set());
    twice.observe(false);
    assert!(twice.is_set());
    let mut fresh = CancelSignal::new();
    fresh.observe(false);
    assert!(!fresh.is_set());
    fresh.observe(true);
    assert!(fresh.is_set());
}

#[test]
fn kill_of_exited_stage_is_fine() {
    assert_eq!(kill_outcome(Stage::Fetch, StageObs::Exited(Some(0)), false), Ok(()));
    assert_eq!(kill_outcome(Stage::Encode, StageObs::Exited(None), false), Ok(()));
    assert_eq!(kill_outcome(Stage::Encode, StageObs::Running, true), Ok(()));
    assert_eq!(
        kill_outcome(Stage::Encode, StageObs::Running, false),
        Err(IoFault::Kill(Stage::Encode))
    );
}

#[test]
fn fetch_spawn_failure_ends_before_encode() {
    let step = after_spawn(Stage::Fetch, false, true);
    assert_eq!(
        step,
        SpawnStep::Fail { result: PipelineResult::SpawnError(Stage::Fetch), kill_fetch: false }
    );
    assert_eq!(after_spawn(Stage::Fetch, true, true), SpawnStep::SpawnEncode);
    assert_eq!(after_spawn(Stage::Fetch, true, false), SpawnStep::Run);
    assert_eq!(
        after_spawn(Stage::Encode, false, true),
        SpawnStep::Fail { result: PipelineResult::SpawnError(Stage::Encode), kill_fetch: true }
    );
}

#[test]
fn fetch_failure_kills_running_encoder() {
    let v = wait_step(StageObs::Exited(Some(2)), StageObs::Running, false);
    assert_eq!(
        v,
        Verdict {
            kill_fetch: false,
            kill_encode: true,
            result: Some(PipelineResult::StageFailed(Stage::Fetch, Some(2))),
        }
    );
    let v = wait_step(StageObs::Exited(None), StageObs::Exited(Some(0)), false);
    assert!(!v.kill_encode);
    assert_eq!(v.result, Some(PipelineResult::StageFailed(Stage::Fetch, None)));
}

#[test]
fn encoder_failure_kills_running_fetcher() {
    let v = wait_step(StageObs::Running, StageObs::Exited(Some(1)), false);
    assert!(v.kill_fetch && !v.kill_encode);
    assert_eq!(v.result, Some(PipelineResult::StageFailed(Stage::Encode, Some(1))));
}

#[test]
fn poll_failure_is_an_io_error() {
    let v = wait_step(StageObs::PollFailed, StageObs::Running, false);
    assert_eq!(v.result, Some(PipelineResult::IoError(IoFault::Poll(Stage::Fetch))));
    let v = wait_step(StageObs::Running, StageObs::PollFailed, false);
    assert_eq!(v.result, Some(PipelineResult::IoError(IoFault::Poll(Stage::Encode))));
}

#[test]
fn running_stages_keep_the_loop_waiting() {
    let v = wait_step(StageObs::Running, StageObs::Running, false);
    assert_eq!(v, Verdict { kill_fetch: false, kill_encode: false, result: None });
    let v = wait_step(StageObs::Exited(Some(0)), StageObs::Running, false);
    assert_eq!(v.result, None);
}

#[test]
fn single_stage_run_succeeds_alone() {
    let v = wait_step(StageObs::Exited(Some(0)), StageObs::Absent, false);
    assert_eq!(v.result, Some(PipelineResult::Succeeded));
}

#[test]
fn cancellation_mid_run_kills_both() {
    let mut signal = CancelSignal::new();
    let mut polls = 0;
    let verdict = loop {
        polls += 1;
        signal.observe(polls == 1);
        let v = wait_step(StageObs::Running, StageObs::Running, signal.is_set());
        if v.result.is_some() {
            break v;
        }
    };
    assert_eq!(polls, 1);
    assert_eq!(
        verdict,
        Verdict { kill_fetch: true, kill_encode: true, result: Some(PipelineResult::Cancelled) }
    );
    let v = after_relay(RelayEnd::Completed, true);
    assert_eq!(v.result, Some(PipelineResult::Cancelled));
    assert!(v.kill_fetch && v.kill_encode);
}

#[test]
fn exit_codes() {
    assert_eq!(exit_code(PipelineResult::Succeeded), 0);
    assert_eq!(exit_code(PipelineResult::Cancelled), 1);
    assert_eq!(exit_code(PipelineResult::StageFailed(Stage::Encode, Some(3))), 1);
}

#[test]
fn status_text_trims_and_redraws() {
    assert_eq!(status_text("[download]  5.0% of 10MiB  \n"), "\r\x1b[2K\r[download]  5.0% of 10MiB");
    assert_eq!(status_text(""), "\r\x1b[2K\r");
}

#[test]
fn drain_stops_at_end_and_on_failure() {
    assert_eq!(drain_step(LineRead::Line("a b\r\n".to_string())), Some("\r\x1b[2K\ra b".to_string()));
    assert_eq!(drain_step(LineRead::Line(String::new())), None);
    assert_eq!(drain_step(LineRead::End), None);
    assert_eq!(drain_step(LineRead::Failed), None);
}

#[test]
fn settle_prefers_the_verdict_result() {
    let fail = Err(IoFault::Kill(Stage::Fetch));
    assert_eq!(settle(Some(PipelineResult::Cancelled), fail, Ok(())), Some(PipelineResult::Cancelled));
    assert_eq!(settle(None, fail, Err(IoFault::Kill(Stage::Encode))), Some(PipelineResult::IoError(IoFault::Kill(Stage::Fetch))));
    assert_eq!(settle(None, Ok(()), Err(IoFault::Kill(Stage::Encode))), Some(PipelineResult::IoError(IoFault::Kill(Stage::Encode))));
    assert_eq!(settle(None, Ok(()), Ok(())), None);
}
