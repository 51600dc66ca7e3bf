use terminal_cell::control_steps::{signal_lease, terminal_lease};
use terminal_cell::signal::{InputGateLease, PromptPattern, PromptPatternEntry, PromptState};
use terminal_cell::worker::{signal_worker_lifecycle, signal_worker_lifecycles};
use terminal_cell::{
    signal, TerminalInputGateLease, TerminalInputGateSequence, TerminalSignalControlState,
    TerminalWorkerKind, TerminalWorkerLifecycle, TerminalWorkerStop,
};

fn literal(byte: i64) -> PromptPattern {
    PromptPattern::LiteralSuffix(vec![byte])
}

fn lease(identifier: i64) -> InputGateLease {
    InputGateLease {
        input_gate_lease_identifier: identifier,
    }
}

fn gate_lease(value: u64) -> TerminalInputGateLease {
    TerminalInputGateLease::new(TerminalInputGateSequence::new(value))
}

fn listing(state: &TerminalSignalControlState) -> Vec<PromptPatternEntry> {
    let mut entries = state.prompt_pattern_entries();
    entries.sort_by(|one, other| one.pattern_identifier.cmp(&other.pattern_identifier));
    entries
}

#[test]
fn patterns_get_identifiers_of_their_own() {
    let mut state = TerminalSignalControlState::new();
    let first = state.register_prompt_pattern(literal(1));
    let second = state.register_prompt_pattern(literal(1));
    assert_eq!(first, "prompt-pattern-1");
    assert_eq!(second, "prompt-pattern-2");
    assert_eq!(state.prompt_pattern(&first), Some(literal(1)));

    state.unregister_prompt_pattern(&first);
    let third = state.register_prompt_pattern(literal(3));
    assert_eq!(third, "prompt-pattern-3");
    assert_eq!(state.prompt_pattern(&first), None);
    assert_eq!(
        listing(&state),
        vec![
            PromptPatternEntry {
                pattern_identifier: second,
                pattern: literal(1),
            },
            PromptPatternEntry {
                pattern_identifier: third,
                pattern: literal(3),
            },
        ]
    );
}

#[test]
fn identifiers_have_all_their_digits() {
    let mut state = TerminalSignalControlState::new();
    for _ in 0..104 {
        state.register_prompt_pattern(literal(0));
    }
    assert_eq!(
        state.register_prompt_pattern(literal(0)),
        "prompt-pattern-105"
    );
    assert_eq!(state.prompt_pattern_entries().len(), 105);
}

#[test]
fn unregistering_undoes_registering() {
    let mut state = TerminalSignalControlState::new();
    let kept = state.register_prompt_pattern(literal(7));
    let before = listing(&state);
    let identifier = state.register_prompt_pattern(literal(8));
    state.unregister_prompt_pattern(&identifier);
    assert_eq!(listing(&state), before);
    state.unregister_prompt_pattern(&"no such pattern".to_string());
    assert_eq!(listing(&state), before);
    assert_eq!(state.prompt_pattern(&kept), Some(literal(7)));
}

#[test]
fn leases_keep_their_own_prompt_states() {
    let mut state = TerminalSignalControlState::new();
    state.record_signal_lease(lease(1), PromptState::Clean);
    state.record_signal_lease(lease(-1), PromptState::Dirty(4));
    assert_eq!(
        state.signal_lease_prompt_state(&lease(1)),
        Some(PromptState::Clean)
    );
    assert_eq!(
        state.signal_lease_prompt_state(&lease(-1)),
        Some(PromptState::Dirty(4))
    );
    assert_eq!(state.signal_lease_prompt_state(&lease(2)), None);

    state.release_signal_lease(&lease(1));
    assert_eq!(state.signal_lease_prompt_state(&lease(1)), None);
    assert_eq!(
        state.signal_lease_prompt_state(&lease(-1)),
        Some(PromptState::Dirty(4))
    );
    state.release_terminal_lease(&gate_lease(u64::MAX));
    assert_eq!(state.signal_lease_prompt_state(&lease(-1)), None);
}

#[test]
fn leases_translate_both_ways() {
    for value in [0, 1, i64::MAX as u64, 1 << 63, u64::MAX] {
        assert_eq!(terminal_lease(&signal_lease(gate_lease(value))), gate_lease(value));
    }
    assert_eq!(signal_lease(gate_lease(u64::MAX)), lease(-1));
    assert_eq!(terminal_lease(&lease(i64::MIN)), gate_lease(1 << 63));
}

#[test]
fn worker_lifecycles_keep_worker_and_reason() {
    assert_eq!(
        signal_worker_lifecycles(vec![
            TerminalWorkerLifecycle::Started(TerminalWorkerKind::ViewerFanout),
            TerminalWorkerLifecycle::Stopped {
                worker: TerminalWorkerKind::ChildExitWatcher,
                reason: TerminalWorkerStop::ChildExited("exit code 7".to_string()),
            },
        ]),
        vec![
            signal::TerminalWorkerLifecycle::Started(signal::TerminalWorkerKind::ViewerFanout),
            signal::TerminalWorkerLifecycle::Stopped(signal::TerminalWorkerStop {
                terminal_worker_kind: signal::TerminalWorkerKind::ChildExitWatcher,
                terminal_worker_stop_reason: signal::TerminalWorkerStopReason::ChildExited(
                    "exit code 7".to_string()
                ),
            }),
        ]
    );
}

#[test]
fn every_worker_and_every_reason_has_its_name() {
    let text = "text".to_string();
    let workers = vec![
        (TerminalWorkerKind::InputWriter, signal::TerminalWorkerKind::InputWriter),
        (TerminalWorkerKind::ViewerFanout, signal::TerminalWorkerKind::ViewerFanout),
        (TerminalWorkerKind::TranscriptScriber, signal::TerminalWorkerKind::TranscriptScriber),
        (TerminalWorkerKind::OutputReader, signal::TerminalWorkerKind::OutputReader),
        (TerminalWorkerKind::ChildExitWatcher, signal::TerminalWorkerKind::ChildExitWatcher),
        (TerminalWorkerKind::SocketAcceptLoop, signal::TerminalWorkerKind::SocketAcceptLoop),
        (
            TerminalWorkerKind::AttachConnectionPump,
            signal::TerminalWorkerKind::AttachConnectionPump,
        ),
    ];
    for (worker, expected) in workers {
        assert_eq!(
            signal_worker_lifecycle(TerminalWorkerLifecycle::Started(worker)),
            signal::TerminalWorkerLifecycle::Started(expected)
        );
    }
    let reasons = vec![
        (
            TerminalWorkerStop::InputCommandChannelClosed,
            signal::TerminalWorkerStopReason::InputCommandChannelClosed,
        ),
        (
            TerminalWorkerStop::InputWriteFailed(text.clone()),
            signal::TerminalWorkerStopReason::InputWriteFailed(text.clone()),
        ),
        (
            TerminalWorkerStop::OutputCommandChannelClosed,
            signal::TerminalWorkerStopReason::OutputCommandChannelClosed,
        ),
        (
            TerminalWorkerStop::TranscriptNoticeChannelClosed,
            signal::TerminalWorkerStopReason::TranscriptNoticeChannelClosed,
        ),
        (
            TerminalWorkerStop::OutputReaderFinished,
            signal::TerminalWorkerStopReason::OutputReaderFinished,
        ),
        (
            TerminalWorkerStop::OutputReadFailed(text.clone()),
            signal::TerminalWorkerStopReason::OutputReadFailed(text.clone()),
        ),
        (
            TerminalWorkerStop::OutputPortClosed,
            signal::TerminalWorkerStopReason::OutputPortClosed,
        ),
        (
            TerminalWorkerStop::ChildExited(text.clone()),
            signal::TerminalWorkerStopReason::ChildExited(text.clone()),
        ),
        (
            TerminalWorkerStop::ChildWaitFailed(text.clone()),
            signal::TerminalWorkerStopReason::ChildWaitFailed(text.clone()),
        ),
        (
            TerminalWorkerStop::SocketAcceptFailed(text.clone()),
            signal::TerminalWorkerStopReason::SocketAcceptFailed(text.clone()),
        ),
        (
            TerminalWorkerStop::AttachConnectionClosed,
            signal::TerminalWorkerStopReason::AttachConnectionClosed,
        ),
        (
            TerminalWorkerStop::AttachConnectionFailed(text.clone()),
            signal::TerminalWorkerStopReason::AttachConnectionFailed(text),
        ),
    ];
    for (reason, expected) in reasons {
        assert_eq!(
            signal_worker_lifecycle(TerminalWorkerLifecycle::Stopped {
                worker: TerminalWorkerKind::InputWriter,
                reason,
            }),
            signal::TerminalWorkerLifecycle::Stopped(signal::TerminalWorkerStop {
                terminal_worker_kind: signal::TerminalWorkerKind::InputWriter,
                terminal_worker_stop_reason: expected,
            })
        );
    }
}
