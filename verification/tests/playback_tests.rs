use rustsdlretro_core::playback::{
    pcm_write_step, playback_start, playback_step, PcmWriteAction, PcmWriteEvent, PlaybackAction, PlaybackEvent,
    PlaybackState, ERRNO_EAGAIN, ERRNO_EIO, ERRNO_EPIPE, MAX_STALL_POLLS,
};

#[test]
fn write_steps_follow_errno() {
    assert_eq!(pcm_write_step(10, 3, PcmWriteEvent::Wrote(5)), (15, 0, PcmWriteAction::Continue));
    assert_eq!(pcm_write_step(10, 3, PcmWriteEvent::Wrote(0)), (10, 4, PcmWriteAction::Wait));
    assert_eq!(pcm_write_step(10, 3, PcmWriteEvent::Failed(ERRNO_EAGAIN)), (10, 4, PcmWriteAction::Wait));
    assert_eq!(pcm_write_step(10, 3, PcmWriteEvent::Failed(ERRNO_EPIPE)), (10, 4, PcmWriteAction::Wait));
    assert_eq!(pcm_write_step(10, 3, PcmWriteEvent::Failed(ERRNO_EIO)), (10, 0, PcmWriteAction::Recover));
    assert_eq!(pcm_write_step(10, 3, PcmWriteEvent::Failed(22)), (10, 3, PcmWriteAction::Fail(22)));
    assert_eq!(
        pcm_write_step(0, MAX_STALL_POLLS - 1, PcmWriteEvent::Wrote(0)),
        (0, MAX_STALL_POLLS, PcmWriteAction::WaitThenFail(ERRNO_EPIPE))
    );
}

#[test]
fn five_failures_reopen_and_a_failed_reopen_goes_silent() {
    let mut s = playback_start();
    assert_eq!(playback_step(s, PlaybackEvent::Drained(0)).1, PlaybackAction::Idle);
    assert_eq!(playback_step(s, PlaybackEvent::Drained(64)).1, PlaybackAction::Write);
    for _ in 0..4 {
        let (n, a) = playback_step(s, PlaybackEvent::WriteFailed);
        assert_eq!(a, PlaybackAction::Backoff);
        s = n;
    }
    let (n, a) = playback_step(s, PlaybackEvent::WriteFailed);
    assert_eq!(a, PlaybackAction::Reopen);
    let (ok, _) = playback_step(n, PlaybackEvent::Reopened);
    assert_eq!(ok, PlaybackState { failures: 0, silent: false });
    let (silent, a) = playback_step(n, PlaybackEvent::ReopenFailed);
    assert_eq!(a, PlaybackAction::GoSilent);
    assert!(silent.silent);
    assert_eq!(playback_step(silent, PlaybackEvent::Drained(64)).1, PlaybackAction::Discard);
    assert_eq!(playback_step(silent, PlaybackEvent::Stopped).1, PlaybackAction::Exit);
    let (_, a) = playback_step(s, PlaybackEvent::Written);
    assert_eq!(a, PlaybackAction::Continue);
}
