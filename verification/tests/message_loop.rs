use dreamloader::message_loop::{
    classify_message, LoopAction, LoopMessage, MessageLoop, WM_CLOSE, WM_TIMER,
    WM_USER_ON_SCHEDULE_MESSAGE_PUMP_WORK,
};

#[test]
fn schedule_without_delay_runs_work_now() {
    let mut ml = MessageLoop::new(7);
    let actions = ml.on_schedule_message_pump_work(0);
    assert_eq!(actions, vec![LoopAction::KillTimer, LoopAction::DoWork]);
    assert!(ml.working);
    assert_eq!(ml.window, 7);
}

#[test]
fn short_delay_is_raised_to_minimum() {
    let mut ml = MessageLoop::new(1);
    let actions = ml.on_schedule_message_pump_work(1);
    assert_eq!(actions, vec![LoopAction::KillTimer, LoopAction::SetTimer(15)]);
    assert!(!ml.working);
}

#[test]
fn long_delay_is_kept() {
    let mut ml = MessageLoop::new(1);
    let actions = ml.on_schedule_message_pump_work(250);
    assert_eq!(actions, vec![LoopAction::KillTimer, LoopAction::SetTimer(250)]);
    let actions = ml.on_schedule_message_pump_work(15);
    assert_eq!(actions, vec![LoopAction::KillTimer, LoopAction::SetTimer(15)]);
}

#[test]
fn work_without_reentry_schedules_delayed_work() {
    let mut ml = MessageLoop::new(1);
    assert_eq!(ml.do_message_loop_work(), vec![LoopAction::DoWork]);
    assert_eq!(ml.message_loop_work_done(), vec![LoopAction::PostScheduleWork(1)]);
    assert!(!ml.working);
}

#[test]
fn reentrant_request_reschedules_immediately() {
    let mut ml = MessageLoop::new(1);
    assert_eq!(ml.do_message_loop_work(), vec![LoopAction::DoWork]);
    // A nested request while the unit of work runs is refused but remembered.
    assert_eq!(ml.do_message_loop_work(), vec![LoopAction::PostScheduleWork(1)]);
    assert_eq!(ml.do_message_loop_work(), vec![LoopAction::PostScheduleWork(1)]);
    assert!(ml.was_reentrant);
    assert_eq!(ml.message_loop_work_done(), vec![LoopAction::PostScheduleWork(0)]);
    // The next unit starts clean.
    assert_eq!(ml.do_message_loop_work(), vec![LoopAction::DoWork]);
    assert!(!ml.was_reentrant);
    assert_eq!(ml.message_loop_work_done(), vec![LoopAction::PostScheduleWork(1)]);
}

#[test]
fn on_timer_expired_kills_timer_then_works() {
    let mut ml = MessageLoop::new(1);
    assert_eq!(ml.on_timer_expired(), vec![LoopAction::KillTimer, LoopAction::DoWork]);
    assert_eq!(
        ml.on_timer_expired(),
        vec![LoopAction::KillTimer, LoopAction::PostScheduleWork(1)]
    );
}

#[test]
fn classify_messages() {
    assert_eq!(WM_USER_ON_SCHEDULE_MESSAGE_PUMP_WORK, 0x0400 + 0x0400);
    assert_eq!(
        classify_message(WM_USER_ON_SCHEDULE_MESSAGE_PUMP_WORK, 3),
        LoopMessage::SchedulePumpWork(3)
    );
    assert_eq!(classify_message(WM_TIMER, 0), LoopMessage::TimerExpired);
    assert_eq!(classify_message(WM_TIMER, 1), LoopMessage::Default);
    assert_eq!(classify_message(WM_CLOSE, 0), LoopMessage::Default);
    assert_eq!(classify_message(0x000F, 0), LoopMessage::Default);
}
