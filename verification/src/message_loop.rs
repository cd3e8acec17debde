use vstd::prelude::*;

verus! {

/// `WM_USER`, the first message number free for private window classes.
pub const WM_USER: u32 = 0x0400;

/// `WM_TIMER`, sent when a timer of the window expires.
pub const WM_TIMER: u32 = 0x0113;

/// `WM_CLOSE`, sent when the window is asked to close.
pub const WM_CLOSE: u32 = 0x0010;

/// Posted to the messaging window to ask for message pump work; `wParam` holds the delay in
/// milliseconds, 0 meaning "now".
pub const WM_USER_ON_SCHEDULE_MESSAGE_PUMP_WORK: u32 = 0x0800;

/// Identifier of the one timer the messaging window uses.
pub const TIMER_PERFORM_MESSAGE_LOOP_WORK: usize = 0;

/// The shortest delay, in milliseconds, for which a timer is armed.
pub const MIN_TIMER_DELAY_MS: usize = 15;

/// What a message sent to the messaging window asks for.
#[derive(Clone, Copy, PartialEq, Eq, Structural, Debug)]
pub enum LoopMessage {
    /// Schedule message pump work after the given delay in milliseconds.
    SchedulePumpWork(usize),
    /// The message loop timer expired.
    TimerExpired,
    /// Anything else: hand the message to `DefWindowProc`.
    Default,
}

pub open spec fn spec_classify_message(message: u32, w_param: usize) -> LoopMessage {
    if message == WM_USER_ON_SCHEDULE_MESSAGE_PUMP_WORK {
        LoopMessage::SchedulePumpWork(w_param)
    } else if message == WM_TIMER && w_param == TIMER_PERFORM_MESSAGE_LOOP_WORK {
        LoopMessage::TimerExpired
    } else {
        LoopMessage::Default
    }
}

/// Decides what the messaging window's procedure does with a message.
pub fn classify_message(message: u32, w_param: usize) -> (r: LoopMessage)
    ensures
        r == spec_classify_message(message, w_param),
        message == 0x0800u32 ==> r == LoopMessage::SchedulePumpWork(w_param),
        message == 0x0113u32 && w_param == 0 ==> r == LoopMessage::TimerExpired,
        message != 0x0800u32 && !(message == 0x0113u32 && w_param == 0) ==> r
            == LoopMessage::Default,
{
    if message == WM_USER_ON_SCHEDULE_MESSAGE_PUMP_WORK {
        LoopMessage::SchedulePumpWork(w_param)
    } else if message == WM_TIMER && w_param == TIMER_PERFORM_MESSAGE_LOOP_WORK {
        LoopMessage::TimerExpired
    } else {
        LoopMessage::Default
    }
}

/// A request for pump work (`WM_USER + 0x0400`) is honoured whatever delay it carries, 0 included;
/// only the loop's own timer (id 0) counts as its expiry; every other message goes to
/// `DefWindowProc`.
pub proof fn lemma_messages_are_dispatched(message: u32, w_param: usize)
    ensures
        WM_USER_ON_SCHEDULE_MESSAGE_PUMP_WORK == WM_USER + 0x0400,
        message == WM_USER + 0x0400 ==> spec_classify_message(message, w_param)
            == LoopMessage::SchedulePumpWork(w_param),
        message == 0x0113u32 && w_param == 0 ==> spec_classify_message(message, w_param)
            == LoopMessage::TimerExpired,
        message == 0x0113u32 && w_param != 0 ==> spec_classify_message(message, w_param)
            == LoopMessage::Default,
        message != WM_USER + 0x0400 && message != 0x0113u32 ==> spec_classify_message(
            message,
            w_param,
        ) == LoopMessage::Default,
        spec_classify_message(message, w_param) matches LoopMessage::SchedulePumpWork(d) ==> d
            == w_param,
{
}

/// One step that the owner of the messaging window performs, in the order given.
#[derive(Clone, Copy, PartialEq, Eq, Structural, Debug)]
pub enum LoopAction {
    /// Kill the message loop timer (`KillTimer(window, TIMER_PERFORM_MESSAGE_LOOP_WORK)`).
    KillTimer,
    /// Arm the message loop timer to expire after the given number of milliseconds.
    SetTimer(u32),
    /// Run one unit of Chromium message loop work, then call
    /// [`MessageLoop::message_loop_work_done`] and perform what it returns.
    DoWork,
    /// Post `WM_USER_ON_SCHEDULE_MESSAGE_PUMP_WORK` with the given delay to the messaging window.
    PostScheduleWork(usize),
}

/// State of the window that drives Chromium's message loop from BYOND's thread.
#[derive(Clone, Copy, PartialEq, Eq, Structural, Debug)]
pub struct MessageLoop {
    /// The messaging window; it is never visible and only receives timer and schedule messages.
    pub window: isize,
    /// Set when a request for work arrived while a unit of work was running.
    pub was_reentrant: bool,
    /// True while a unit of work runs.
    pub working: bool,
}

pub open spec fn spec_do_work(s: MessageLoop) -> (MessageLoop, Seq<LoopAction>) {
    if !s.working {
        (MessageLoop { working: true, was_reentrant: false, ..s }, seq![LoopAction::DoWork])
    } else {
        (MessageLoop { was_reentrant: true, ..s }, seq![LoopAction::PostScheduleWork(1)])
    }
}

pub open spec fn spec_work_done(s: MessageLoop) -> (MessageLoop, Seq<LoopAction>) {
    (
        MessageLoop { working: false, ..s },
        seq![LoopAction::PostScheduleWork(if s.was_reentrant { 0 } else { 1 })],
    )
}

pub open spec fn timer_delay(delay_ms: usize) -> u32 {
    (if delay_ms < MIN_TIMER_DELAY_MS { MIN_TIMER_DELAY_MS } else { delay_ms }) as u32
}

pub open spec fn spec_schedule(s: MessageLoop, delay_ms: usize) -> (MessageLoop, Seq<LoopAction>) {
    if delay_ms == 0 {
        let (t, a) = spec_do_work(s);
        (t, seq![LoopAction::KillTimer] + a)
    } else {
        (s, seq![LoopAction::KillTimer, LoopAction::SetTimer(timer_delay(delay_ms))])
    }
}

pub open spec fn spec_timer_expired(s: MessageLoop) -> (MessageLoop, Seq<LoopAction>) {
    let (t, a) = spec_do_work(s);
    (t, seq![LoopAction::KillTimer] + a)
}

/// The state after the running unit of work received `k` further requests for work.
pub open spec fn after_requests(s: MessageLoop, k: nat) -> MessageLoop
    decreases k,
{
    if k == 0 {
        s
    } else {
        spec_do_work(after_requests(s, (k - 1) as nat)).0
    }
}

/// Every request for work is answered by exactly one step: the work itself when none is running,
/// otherwise a new request posted for later. The window never changes, and work that starts
/// starts with no blocked request on record.
pub proof fn lemma_each_request_is_answered(s: MessageLoop)
    ensures
        spec_do_work(s).1.len() == 1,
        !s.working ==> spec_do_work(s).1[0] == LoopAction::DoWork && !spec_do_work(s).0.was_reentrant,
        s.working ==> spec_do_work(s).1[0] == LoopAction::PostScheduleWork(1) && spec_do_work(s).0.was_reentrant,
        spec_do_work(s).0.window == s.window,
        spec_work_done(s).1.len() == 1,
        spec_work_done(s).0.window == s.window,
        spec_schedule(s, 0).0.window == s.window,
        spec_timer_expired(s).0.window == s.window,
{
}

/// At most one unit of message loop work runs at a time: a request for work starts one exactly
/// when none is running, and afterwards one is running.
pub proof fn lemma_work_is_exclusive(s: MessageLoop)
    ensures
        spec_do_work(s).1.contains(LoopAction::DoWork) <==> !s.working,
        spec_do_work(s).0.working,
{
    if !s.working {
        assert(spec_do_work(s).1[0] == LoopAction::DoWork);
    } else {
        assert(spec_do_work(s).1.len() == 1);
        assert(spec_do_work(s).1[0] != LoopAction::DoWork);
    }
}

/// A request for work that arrives while a unit runs is not lost: the running unit, when it
/// finishes, schedules work again at once. Without such a request it schedules work after a
/// delay. Either way no unit runs afterwards.
pub proof fn lemma_blocked_request_reschedules_now(s: MessageLoop, k: nat)
    requires
        !s.working,
    ensures
        ({
            let running = spec_do_work(s).0;
            let before_done = after_requests(running, k);
            &&& before_done.working
            &&& spec_work_done(before_done).1 == seq![
                LoopAction::PostScheduleWork(if k > 0 { 0 } else { 1 }),
            ]
            &&& !spec_work_done(before_done).0.working
        }),
    decreases k,
{
    if k > 0 {
        lemma_blocked_request_reschedules_now(s, (k - 1) as nat);
    }
}

/// A delayed request kills the current timer and arms one for at least the requested delay and
/// at least `MIN_TIMER_DELAY_MS` milliseconds; it starts no work.
pub proof fn lemma_timer_respects_minimum(s: MessageLoop, delay_ms: usize)
    requires
        0 < delay_ms <= u32::MAX,
    ensures
        spec_schedule(s, delay_ms).0 == s,
        spec_schedule(s, delay_ms).1 == seq![
            LoopAction::KillTimer,
            LoopAction::SetTimer(timer_delay(delay_ms)),
        ],
        timer_delay(delay_ms) >= MIN_TIMER_DELAY_MS,
        timer_delay(delay_ms) >= delay_ms,
        delay_ms >= MIN_TIMER_DELAY_MS ==> timer_delay(delay_ms) == delay_ms,
{
}

/// A request without delay and an expired timer both kill the timer first, then request work.
pub proof fn lemma_timer_killed_before_work(s: MessageLoop)
    ensures
        spec_timer_expired(s).1[0] == LoopAction::KillTimer,
        spec_timer_expired(s).1.drop_first() == spec_do_work(s).1,
        spec_timer_expired(s).0 == spec_do_work(s).0,
        spec_schedule(s, 0) == spec_timer_expired(s),
{
    assert(spec_timer_expired(s).1.drop_first() =~= spec_do_work(s).1);
}

impl MessageLoop {
    /// A message loop for the given messaging window, with no work running.
    pub fn new(window: isize) -> (r: MessageLoop)
        ensures
            r.window == window,
            !r.working,
            !r.was_reentrant,
    {
        MessageLoop { window, was_reentrant: false, working: false }
    }

    /// Starts a unit of message loop work, unless one is already running: then the running unit
    /// is told that it blocked another, and a new request is posted.
    pub fn do_message_loop_work(&mut self) -> (actions: Vec<LoopAction>)
        ensures
            (*final(self), actions@) == spec_do_work(*old(self)),
    {
        let mut actions: Vec<LoopAction> = Vec::new();
        if !self.working {
            self.working = true;
            self.was_reentrant = false;
            actions.push(LoopAction::DoWork);
        } else {
            self.was_reentrant = true;
            actions.push(LoopAction::PostScheduleWork(1));
        }
        actions
    }

    /// Ends the running unit of work. If another request arrived meanwhile, work is scheduled
    /// again at once; otherwise it is scheduled after a delay.
    pub fn message_loop_work_done(&mut self) -> (actions: Vec<LoopAction>)
        requires
            old(self).working,
        ensures
            (*final(self), actions@) == spec_work_done(*old(self)),
    {
        let delay: usize = if self.was_reentrant { 0 } else { 1 };
        self.working = false;
        let mut actions: Vec<LoopAction> = Vec::new();
        actions.push(LoopAction::PostScheduleWork(delay));
        actions
    }

    /// Replaces the current timer: work runs at once when `delay_ms` is 0, otherwise a timer is
    /// armed for at least `MIN_TIMER_DELAY_MS` milliseconds.
    pub fn on_schedule_message_pump_work(&mut self, delay_ms: usize) -> (actions: Vec<LoopAction>)
        ensures
            (*final(self), actions@) == spec_schedule(*old(self), delay_ms),
    {
        let mut actions: Vec<LoopAction> = Vec::new();
        actions.push(LoopAction::KillTimer);
        if delay_ms == 0 {
            let mut work = self.do_message_loop_work();
            actions.append(&mut work);
            return actions;
        }
        let delay: usize = if delay_ms < MIN_TIMER_DELAY_MS { MIN_TIMER_DELAY_MS } else { delay_ms };
        actions.push(LoopAction::SetTimer(delay as u32));
        actions
    }

    /// The timer is killed before the work starts, so that it does not repeat.
    pub fn on_timer_expired(&mut self) -> (actions: Vec<LoopAction>)
        ensures
            (*final(self), actions@) == spec_timer_expired(*old(self)),
    {
        let mut actions: Vec<LoopAction> = Vec::new();
        actions.push(LoopAction::KillTimer);
        let mut work = self.do_message_loop_work();
        actions.append(&mut work);
        actions
    }
}

} // verus!
