//! The browser session that saves an episode as a draft, as a state machine.
//!
//! The machine holds a script of steps and hands out one action at a time;
//! its caller performs the action against the browser and reports what
//! happened. The machine decides what a missing element means, when the run
//! has failed, and when the automation server has to be shut down.

use vstd::prelude::*;

verus! {

/// The stages of an upload, in the order in which a run passes them.
#[derive(Clone, Copy, Debug, PartialEq, Eq, Structural)]
pub enum Stage {
    Connecting,
    Authenticating,
    NavigatingToComposer,
    UploadingAudio,
    FillingTitle,
    FillingDescription,
    RequestingSave,
    Confirmed,
    Failed,
}

/// A page that the browser is sent to.
#[derive(Clone, Copy, Debug, PartialEq, Eq, Structural)]
pub enum Page {
    Home,
    Composer,
}

/// An element of a page that a step acts on.
#[derive(Clone, Copy, Debug, PartialEq, Eq, Structural)]
pub enum Target {
    LoginLink,
    ContinueWithProvider,
    IdentifierInput,
    ContinueButton,
    PasswordOption,
    PasswordInput,
    LoginById,
    LoginByTestAttribute,
    LoginByText,
    SelectFile,
    FileInput,
    TitleInput,
    DescriptionBox,
    CloseButton,
    SaveDraft,
    NextButton,
    PublishNow,
    ScheduleButton,
}

/// A configured text that a step types into an element.
#[derive(Clone, Copy, Debug, PartialEq, Eq, Structural)]
pub enum Field {
    Identifier,
    Password,
    AudioPath,
    Title,
}

/// A key chord sent to an element.
#[derive(Clone, Copy, Debug, PartialEq, Eq, Structural)]
pub enum Chord {
    SelectAll,
    Backspace,
}

/// What one step of the script does.
#[derive(Clone, Copy, Debug, PartialEq, Eq, Structural)]
pub enum Op {
    /// Start the automation server.
    StartDriver,
    /// Read the account's identifier and password from the configuration.
    LoadCredentials,
    /// Read the path of the audio file from the configuration.
    LoadAudioPath,
    /// Open a session against the automation server.
    Connect,
    /// Send the browser to a page.
    Goto(Page),
    /// Wait for a time drawn from the range, in milliseconds.
    Pause { min_ms: u64, max_ms: u64 },
    /// The same, but only after a step that found its element.
    PauseIfActed { min_ms: u64, max_ms: u64 },
    /// Find an element and click it. An optional element may be absent.
    Click { target: Target, optional: bool },
    /// Find, within a bounded wait, the first of three renderings of one
    /// control that is present, and click it.
    ClickAny { first: Target, second: Target, third: Target },
    /// Find an element and type a configured text into it; `patient` waits
    /// for the element to appear.
    Fill { target: Target, field: Field, patient: bool },
    /// Send a key chord to an element.
    Press { target: Target, chord: Chord },
    /// Type one character into an element.
    TypeChar { target: Target, ch: char },
    /// Close the session.
    CloseSession,
}

/// One step of the script: what it does, and the stage it belongs to.
#[derive(Clone, Copy, Debug, PartialEq, Eq, Structural)]
pub struct Step {
    pub stage: Stage,
    pub op: Op,
}

/// What the caller is asked to do next.
#[derive(Clone, Copy, Debug, PartialEq, Eq, Structural)]
pub enum Action {
    StartDriver,
    LoadCredentials,
    LoadAudioPath,
    Connect,
    Goto(Page),
    Wait { min_ms: u64, max_ms: u64 },
    Click { target: Target, patient: bool },
    Fill { target: Target, field: Field, patient: bool },
    Press { target: Target, chord: Chord },
    TypeChar { target: Target, ch: char },
    CloseSession,
    /// Terminate the automation server and wait until it is gone.
    ReleaseDriver,
    /// The run is over; nothing is left to do.
    Stop { confirmed: bool },
}

/// What happened to the last action.
#[derive(Clone, Copy, Debug, PartialEq, Eq, Structural)]
pub enum Event {
    /// It was carried out.
    Done,
    /// Its element was not found.
    Missing,
    /// It failed in any other way.
    Broken,
}

/// The automation server, as the machine knows it.
#[derive(Clone, Copy, Debug, PartialEq, Eq, Structural)]
pub enum Driver {
    Idle,
    Running,
    Released,
}

/// Where a run stands between its steps and its end.
#[derive(Clone, Copy, Debug, PartialEq, Eq, Structural)]
pub enum Phase {
    /// The action of the step at `position` is under way.
    Working,
    /// The release of the automation server is under way.
    Releasing,
    /// Nothing is under way any more.
    Finished,
}

/// The state of one run.
#[derive(Clone, Copy, Debug, PartialEq, Eq, Structural)]
pub struct Run {
    pub phase: Phase,
    pub position: usize,
    /// Which rendering of a `ClickAny` control is being tried: 0, 1 or 2.
    pub attempt: u8,
    /// Whether the last step found its element.
    pub acted: bool,
    pub driver: Driver,
    pub failed: bool,
}

/// Place of a stage in the order of a run.
pub open spec fn stage_rank(stage: Stage) -> nat {
    match stage {
        Stage::Connecting => 0,
        Stage::Authenticating => 1,
        Stage::NavigatingToComposer => 2,
        Stage::UploadingAudio => 3,
        Stage::FillingTitle => 4,
        Stage::FillingDescription => 5,
        Stage::RequestingSave => 6,
        Stage::Confirmed => 7,
        Stage::Failed => 8,
    }
}

/// Whether a step goes on when its element is absent.
pub open spec fn tolerates_absence(op: Op) -> bool {
    match op {
        Op::Click { target, optional } => optional,
        _ => false,
    }
}

/// The rendering of a `ClickAny` control that is tried at `attempt`.
pub open spec fn rendering(first: Target, second: Target, third: Target, attempt: u8) -> Target {
    if attempt == 0 {
        first
    } else if attempt == 1 {
        second
    } else {
        third
    }
}

/// The action that carries out `op`, at the given attempt.
pub open spec fn action_of(op: Op, attempt: u8) -> Action {
    match op {
        Op::StartDriver => Action::StartDriver,
        Op::LoadCredentials => Action::LoadCredentials,
        Op::LoadAudioPath => Action::LoadAudioPath,
        Op::Connect => Action::Connect,
        Op::Goto(page) => Action::Goto(page),
        Op::Pause { min_ms, max_ms } => Action::Wait { min_ms, max_ms },
        Op::PauseIfActed { min_ms, max_ms } => Action::Wait { min_ms, max_ms },
        Op::Click { target, optional } => Action::Click { target, patient: false },
        Op::ClickAny { first, second, third } => Action::Click {
            target: rendering(first, second, third, attempt),
            patient: true,
        },
        Op::Fill { target, field, patient } => Action::Fill { target, field, patient },
        Op::Press { target, chord } => Action::Press { target, chord },
        Op::TypeChar { target, ch } => Action::TypeChar { target, ch },
        Op::CloseSession => Action::CloseSession,
    }
}

/// The run before its first step.
pub open spec fn initial_run() -> Run {
    Run {
        phase: Phase::Working,
        position: 0,
        attempt: 0,
        acted: true,
        driver: Driver::Idle,
        failed: false,
    }
}

/// Ending a run: a running automation server is released first.
pub open spec fn settle(run: Run, failed: bool) -> (Run, Action) {
    if run.driver == Driver::Running {
        (
            Run { phase: Phase::Releasing, driver: Driver::Released, failed, ..run },
            Action::ReleaseDriver,
        )
    } else {
        (Run { phase: Phase::Finished, failed, ..run }, Action::Stop { confirmed: !failed })
    }
}

/// Taking up the step at `position`. A pause that belongs to an element that
/// was absent is passed over; a second start of the automation server fails
/// the run; past the last step the run ends well.
pub open spec fn enter(script: Seq<Step>, run: Run, position: int) -> (Run, Action)
    recommends
        0 <= position <= script.len() <= usize::MAX,
    decreases script.len() - position,
{
    let here = Run { position: position as usize, attempt: 0, ..run };
    if position < 0 || position >= script.len() {
        settle(here, false)
    } else {
        match script[position].op {
            Op::PauseIfActed { min_ms, max_ms } if !run.acted => enter(script, run, position + 1),
            Op::StartDriver if run.driver != Driver::Idle => settle(here, true),
            op => (here, action_of(op, 0)),
        }
    }
}

/// The first action of a run, and the run while it is under way.
pub open spec fn begin(script: Seq<Step>) -> (Run, Action) {
    enter(script, initial_run(), 0)
}

/// The run after `event` was reported for the action under way, and the
/// action to take next.
pub open spec fn step(script: Seq<Step>, run: Run, event: Event) -> (Run, Action) {
    match run.phase {
        Phase::Finished => (run, Action::Stop { confirmed: !run.failed }),
        Phase::Releasing => (
            Run { phase: Phase::Finished, ..run },
            Action::Stop { confirmed: !run.failed },
        ),
        Phase::Working => {
            if run.position >= script.len() {
                settle(run, true)
            } else {
                let op = script[run.position as int].op;
                match event {
                    Event::Broken => settle(run, true),
                    Event::Done => {
                        let driver = if op == Op::StartDriver && run.driver == Driver::Idle {
                            Driver::Running
                        } else {
                            run.driver
                        };
                        enter(
                            script,
                            Run { acted: true, driver, ..run },
                            run.position + 1,
                        )
                    },
                    Event::Missing => {
                        if tolerates_absence(op) {
                            enter(
                                script,
                                Run { acted: false, ..run },
                                run.position + 1,
                            )
                        } else if op is ClickAny && run.attempt < 2 {
                            let attempt = (run.attempt + 1) as u8;
                            (Run { attempt, ..run }, action_of(op, attempt))
                        } else {
                            settle(run, true)
                        }
                    },
                }
            }
        },
    }
}

/// The stage that a run is in.
pub open spec fn stage_of(script: Seq<Step>, run: Run) -> Stage {
    if run.failed {
        Stage::Failed
    } else if run.phase != Phase::Working || run.position >= script.len() {
        Stage::Confirmed
    } else {
        script[run.position as int].stage
    }
}

/// What holds of every run that the machine hands back: once no step is
/// under way, no automation server is left running; and no step is under
/// way in a run that has failed.
pub open spec fn run_ok(run: Run) -> bool {
    &&& run.phase != Phase::Working ==> run.driver != Driver::Running
    &&& run.failed ==> run.phase != Phase::Working
}

/// Whether `event` fails the step `op` at the given attempt.
pub open spec fn fails_step(op: Op, attempt: u8, event: Event) -> bool {
    match event {
        Event::Done => false,
        Event::Broken => true,
        Event::Missing => !tolerates_absence(op) && !(op is ClickAny && attempt < 2),
    }
}

/// The run and the action under way after the given events were reported,
/// one after the other, from the beginning.
pub open spec fn run_after(script: Seq<Step>, events: Seq<Event>) -> (Run, Action)
    decreases events.len(),
{
    if events.len() == 0 {
        begin(script)
    } else {
        step(script, run_after(script, events.drop_last()).0, events.last())
    }
}

/// How often the release of the automation server was handed out up to and
/// including the action under way after `events`.
pub open spec fn releases(script: Seq<Step>, events: Seq<Event>) -> nat
    decreases events.len(),
{
    let now: nat = if run_after(script, events).1 == Action::ReleaseDriver {
        1
    } else {
        0
    };
    if events.len() == 0 {
        now
    } else {
        releases(script, events.drop_last()) + now
    }
}

/// What taking up a step does to a run: it never goes back in the script,
/// and it touches the automation server only to release it when the run
/// ends there.
pub proof fn lemma_enter(script: Seq<Step>, run: Run, position: int)
    requires
        0 <= position <= script.len() <= usize::MAX,
        run.phase == Phase::Working,
        !run.failed,
    ensures
        ({
            let (next, action) = enter(script, run, position);
            &&& run_ok(next)
            &&& next.position >= position
            &&& next.position <= script.len()
            &&& next.phase == Phase::Working ==> next.position < script.len() && next.driver
                == run.driver && next.failed == run.failed && action != Action::ReleaseDriver
                && !(action is Stop)
            &&& next.phase == Phase::Releasing <==> action == Action::ReleaseDriver
            &&& next.phase == Phase::Finished <==> action is Stop
            &&& action == Action::ReleaseDriver ==> run.driver == Driver::Running && next.driver
                == Driver::Released
            &&& action is Stop ==> next.driver == run.driver && action == (Action::Stop {
                confirmed: !next.failed,
            })
        }),
    decreases script.len() - position,
{
    if position < script.len() {
        match script[position].op {
            Op::PauseIfActed { min_ms, max_ms } if !run.acted => {
                lemma_enter(script, run, position + 1);
            },
            _ => {},
        }
    }
}

/// One move of the machine keeps a run sound, never goes back in the script,
/// and leaves no automation server running when it stops the run. The
/// release is never handed out for a server that was released before.
pub proof fn lemma_step(script: Seq<Step>, run: Run, event: Event)
    requires
        script.len() <= usize::MAX,
        run_ok(run),
    ensures
        ({
            let (next, action) = step(script, run, event);
            &&& run_ok(next)
            &&& next.position >= run.position
            &&& action is Stop ==> next.driver != Driver::Running && next.phase == Phase::Finished
            &&& action == Action::ReleaseDriver ==> run.driver != Driver::Released && next.driver
                == Driver::Released
            &&& next.phase == Phase::Releasing <==> action == Action::ReleaseDriver
            &&& run.driver == Driver::Released ==> next.driver == Driver::Released
            &&& run.failed ==> next.failed
        }),
{
    if run.phase == Phase::Working && run.position < script.len() {
        let op = script[run.position as int].op;
        let driver = if op == Op::StartDriver && run.driver == Driver::Idle {
            Driver::Running
        } else {
            run.driver
        };
        lemma_enter(script, Run { acted: true, driver, ..run }, run.position + 1);
        lemma_enter(script, Run { acted: false, ..run }, run.position + 1);
    }
}

/// Whichever step fails, and in whichever way, a running automation server
/// is released before the run stops: the failure is answered with the
/// release, and whatever is reported of the release, the run then stops as
/// failed with the server released. Without a running server the run stops
/// at once.
pub proof fn lemma_failure_releases_driver(script: Seq<Step>, run: Run, event: Event, then: Event)
    requires
        run.phase == Phase::Working,
        run.position < script.len(),
        fails_step(script[run.position as int].op, run.attempt, event),
    ensures
        ({
            let (halted, action) = step(script, run, event);
            let (ended, last) = step(script, halted, then);
            &&& halted.failed
            &&& run.driver == Driver::Running ==> action == Action::ReleaseDriver && halted.driver
                == Driver::Released && last == (Action::Stop { confirmed: false }) && ended.phase
                == Phase::Finished && ended.driver == Driver::Released
            &&& run.driver != Driver::Running ==> action == (Action::Stop { confirmed: false })
                && halted.phase == Phase::Finished && halted.driver == run.driver
        }),
{
}

/// In a script that starts the automation server by its first step or not
/// at all, an optional element that is absent is passed over without harm:
/// the run goes on with the next step and has not failed.
pub proof fn lemma_absent_optional_goes_on(script: Seq<Step>, run: Run)
    requires
        script.len() <= usize::MAX,
        forall|i: int| 0 < i < script.len() ==> (#[trigger] script[i]).op != Op::StartDriver,
        run_ok(run),
        run.phase == Phase::Working,
        run.position < script.len(),
        tolerates_absence(script[run.position as int].op),
    ensures
        step(script, run, Event::Missing) == enter(
            script,
            Run { acted: false, ..run },
            run.position + 1,
        ),
        !step(script, run, Event::Missing).0.failed,
        step(script, run, Event::Missing).0.position > run.position,
{
    lemma_enter(script, Run { acted: false, ..run }, run.position + 1);
    lemma_enter_goes_on(script, Run { acted: false, ..run }, run.position + 1);
}

/// Taking up a step past the first never fails a run by itself.
proof fn lemma_enter_goes_on(script: Seq<Step>, run: Run, position: int)
    requires
        0 < position <= script.len() <= usize::MAX,
        forall|i: int| 0 < i < script.len() ==> (#[trigger] script[i]).op != Op::StartDriver,
        !run.failed,
    ensures
        !enter(script, run, position).0.failed,
    decreases script.len() - position,
{
    if position < script.len() {
        match script[position].op {
            Op::PauseIfActed { min_ms, max_ms } if !run.acted => {
                lemma_enter_goes_on(script, run, position + 1);
            },
            _ => {},
        }
    }
}

/// The reports of a run in which each of `n` actions was carried out.
pub open spec fn all_done(n: nat) -> Seq<Event> {
    Seq::new(n, |i: int| Event::Done)
}

/// In a script that starts the automation server by its first step or not
/// at all, a run in which every action is carried out never fails, moves on
/// by at least one step with each report, and has stopped as confirmed once
/// two more reports have come in than the script has steps.
pub proof fn lemma_smooth_run_is_confirmed(script: Seq<Step>, n: nat)
    requires
        script.len() <= usize::MAX,
        forall|i: int| 0 < i < script.len() ==> (#[trigger] script[i]).op != Op::StartDriver,
    ensures
        ({
            let (run, action) = run_after(script, all_done(n));
            &&& !run.failed
            &&& run_ok(run)
            &&& run.phase == Phase::Working ==> n <= run.position < script.len()
            &&& run.phase == Phase::Finished ==> action == (Action::Stop { confirmed: true })
            &&& n > script.len() + 1 ==> action == (Action::Stop { confirmed: true })
        }),
    decreases n,
{
    if n == 0 {
        lemma_enter(script, initial_run(), 0);
    } else {
        let before = all_done((n - 1) as nat);
        assert(all_done(n).drop_last() =~= before);
        lemma_smooth_run_is_confirmed(script, (n - 1) as nat);
        let run = run_after(script, before).0;
        lemma_step(script, run, Event::Done);
        if run.phase == Phase::Working {
            let op = script[run.position as int].op;
            let driver = if op == Op::StartDriver && run.driver == Driver::Idle {
                Driver::Running
            } else {
                run.driver
            };
            let entered = Run { acted: true, driver, ..run };
            lemma_enter(script, entered, run.position + 1);
            lemma_enter_goes_on(script, entered, run.position + 1);
        }
        if n > script.len() + 1 && n >= 2 {
            let earlier = all_done((n - 2) as nat);
            assert(before.drop_last() =~= earlier);
            lemma_smooth_run_is_confirmed(script, (n - 2) as nat);
        }
    }
}

/// However a run goes, it is sound after every report, and a run that has
/// stopped has left no automation server running.
pub proof fn lemma_run_leaves_no_driver(script: Seq<Step>, events: Seq<Event>)
    requires
        script.len() <= usize::MAX,
    ensures
        run_ok(run_after(script, events).0),
        run_after(script, events).1 is Stop ==> run_after(script, events).0.driver
            != Driver::Running,
        run_after(script, events).0.phase == Phase::Releasing <==> run_after(script, events).1
            == Action::ReleaseDriver,
    decreases events.len(),
{
    if events.len() == 0 {
        lemma_enter(script, initial_run(), 0);
    } else {
        lemma_run_leaves_no_driver(script, events.drop_last());
        lemma_step(script, run_after(script, events.drop_last()).0, events.last());
    }
}

/// However a run goes, the release of the automation server is handed out
/// at most once, and exactly once in a run that ended after the server was
/// started.
pub proof fn lemma_released_once(script: Seq<Step>, events: Seq<Event>)
    requires
        script.len() <= usize::MAX,
    ensures
        releases(script, events) == (if run_after(script, events).0.driver == Driver::Released {
            1nat
        } else {
            0nat
        }),
    decreases events.len(),
{
    lemma_run_leaves_no_driver(script, events);
    if events.len() == 0 {
        lemma_enter(script, initial_run(), 0);
    } else {
        let before = events.drop_last();
        lemma_released_once(script, before);
        lemma_run_leaves_no_driver(script, before);
        lemma_step(script, run_after(script, before).0, events.last());
        let run = run_after(script, before).0;
        if run.phase == Phase::Working && run.position < script.len() {
            let op = script[run.position as int].op;
            let driver = if op == Op::StartDriver && run.driver == Driver::Idle {
                Driver::Running
            } else {
                run.driver
            };
            lemma_enter(script, Run { acted: true, driver, ..run }, run.position + 1);
            lemma_enter(script, Run { acted: false, ..run }, run.position + 1);
        }
    }
}

/// Exec form of [`settle`].
fn settle_run(run: Run, failed: bool) -> (out: (Run, Action))
    ensures
        out == settle(run, failed),
{
    match run.driver {
        Driver::Running => (
            Run { phase: Phase::Releasing, driver: Driver::Released, failed, ..run },
            Action::ReleaseDriver,
        ),
        _ => (Run { phase: Phase::Finished, failed, ..run }, Action::Stop { confirmed: !failed }),
    }
}

/// The action that carries out `op` at the given attempt.
pub fn action_for(op: Op, attempt: u8) -> (out: Action)
    ensures
        out == action_of(op, attempt),
{
    match op {
        Op::StartDriver => Action::StartDriver,
        Op::LoadCredentials => Action::LoadCredentials,
        Op::LoadAudioPath => Action::LoadAudioPath,
        Op::Connect => Action::Connect,
        Op::Goto(page) => Action::Goto(page),
        Op::Pause { min_ms, max_ms } => Action::Wait { min_ms, max_ms },
        Op::PauseIfActed { min_ms, max_ms } => Action::Wait { min_ms, max_ms },
        Op::Click { target, optional } => Action::Click { target, patient: false },
        Op::ClickAny { first, second, third } => {
            let target = if attempt == 0 {
                first
            } else if attempt == 1 {
                second
            } else {
                third
            };
            Action::Click { target, patient: true }
        },
        Op::Fill { target, field, patient } => Action::Fill { target, field, patient },
        Op::Press { target, chord } => Action::Press { target, chord },
        Op::TypeChar { target, ch } => Action::TypeChar { target, ch },
        Op::CloseSession => Action::CloseSession,
    }
}

/// Exec form of [`enter`].
fn enter_step(script: &Vec<Step>, run: Run, position: usize) -> (out: (Run, Action))
    requires
        position <= script@.len(),
    ensures
        out == enter(script@, run, position as int),
    decreases script@.len() - position,
{
    let here = Run { position, attempt: 0, ..run };
    if position >= script.len() {
        return settle_run(here, false);
    }
    let op = script[position].op;
    match op {
        Op::PauseIfActed { min_ms, max_ms } => {
            if !run.acted {
                enter_step(script, run, position + 1)
            } else {
                (here, action_for(op, 0))
            }
        },
        Op::StartDriver => {
            match run.driver {
                Driver::Idle => (here, action_for(op, 0)),
                _ => settle_run(here, true),
            }
        },
        _ => (here, action_for(op, 0)),
    }
}

/// Begins a run of `script`: the run, and the first action to take.
pub fn start(script: &Vec<Step>) -> (out: (Run, Action))
    ensures
        out == begin(script@),
        run_ok(out.0),
{
    let n = script.len();
    proof {
        lemma_enter(script@, initial_run(), 0);
    }
    let run = Run {
        phase: Phase::Working,
        position: 0,
        attempt: 0,
        acted: true,
        driver: Driver::Idle,
        failed: false,
    };
    enter_step(script, run, 0)
}

/// Takes the report of the action under way and says what to do next.
///
/// An absent optional element is passed over, the absence of the last
/// rendering of a control or of any other element fails the run, and so does
/// every other failure. A run that ends, well or badly, releases a running
/// automation server before it stops.
pub fn advance(script: &Vec<Step>, run: Run, event: Event) -> (out: (Run, Action))
    ensures
        out == step(script@, run, event),
        run_ok(run) ==> run_ok(out.0),
        run_ok(run) && out.1 is Stop ==> out.0.driver != Driver::Running,
{
    let n = script.len();
    proof {
        if run_ok(run) {
            lemma_step(script@, run, event);
        }
    }
    match run.phase {
        Phase::Finished => (run, Action::Stop { confirmed: !run.failed }),
        Phase::Releasing => (
            Run { phase: Phase::Finished, ..run },
            Action::Stop { confirmed: !run.failed },
        ),
        Phase::Working => {
            if run.position >= script.len() {
                return settle_run(run, true);
            }
            let op = script[run.position].op;
            match event {
                Event::Broken => settle_run(run, true),
                Event::Done => {
                    let driver = match (op, run.driver) {
                        (Op::StartDriver, Driver::Idle) => Driver::Running,
                        _ => run.driver,
                    };
                    enter_step(script, Run { acted: true, driver, ..run }, run.position + 1)
                },
                Event::Missing => {
                    match op {
                        Op::Click { target, optional } => {
                            if optional {
                                enter_step(script, Run { acted: false, ..run }, run.position + 1)
                            } else {
                                settle_run(run, true)
                            }
                        },
                        Op::ClickAny { first, second, third } => {
                            if run.attempt < 2 {
                                let attempt: u8 = run.attempt + 1;
                                (Run { attempt, ..run }, action_for(op, attempt))
                            } else {
                                settle_run(run, true)
                            }
                        },
                        _ => settle_run(run, true),
                    }
                },
            }
        },
    }
}

/// The stage that a run is in.
pub fn stage(script: &Vec<Step>, run: Run) -> (out: Stage)
    ensures
        out == stage_of(script@, run),
{
    if run.failed {
        Stage::Failed
    } else {
        match run.phase {
            Phase::Working => {
                if run.position >= script.len() {
                    Stage::Confirmed
                } else {
                    script[run.position].stage
                }
            },
            _ => Stage::Confirmed,
        }
    }
}

} // verus!
