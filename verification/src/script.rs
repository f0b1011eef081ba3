//! The script of an upload: every step from starting the automation server
//! to closing the session, with the pages and elements it touches.

use vstd::prelude::*;
use crate::automation::{
    Chord, Event, Field, Op, Page, Phase, Run, Stage, Step, Target, lemma_step, run_ok, stage_of,
    stage_rank, step,
};

verus! {

/// How an element is looked up.
#[derive(Clone, Copy, Debug, PartialEq, Eq, Structural)]
pub enum By {
    Css,
    XPath,
}

/// Where an element is found on its page.
#[derive(Clone, Copy, Debug)]
pub struct Selector {
    pub by: By,
    pub query: &'static str,
}

/// The longest wait of the script, in milliseconds: the upper end of the
/// wait for the uploaded audio to be processed.
pub const LONGEST_WAIT_MS: u64 = 62400;

/// The lower end of the wait for the uploaded audio to be processed.
pub const UPLOAD_WAIT_MS: u64 = 55800;

/// How long the automation server is given to come up, in milliseconds.
pub const DRIVER_READY_MS: u64 = 5000;

/// The port on which the automation server listens.
pub const DRIVER_PORT: u16 = 64175;

/// Whether the element may be absent from its page without harm.
pub open spec fn may_be_absent(target: Target) -> bool {
    target == Target::PasswordOption || target == Target::SelectFile || target
        == Target::CloseButton || target == Target::SaveDraft || target == Target::NextButton
        || target == Target::PublishNow || target == Target::ScheduleButton
}

/// What a single step has to meet: a wait has a range that is not empty and
/// does not exceed the longest wait; a click is optional exactly for the
/// elements that may be absent; the step belongs to a stage of work.
pub open spec fn step_ok(s: Step) -> bool {
    &&& stage_rank(s.stage) <= stage_rank(Stage::RequestingSave)
    &&& match s.op {
        Op::Pause { min_ms, max_ms } => min_ms <= max_ms <= LONGEST_WAIT_MS,
        Op::PauseIfActed { min_ms, max_ms } => min_ms <= max_ms <= LONGEST_WAIT_MS,
        Op::Click { target, optional } => optional == may_be_absent(target),
        _ => true,
    }
}

/// The stages of the script never go back.
pub open spec fn stages_in_order(script: Seq<Step>) -> bool {
    forall|i: int, j: int|
        0 <= i <= j < script.len() ==> stage_rank(script[i].stage) <= stage_rank(script[j].stage)
}

/// A script in which every step is sound, the stages are in order, and the
/// automation server is started by the first step or not at all.
pub open spec fn script_ok(script: Seq<Step>) -> bool {
    &&& stages_in_order(script)
    &&& forall|i: int| 0 <= i < script.len() ==> step_ok(#[trigger] script[i])
    &&& forall|i: int|
        0 <= i < script.len() && (#[trigger] script[i]).op == Op::StartDriver ==> i == 0
}

/// The characters that a step types, one by one.
pub open spec fn typed_by(op: Op) -> Seq<char> {
    match op {
        Op::TypeChar { target, ch } => seq![ch],
        _ => Seq::empty(),
    }
}

/// The text that the script types character by character.
pub open spec fn typed_text(script: Seq<Step>) -> Seq<char>
    decreases script.len(),
{
    if script.len() == 0 {
        Seq::empty()
    } else {
        typed_text(script.drop_last()) + typed_by(script.last().op)
    }
}

/// Whether the wait after the step at `i`, which hands in the audio file,
/// is the longest of the script.
pub open spec fn upload_wait_at(script: Seq<Step>, i: int) -> bool {
    &&& 0 <= i && i + 1 < script.len()
    &&& script[i].op == (Op::Fill {
        target: Target::FileInput,
        field: Field::AudioPath,
        patient: false,
    })
    &&& script[i + 1].op == (Op::Pause { min_ms: UPLOAD_WAIT_MS, max_ms: LONGEST_WAIT_MS })
}

/// The description that every episode gets.
pub fn default_description() -> (out: &'static str)
    ensures
        out@ == "Join us online for our Sunday services @ 9AM & 11AM."@,
{
    "Join us online for our Sunday services @ 9AM & 11AM."
}

/// The address at which the automation server is reached.
pub fn driver_address() -> (out: &'static str)
    ensures
        out@ == "http://localhost:64175"@,
{
    "http://localhost:64175"
}

/// The address of a page.
pub open spec fn url_of(page: Page) -> Seq<char> {
    match page {
        Page::Home => "https://podcasters.spotify.com/"@,
        Page::Composer => "https://podcasters.spotify.com/pod/dashboard/episode/wizard"@,
    }
}

/// The address of a page.
pub fn page_url(page: Page) -> (out: &'static str)
    ensures
        out@ == url_of(page),
{
    match page {
        Page::Home => "https://podcasters.spotify.com/",
        Page::Composer => "https://podcasters.spotify.com/pod/dashboard/episode/wizard",
    }
}

/// How each element is looked up: by a stylesheet query or by a path query.
pub open spec fn lookup_of(target: Target) -> By {
    match target {
        Target::ContinueWithProvider | Target::LoginByText | Target::SelectFile
        | Target::SaveDraft => By::XPath,
        _ => By::Css,
    }
}

/// The query that finds each element. The three renderings of the login
/// control are its id, its test attribute and its visible text.
pub open spec fn query_of(target: Target) -> Seq<char> {
    match target {
        Target::LoginLink => "a[href='/pod/login']"@,
        Target::ContinueWithProvider => "//span[text()='Continue with Spotify']/ancestor::button"@,
        Target::IdentifierInput => "input#login-username"@,
        Target::ContinueButton => "button#login-button"@,
        Target::PasswordOption => "button[data-encore-id='buttonTertiary'].Button-sc-1dqy6lx-0"@,
        Target::PasswordInput => "input[data-testid='login-password']"@,
        Target::LoginById => "button#login-button"@,
        Target::LoginByTestAttribute => "button[data-testid='login-button']"@,
        Target::LoginByText => "//button[.//span[translate(normalize-space(text()), 'abcdefghijklmnopqrstuvwxyz', 'ABCDEFGHIJKLMNOPQRSTUVWXYZ')='LOG IN']]"@,
        Target::SelectFile => "//span[text()='Select a file']/ancestor::button"@,
        Target::FileInput => "input[type='file']"@,
        Target::TitleInput => "input#title-input"@,
        Target::DescriptionBox => "div[role='textbox'][data-slate-editor='true']"@,
        Target::CloseButton => "button[aria-label='Close'][data-encore-id='buttonTertiary']"@,
        Target::SaveDraft => "//span[text()='Save draft']/ancestor::button"@,
        Target::NextButton => "button[form='details-form'][type='submit']"@,
        Target::PublishNow => "input#publish-date-now"@,
        Target::ScheduleButton => "button[form='review-form'][type='submit']"@,
    }
}

/// Where an element is found on its page.
pub fn selector(target: Target) -> (out: Selector)
    ensures
        out.by == lookup_of(target),
        out.query@ == query_of(target),
{
    match target {
        Target::LoginLink => Selector { by: By::Css, query: "a[href='/pod/login']" },
        Target::ContinueWithProvider => Selector {
            by: By::XPath,
            query: "//span[text()='Continue with Spotify']/ancestor::button",
        },
        Target::IdentifierInput => Selector { by: By::Css, query: "input#login-username" },
        Target::ContinueButton => Selector { by: By::Css, query: "button#login-button" },
        Target::PasswordOption => Selector {
            by: By::Css,
            query: "button[data-encore-id='buttonTertiary'].Button-sc-1dqy6lx-0",
        },
        Target::PasswordInput => Selector {
            by: By::Css,
            query: "input[data-testid='login-password']",
        },
        Target::LoginById => Selector { by: By::Css, query: "button#login-button" },
        Target::LoginByTestAttribute => Selector {
            by: By::Css,
            query: "button[data-testid='login-button']",
        },
        Target::LoginByText => Selector {
            by: By::XPath,
            query: "//button[.//span[translate(normalize-space(text()), 'abcdefghijklmnopqrstuvwxyz', 'ABCDEFGHIJKLMNOPQRSTUVWXYZ')='LOG IN']]",
        },
        Target::SelectFile => Selector {
            by: By::XPath,
            query: "//span[text()='Select a file']/ancestor::button",
        },
        Target::FileInput => Selector { by: By::Css, query: "input[type='file']" },
        Target::TitleInput => Selector { by: By::Css, query: "input#title-input" },
        Target::DescriptionBox => Selector {
            by: By::Css,
            query: "div[role='textbox'][data-slate-editor='true']",
        },
        Target::CloseButton => Selector {
            by: By::Css,
            query: "button[aria-label='Close'][data-encore-id='buttonTertiary']",
        },
        Target::SaveDraft => Selector {
            by: By::XPath,
            query: "//span[text()='Save draft']/ancestor::button",
        },
        Target::NextButton => Selector {
            by: By::Css,
            query: "button[form='details-form'][type='submit']",
        },
        Target::PublishNow => Selector { by: By::Css, query: "input#publish-date-now" },
        Target::ScheduleButton => Selector {
            by: By::Css,
            query: "button[form='review-form'][type='submit']",
        },
    }
}

/// A wait in the given stage.
pub open spec fn pause(stage: Stage, min_ms: u64, max_ms: u64) -> Step {
    Step { stage, op: Op::Pause { min_ms, max_ms } }
}

/// A click on an element in the given stage.
pub open spec fn click(stage: Stage, target: Target) -> Step {
    Step { stage, op: Op::Click { target, optional: may_be_absent(target) } }
}

/// Typing a configured text into an element in the given stage.
pub open spec fn fill(stage: Stage, target: Target, field: Field, patient: bool) -> Step {
    Step { stage, op: Op::Fill { target, field, patient } }
}

/// The steps of logging in: start the automation server, connect, and
/// authenticate.
pub open spec fn login_steps() -> Seq<Step> {
    let connecting = Stage::Connecting;
    let login = Stage::Authenticating;
    seq![
        Step { stage: connecting, op: Op::StartDriver },
        pause(connecting, DRIVER_READY_MS, DRIVER_READY_MS),
        Step { stage: connecting, op: Op::LoadCredentials },
        Step { stage: connecting, op: Op::Connect },
        Step { stage: login, op: Op::Goto(Page::Home) },
        pause(login, 6000, 9000),
        click(login, Target::LoginLink),
        pause(login, 3500, 4500),
        click(login, Target::ContinueWithProvider),
        pause(login, 3500, 4500),
        fill(login, Target::IdentifierInput, Field::Identifier, false),
        pause(login, 1000, 2000),
        click(login, Target::ContinueButton),
        pause(login, 6800, 7800),
        click(login, Target::PasswordOption),
        Step { stage: login, op: Op::PauseIfActed { min_ms: 1200, max_ms: 2000 } },
        pause(login, 6200, 8200),
        fill(login, Target::PasswordInput, Field::Password, true),
        pause(login, 7700, 8800),
        Step {
            stage: login,
            op: Op::ClickAny {
                first: Target::LoginById,
                second: Target::LoginByTestAttribute,
                third: Target::LoginByText,
            },
        },
        pause(login, 4000, 6000),
    ]
}

/// The steps of a draft up to its description: open the composer, hand in
/// the audio file, fill in the title, and empty the description box.
pub open spec fn composer_steps() -> Seq<Step> {
    let composer = Stage::NavigatingToComposer;
    let audio = Stage::UploadingAudio;
    let title = Stage::FillingTitle;
    let text = Stage::FillingDescription;
    let entry = Target::DescriptionBox;
    seq![
        pause(composer, 9000, 10000),
        Step { stage: composer, op: Op::Goto(Page::Composer) },
        pause(composer, 7600, 9300),
        click(audio, Target::SelectFile),
        pause(audio, 2200, 3000),
        Step { stage: audio, op: Op::LoadAudioPath },
        fill(audio, Target::FileInput, Field::AudioPath, false),
        pause(audio, UPLOAD_WAIT_MS, LONGEST_WAIT_MS),
        fill(title, Target::TitleInput, Field::Title, false),
        pause(title, 1000, 2000),
        click(text, entry),
        pause(text, 200, 400),
        click(text, entry),
        pause(text, 400, 800),
        Step { stage: text, op: Op::Press { target: entry, chord: Chord::SelectAll } },
        pause(text, 200, 400),
        Step { stage: text, op: Op::Press { target: entry, chord: Chord::Backspace } },
        pause(text, 400, 800),
        click(text, entry),
        pause(text, 200, 400),
    ]
}

/// The steps that type a text into the description box: each character on
/// its own, with a short wait after it.
pub open spec fn typing_steps(text: Seq<char>) -> Seq<Step>
    decreases text.len(),
{
    if text.len() == 0 {
        Seq::empty()
    } else {
        typing_steps(text.drop_last()).push(
            Step {
                stage: Stage::FillingDescription,
                op: Op::TypeChar { target: Target::DescriptionBox, ch: text.last() },
            },
        ).push(pause(Stage::FillingDescription, 50, 120))
    }
}

/// The steps of a draft after its description: ask for it to be saved.
pub open spec fn saving_steps() -> Seq<Step> {
    let save = Stage::RequestingSave;
    seq![
        pause(Stage::FillingDescription, 1000, 2000),
        click(save, Target::CloseButton),
        pause(save, 2700, 3100),
        click(save, Target::SaveDraft),
        pause(save, 1200, 2000),
        pause(save, 3000, 5000),
    ]
}

/// The steps that draft an episode in a session that is logged in, typing
/// `description` into the description box.
pub open spec fn draft_steps(description: Seq<char>) -> Seq<Step> {
    composer_steps() + typing_steps(description) + saving_steps()
}

/// The steps that publish an episode at once from the composer, in place
/// of saving it as a draft: go on to the review, choose the present as the
/// date, and submit. Each of the three controls may be absent.
pub open spec fn schedule_steps() -> Seq<Step> {
    let save = Stage::RequestingSave;
    seq![
        click(save, Target::NextButton),
        pause(save, 19000, 22000),
        click(save, Target::PublishNow),
        pause(save, 3000, 5000),
        click(save, Target::ScheduleButton),
        pause(save, 6000, 9000),
    ]
}

/// The place, in the steps of a draft, of the step that hands in the audio
/// file.
pub open spec fn upload_step() -> int {
    6
}

/// The script of an upload that types `description`: log in, draft the
/// episode, close the session.
pub open spec fn script_of(description: Seq<char>) -> Seq<Step> {
    login_steps() + draft_steps(description) + seq![
        Step { stage: Stage::RequestingSave, op: Op::CloseSession },
    ]
}

/// Appends one step to a script under construction.
fn push_step(script: &mut Vec<Step>, stage: Stage, op: Op)
    requires
        script_ok(old(script)@),
        step_ok(Step { stage, op }),
        op == Op::StartDriver ==> old(script)@.len() == 0,
        old(script)@.len() > 0 ==> stage_rank(old(script)@.last().stage) <= stage_rank(stage),
    ensures
        final(script)@ == old(script)@.push(Step { stage, op }),
        script_ok(final(script)@),
        typed_text(final(script)@) == typed_text(old(script)@) + typed_by(op),
{
    script.push(Step { stage, op });
    proof {
        assert(script@.drop_last() == old(script)@);
        let s = script@;
        assert forall|i: int, j: int| 0 <= i <= j < s.len() implies stage_rank(s[i].stage)
            <= stage_rank(s[j].stage) by {
            if j == s.len() - 1 && i < j {
                assert(stage_rank(old(script)@[i].stage) <= stage_rank(
                    old(script)@.last().stage,
                ));
            }
        }
    }
}

/// Appends a wait to a script under construction, in the stage of its last
/// step.
fn push_pause(script: &mut Vec<Step>, min_ms: u64, max_ms: u64)
    requires
        script_ok(old(script)@),
        old(script)@.len() > 0,
        min_ms <= max_ms <= LONGEST_WAIT_MS,
    ensures
        final(script)@ == old(script)@.push(
            Step { stage: old(script)@.last().stage, op: Op::Pause { min_ms, max_ms } },
        ),
        script_ok(final(script)@),
        typed_text(final(script)@) == typed_text(old(script)@),
{
    let stage = script[script.len() - 1].stage;
    push_step(script, stage, Op::Pause { min_ms, max_ms });
}

/// Appends the steps that type `text` into the description box, one
/// character at a time with a short wait after each.
fn type_text(script: &mut Vec<Step>, text: &str)
    requires
        script_ok(old(script)@),
        old(script)@.len() > 0,
        old(script)@.last().stage == Stage::FillingDescription,
    ensures
        script_ok(final(script)@),
        final(script)@.last().stage == Stage::FillingDescription,
        typed_text(final(script)@) == typed_text(old(script)@) + text@,
        final(script)@ == old(script)@ + typing_steps(text@),
{
    let n = text.unicode_len();
    let mut i: usize = 0;
    assert(typed_text(script@) + text@.subrange(0, 0) == typed_text(script@));
    assert(script@ + typing_steps(text@.subrange(0, 0)) == script@);
    while i < n
        invariant
            i <= n,
            n == text@.len(),
            script_ok(script@),
            script@.len() > 0,
            script@.last().stage == Stage::FillingDescription,
            typed_text(script@) == typed_text(old(script)@) + text@.subrange(0, i as int),
            script@ == old(script)@ + typing_steps(text@.subrange(0, i as int)),
        decreases n - i,
    {
        let ch = text.get_char(i);
        push_step(
            script,
            Stage::FillingDescription,
            Op::TypeChar { target: Target::DescriptionBox, ch },
        );
        push_pause(script, 50, 120);
        i = i + 1;
        assert(text@.subrange(0, i as int) == text@.subrange(0, i - 1).push(ch));
        assert(typed_text(script@) == typed_text(old(script)@) + text@.subrange(0, i as int));
        assert(text@.subrange(0, i as int).drop_last() == text@.subrange(0, i - 1));
        assert(script@ == old(script)@ + typing_steps(text@.subrange(0, i as int)));
    }
    assert(text@.subrange(0, i as int) == text@);
}

/// Builds the steps of logging in.
fn login_script() -> (out: Vec<Step>)
    ensures
        out@ == login_steps(),
        script_ok(out@),
        typed_text(out@) == Seq::<char>::empty(),
        out@.last().stage == Stage::Authenticating,
{
    let mut steps: Vec<Step> = Vec::new();
    let script = &mut steps;
    let stage = Stage::Authenticating;
    let login = Op::ClickAny {
        first: Target::LoginById,
        second: Target::LoginByTestAttribute,
        third: Target::LoginByText,
    };
    push_step(script, Stage::Connecting, Op::StartDriver);
    push_pause(script, DRIVER_READY_MS, DRIVER_READY_MS);
    push_step(script, Stage::Connecting, Op::LoadCredentials);
    push_step(script, Stage::Connecting, Op::Connect);
    push_step(script, stage, Op::Goto(Page::Home));
    push_pause(script, 6000, 9000);
    push_step(script, stage, Op::Click { target: Target::LoginLink, optional: false });
    push_pause(script, 3500, 4500);
    push_step(script, stage, Op::Click { target: Target::ContinueWithProvider, optional: false });
    push_pause(script, 3500, 4500);
    push_step(
        script,
        stage,
        Op::Fill { target: Target::IdentifierInput, field: Field::Identifier, patient: false },
    );
    push_pause(script, 1000, 2000);
    push_step(script, stage, Op::Click { target: Target::ContinueButton, optional: false });
    push_pause(script, 6800, 7800);
    push_step(script, stage, Op::Click { target: Target::PasswordOption, optional: true });
    push_step(script, stage, Op::PauseIfActed { min_ms: 1200, max_ms: 2000 });
    push_pause(script, 6200, 8200);
    push_step(
        script,
        stage,
        Op::Fill { target: Target::PasswordInput, field: Field::Password, patient: true },
    );
    push_pause(script, 7700, 8800);
    push_step(script, stage, login);
    push_pause(script, 4000, 6000);
    assert(typed_text(script@) =~= Seq::<char>::empty());
    steps
}

/// Appends the steps of a draft up to its description.
fn push_composer(script: &mut Vec<Step>)
    requires
        script_ok(old(script)@),
        old(script)@.len() > 0 ==> stage_rank(old(script)@.last().stage) <= stage_rank(
            Stage::NavigatingToComposer,
        ),
    ensures
        final(script)@ == old(script)@ + composer_steps(),
        script_ok(final(script)@),
        typed_text(final(script)@) == typed_text(old(script)@),
        final(script)@.last().stage == Stage::FillingDescription,
{
    let entry = Target::DescriptionBox;
    let audio = Stage::UploadingAudio;
    let text = Stage::FillingDescription;
    push_step(script, Stage::NavigatingToComposer, Op::Pause { min_ms: 9000, max_ms: 10000 });
    push_step(script, Stage::NavigatingToComposer, Op::Goto(Page::Composer));
    push_pause(script, 7600, 9300);
    push_step(script, audio, Op::Click { target: Target::SelectFile, optional: true });
    push_pause(script, 2200, 3000);
    push_step(script, audio, Op::LoadAudioPath);
    push_step(
        script,
        audio,
        Op::Fill { target: Target::FileInput, field: Field::AudioPath, patient: false },
    );
    push_pause(script, UPLOAD_WAIT_MS, LONGEST_WAIT_MS);
    push_step(
        script,
        Stage::FillingTitle,
        Op::Fill { target: Target::TitleInput, field: Field::Title, patient: false },
    );
    push_pause(script, 1000, 2000);
    push_step(script, text, Op::Click { target: entry, optional: false });
    push_pause(script, 200, 400);
    push_step(script, text, Op::Click { target: entry, optional: false });
    push_pause(script, 400, 800);
    push_step(script, text, Op::Press { target: entry, chord: Chord::SelectAll });
    push_pause(script, 200, 400);
    push_step(script, text, Op::Press { target: entry, chord: Chord::Backspace });
    push_pause(script, 400, 800);
    push_step(script, text, Op::Click { target: entry, optional: false });
    push_pause(script, 200, 400);
    assert(script@ =~= old(script)@ + composer_steps());
    assert(typed_text(script@) =~= typed_text(old(script)@));
}

/// Appends the steps of a draft after its description.
fn push_saving(script: &mut Vec<Step>)
    requires
        script_ok(old(script)@),
        old(script)@.len() > 0,
        old(script)@.last().stage == Stage::FillingDescription,
    ensures
        final(script)@ == old(script)@ + saving_steps(),
        script_ok(final(script)@),
        typed_text(final(script)@) == typed_text(old(script)@),
        final(script)@.last().stage == Stage::RequestingSave,
{
    let save = Stage::RequestingSave;
    push_pause(script, 1000, 2000);
    push_step(script, save, Op::Click { target: Target::CloseButton, optional: true });
    push_pause(script, 2700, 3100);
    push_step(script, save, Op::Click { target: Target::SaveDraft, optional: true });
    push_pause(script, 1200, 2000);
    push_pause(script, 3000, 5000);
    assert(script@ =~= old(script)@ + saving_steps());
}

/// Appends the steps of a draft.
fn push_draft(script: &mut Vec<Step>, description: &str)
    requires
        script_ok(old(script)@),
        old(script)@.len() > 0 ==> stage_rank(old(script)@.last().stage) <= stage_rank(
            Stage::NavigatingToComposer,
        ),
    ensures
        final(script)@ == old(script)@ + draft_steps(description@),
        script_ok(final(script)@),
        typed_text(final(script)@) == typed_text(old(script)@) + description@,
        final(script)@.last().stage == Stage::RequestingSave,
        final(script)@.len() > 0,
{
    push_composer(script);
    type_text(script, description);
    push_saving(script);
    assert(script@ =~= old(script)@ + draft_steps(description@));
}

/// The steps that draft an episode in a session that is logged in: open the
/// composer, hand in the audio file, fill in the title, type `description`
/// into the description box, and ask for the draft to be saved.
pub fn draft_script(description: &str) -> (script: Vec<Step>)
    ensures
        script@ == draft_steps(description@),
        script_ok(script@),
        typed_text(script@) == description@,
        upload_wait_at(script@, upload_step()),
{
    let mut script: Vec<Step> = Vec::new();
    assert(typed_text(script@) =~= Seq::<char>::empty());
    push_draft(&mut script, description);
    assert(script@ =~= draft_steps(description@));
    assert(typed_text(script@) =~= description@);
    assert(script@[upload_step()] == composer_steps()[upload_step()]);
    assert(script@[upload_step() + 1] == composer_steps()[upload_step() + 1]);
    script
}

/// The steps that publish an episode at once from the composer.
pub fn schedule_script() -> (script: Vec<Step>)
    ensures
        script@ == schedule_steps(),
        script_ok(script@),
        typed_text(script@) == Seq::<char>::empty(),
{
    let mut script: Vec<Step> = Vec::new();
    let save = Stage::RequestingSave;
    assert(typed_text(script@) =~= Seq::<char>::empty());
    push_step(&mut script, save, Op::Click { target: Target::NextButton, optional: true });
    push_pause(&mut script, 19000, 22000);
    push_step(&mut script, save, Op::Click { target: Target::PublishNow, optional: true });
    push_pause(&mut script, 3000, 5000);
    push_step(&mut script, save, Op::Click { target: Target::ScheduleButton, optional: true });
    push_pause(&mut script, 6000, 9000);
    assert(typed_text(script@) =~= Seq::<char>::empty());
    script
}

/// The script of an upload that types `description` into the description
/// box: start the automation server, connect, log in, draft the episode, and
/// close the session.
pub fn upload_script(description: &str) -> (script: Vec<Step>)
    ensures
        script@ == script_of(description@),
        script_ok(script@),
        typed_text(script@) == description@,
        upload_wait_at(script@, login_steps().len() + upload_step()),
{
    let mut script = login_script();
    push_draft(&mut script, description);
    push_step(&mut script, Stage::RequestingSave, Op::CloseSession);
    assert(script@ =~= script_of(description@));
    assert(typed_text(script@) =~= description@);
    assert(script@[login_steps().len() + upload_step()] == composer_steps()[upload_step()]);
    assert(script@[login_steps().len() + upload_step() + 1] == composer_steps()[upload_step()
        + 1]);
    script
}

/// With the stages of the script in order, no move of the machine takes a
/// run back to an earlier stage; a failed run stays failed.
pub proof fn lemma_stage_never_goes_back(script: Seq<Step>, run: Run, event: Event)
    requires
        script.len() <= usize::MAX,
        script_ok(script),
        run_ok(run),
    ensures
        stage_rank(stage_of(script, run)) <= stage_rank(stage_of(script, step(script, run, event).0)),
{
    lemma_step(script, run, event);
    let next = step(script, run, event).0;
    if !next.failed && next.phase == Phase::Working && next.position < script.len() {
        assert(run.phase == Phase::Working);
        if run.position < script.len() {
            assert(stage_rank(script[run.position as int].stage) <= stage_rank(
                script[next.position as int].stage,
            ));
        } else {
            assert(false);
        }
    } else if !next.failed && run.phase == Phase::Working && run.position < script.len() {
        assert(step_ok(script[run.position as int]));
    }
}

} // verus!
