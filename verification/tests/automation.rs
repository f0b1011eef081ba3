use audio_epistles::automation::{
    advance, stage, start, Action, Driver, Event, Field, Op, Phase, Run, Stage, Step, Target,
};
use audio_epistles::script::{
    default_description, draft_script, page_url, schedule_script, selector, upload_script, By,
};
use audio_epistles::automation::Page;

/// Runs the script, answering each action with what `answer` says of it,
/// and hands back every action in order together with the last run.
fn drive(script: &Vec<Step>, answer: &dyn Fn(usize, &Action) -> Event) -> (Vec<Action>, Run) {
    let (mut run, mut action) = start(script);
    let mut actions = vec![action];
    let mut n = 0;
    while !matches!(action, Action::Stop { .. }) {
        let event = answer(n, &action);
        let next = advance(script, run, event);
        run = next.0;
        action = next.1;
        actions.push(action);
        n += 1;
        assert!(n < 10_000);
    }
    (actions, run)
}

fn releases(actions: &Vec<Action>) -> usize {
    actions.iter().filter(|a| matches!(a, Action::ReleaseDriver)).count()
}

#[test]
fn smooth_run_is_confirmed_and_releases_the_driver() {
    let script = upload_script(default_description());
    let (actions, run) = drive(&script, &|_, _| Event::Done);
    assert_eq!(actions.first(), Some(&Action::StartDriver));
    assert_eq!(actions.last(), Some(&Action::Stop { confirmed: true }));
    assert_eq!(actions[actions.len() - 2], Action::ReleaseDriver);
    assert_eq!(actions[actions.len() - 3], Action::CloseSession);
    assert_eq!(releases(&actions), 1);
    assert_eq!(run.phase, Phase::Finished);
    assert_eq!(run.driver, Driver::Released);
    assert_eq!(stage(&script, run), Stage::Confirmed);
    assert_eq!(actions.len(), script.len() + 2);
}

#[test]
fn description_is_typed_character_by_character() {
    let script = upload_script("Hi!");
    let typed: String = script
        .iter()
        .filter_map(|s| match s.op {
            Op::TypeChar { ch, .. } => Some(ch),
            _ => None,
        })
        .collect();
    assert_eq!(typed, "Hi!");
    let all = upload_script(default_description());
    let typed: String = all
        .iter()
        .filter_map(|s| match s.op {
            Op::TypeChar { ch, .. } => Some(ch),
            _ => None,
        })
        .collect();
    assert_eq!(typed, "Join us online for our Sunday services @ 9AM & 11AM.");
    assert_eq!(all.len(), upload_script("").len() + 2 * 52);
}

#[test]
fn failure_at_any_step_releases_the_driver() {
    let script = upload_script("ab");
    for at in 0..script.len() {
        for failure in [Event::Broken, Event::Missing] {
            let (actions, run) = drive(&script, &|n, _| if n == at { failure } else { Event::Done });
            let stopped = *actions.last().unwrap();
            assert!(matches!(stopped, Action::Stop { .. }));
            assert_ne!(run.driver, Driver::Running);
            assert!(releases(&actions) <= 1);
            if actions.iter().any(|a| *a == Action::StartDriver) && at > 0 {
                assert_eq!(releases(&actions), 1);
                assert_eq!(actions[actions.len() - 2], Action::ReleaseDriver);
            }
            if at == 0 {
                assert_eq!(actions, vec![Action::StartDriver, Action::Stop { confirmed: false }]);
                assert_eq!(run.driver, Driver::Idle);
            }
            if failure == Event::Broken {
                assert_eq!(stopped, Action::Stop { confirmed: false });
                assert_eq!(stage(&script, run), Stage::Failed);
            }
        }
    }
}

#[test]
fn required_element_missing_fails_the_run() {
    let script = upload_script("");
    let (actions, run) = drive(&script, &|_, a| match a {
        Action::Fill { target: Target::TitleInput, .. } => Event::Missing,
        _ => Event::Done,
    });
    assert_eq!(actions.last(), Some(&Action::Stop { confirmed: false }));
    assert_eq!(actions[actions.len() - 2], Action::ReleaseDriver);
    assert!(matches!(actions[actions.len() - 3], Action::Fill { target: Target::TitleInput, field: Field::Title, .. }));
    assert!(run.failed);
}

#[test]
fn optional_elements_may_all_be_missing() {
    let script = upload_script("");
    let (actions, run) = drive(&script, &|_, a| match a {
        Action::Click { target: Target::PasswordOption, .. }
        | Action::Click { target: Target::SelectFile, .. }
        | Action::Click { target: Target::CloseButton, .. }
        | Action::Click { target: Target::SaveDraft, .. } => Event::Missing,
        _ => Event::Done,
    });
    assert_eq!(actions.last(), Some(&Action::Stop { confirmed: true }));
    assert!(!run.failed);
    let smooth = drive(&script, &|_, _| Event::Done).0;
    assert_eq!(actions.len() + 1, smooth.len());
    assert!(smooth.contains(&Action::Wait { min_ms: 1200, max_ms: 2000 }));
}

#[test]
fn login_control_is_tried_in_three_renderings() {
    let script = upload_script("");
    let (actions, _) = drive(&script, &|_, a| match a {
        Action::Click { target: Target::LoginById, .. }
        | Action::Click { target: Target::LoginByTestAttribute, .. } => Event::Missing,
        _ => Event::Done,
    });
    assert_eq!(actions.last(), Some(&Action::Stop { confirmed: true }));
    let at = actions.iter().position(|a| *a == Action::Click { target: Target::LoginById, patient: true }).unwrap();
    assert_eq!(actions[at + 1], Action::Click { target: Target::LoginByTestAttribute, patient: true });
    assert_eq!(actions[at + 2], Action::Click { target: Target::LoginByText, patient: true });

    let (actions, run) = drive(&script, &|_, a| match a {
        Action::Click { target: Target::LoginById, .. }
        | Action::Click { target: Target::LoginByTestAttribute, .. }
        | Action::Click { target: Target::LoginByText, .. } => Event::Missing,
        _ => Event::Done,
    });
    assert_eq!(actions.last(), Some(&Action::Stop { confirmed: false }));
    assert_eq!(releases(&actions), 1);
    assert_eq!(stage(&script, run), Stage::Failed);
}

#[test]
fn stages_are_passed_in_order() {
    let script = upload_script("x");
    let order = [
        Stage::Connecting,
        Stage::Authenticating,
        Stage::NavigatingToComposer,
        Stage::UploadingAudio,
        Stage::FillingTitle,
        Stage::FillingDescription,
        Stage::RequestingSave,
        Stage::Confirmed,
    ];
    let (mut run, mut action) = start(&script);
    let mut seen = vec![stage(&script, run)];
    while !matches!(action, Action::Stop { .. }) {
        let next = advance(&script, run, Event::Done);
        run = next.0;
        action = next.1;
        let s = stage(&script, run);
        if *seen.last().unwrap() != s {
            seen.push(s);
        }
    }
    assert_eq!(seen, order);
}

#[test]
fn upload_wait_is_the_longest() {
    let script = upload_script(default_description());
    let mut longest = 0;
    for s in script.iter() {
        if let Op::Pause { min_ms, max_ms } | Op::PauseIfActed { min_ms, max_ms } = s.op {
            assert!(min_ms <= max_ms);
            assert!(max_ms <= 62400);
            longest = longest.max(max_ms);
        }
    }
    assert_eq!(longest, 62400);
    let at = script
        .iter()
        .position(|s| s.op == Op::Fill { target: Target::FileInput, field: Field::AudioPath, patient: false })
        .unwrap();
    assert_eq!(script[at + 1].op, Op::Pause { min_ms: 55800, max_ms: 62400 });
    assert_eq!(script[at].stage, Stage::UploadingAudio);
}

#[test]
fn a_finished_run_stays_finished() {
    let script = upload_script("");
    let (_, run) = drive(&script, &|_, _| Event::Broken);
    let (again, action) = advance(&script, run, Event::Done);
    assert_eq!(again, run);
    assert_eq!(action, Action::Stop { confirmed: false });
}

#[test]
fn second_start_of_the_driver_is_refused() {
    let step = Step { stage: Stage::Connecting, op: Op::StartDriver };
    let script = vec![step, step];
    let (actions, run) = drive(&script, &|_, _| Event::Done);
    assert_eq!(actions, vec![Action::StartDriver, Action::ReleaseDriver, Action::Stop { confirmed: false }]);
    assert_eq!(run.driver, Driver::Released);
}

#[test]
fn pages_and_selectors() {
    assert_eq!(page_url(Page::Home), "https://podcasters.spotify.com/");
    assert_eq!(page_url(Page::Composer), "https://podcasters.spotify.com/pod/dashboard/episode/wizard");
    assert_eq!(selector(Target::TitleInput).by, By::Css);
    assert_eq!(selector(Target::TitleInput).query, "input#title-input");
    assert_eq!(selector(Target::SaveDraft).by, By::XPath);
    assert_eq!(selector(Target::LoginById).query, "button#login-button");
}

#[test]
fn draft_alone_needs_no_driver() {
    let script = draft_script("ab");
    assert!(script.iter().all(|s| s.op != Op::StartDriver && s.op != Op::CloseSession));
    assert_eq!(script[0], Step { stage: Stage::NavigatingToComposer, op: Op::Pause { min_ms: 9000, max_ms: 10000 } });
    assert_eq!(script[6].op, Op::Fill { target: Target::FileInput, field: Field::AudioPath, patient: false });
    assert_eq!(script[7].op, Op::Pause { min_ms: 55800, max_ms: 62400 });
    let (actions, run) = drive(&script, &|_, _| Event::Done);
    assert_eq!(actions.last(), Some(&Action::Stop { confirmed: true }));
    assert_eq!(releases(&actions), 0);
    assert_eq!(run.driver, Driver::Idle);
    assert_eq!(actions.len(), script.len() + 1);

    let whole = upload_script("ab");
    assert_eq!(whole.len(), 21 + script.len() + 1);
    assert_eq!(&whole[21..21 + script.len()], &script[..]);
    assert_eq!(whole[0], Step { stage: Stage::Connecting, op: Op::StartDriver });
    assert_eq!(whole[whole.len() - 1], Step { stage: Stage::RequestingSave, op: Op::CloseSession });
}

#[test]
fn whole_script_step_by_step() {
    let script = upload_script("");
    let ops: Vec<Op> = script.iter().map(|s| s.op).collect();
    assert_eq!(ops[1], Op::Pause { min_ms: 5000, max_ms: 5000 });
    assert_eq!(ops[2], Op::LoadCredentials);
    assert_eq!(ops[3], Op::Connect);
    assert_eq!(ops[4], Op::Goto(Page::Home));
    assert_eq!(ops[6], Op::Click { target: Target::LoginLink, optional: false });
    assert_eq!(ops[14], Op::Click { target: Target::PasswordOption, optional: true });
    assert_eq!(ops[15], Op::PauseIfActed { min_ms: 1200, max_ms: 2000 });
    assert_eq!(ops[17], Op::Fill { target: Target::PasswordInput, field: Field::Password, patient: true });
    assert_eq!(
        ops[19],
        Op::ClickAny { first: Target::LoginById, second: Target::LoginByTestAttribute, third: Target::LoginByText }
    );
    assert_eq!(script.len(), 21 + 20 + 6 + 1);
}

#[test]
fn publishing_at_once_tolerates_missing_controls() {
    let script = schedule_script();
    assert_eq!(
        script.iter().map(|s| s.op).collect::<Vec<Op>>(),
        vec![
            Op::Click { target: Target::NextButton, optional: true },
            Op::Pause { min_ms: 19000, max_ms: 22000 },
            Op::Click { target: Target::PublishNow, optional: true },
            Op::Pause { min_ms: 3000, max_ms: 5000 },
            Op::Click { target: Target::ScheduleButton, optional: true },
            Op::Pause { min_ms: 6000, max_ms: 9000 },
        ]
    );
    let (actions, run) = drive(&script, &|_, a| match a {
        Action::Click { .. } => Event::Missing,
        _ => Event::Done,
    });
    assert_eq!(actions.len(), 7);
    assert_eq!(actions.last(), Some(&Action::Stop { confirmed: true }));
    assert!(!run.failed);
    assert_eq!(selector(Target::PublishNow).query, "input#publish-date-now");
}
