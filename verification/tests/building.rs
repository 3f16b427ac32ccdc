use atrain::assembly::{join_all, BuildAction, BuildEvent, BuildState};
use atrain::builder::{AtrainBuilder, AutoscanBuilder, BernardBuilder};
use atrain::config::{
    Account, Authentication, AutoscanConfig, Config, ConfigError, DriveConfig,
};
use atrain::error::Error;
use atrain::orchestrator::Atrain;

type State = BuildState<String, String>;
type Action = BuildAction<String, String>;
type Event = BuildEvent<String, String>;

fn account(name: &str) -> Account {
    Account { key_file: format!("accounts/{}.json", name) }
}

fn config(primary: Option<&str>, secondary: &[&str]) -> Config {
    Config {
        autoscan: AutoscanConfig {
            url: "http://autoscan.local:3030".to_string(),
            authentication: Authentication {
                username: "user".to_string(),
                password: "pass".to_string(),
            },
        },
        drive: DriveConfig { drives: vec!["drive-1".to_string(), "drive-2".to_string()] },
        secondary: secondary.iter().map(|name| account(name)).collect(),
        primary: primary.map(account),
    }
}

fn plan(name: &str, proxy: Option<&str>) -> BernardBuilder {
    BernardBuilder {
        database_path: "bernard.db".to_string(),
        account: account(name),
        proxy: proxy.map(|p| p.to_string()),
    }
}

fn start(primary: &str, secondary: &[&str]) -> (State, Action) {
    AtrainBuilder::new(config(Some(primary), secondary), "bernard.db").unwrap().build()
}

/// Runs the build up to the availability check, every client built.
fn up_to_liveness(primary: &str, secondary: &[&str]) -> State {
    let (state, _) = start(primary, secondary);
    let built = secondary.iter().map(|name| Ok(name.to_string())).collect();
    let (state, _) = state.advance(Event::SecondariesBuilt(built));
    let (state, _) = state.advance(Event::PrimaryBuilt(Ok(primary.to_string())));
    let (state, action) = state.advance(Event::NotifierBuilt(Ok("autoscan".to_string())));
    assert!(matches!(action, BuildAction::CheckAvailability));
    state
}

fn finished(action: Action) -> Result<Atrain<String, String>, Error> {
    match action {
        BuildAction::Finish(result) => result,
        other => panic!("building has not finished: {:?}", other),
    }
}

#[test]
fn new_without_primary_account_is_a_configuration_error() {
    let r = AtrainBuilder::new(config(None, &["A", "B"]), "bernard.db");
    assert_eq!(r, Err(Error::Configuration(ConfigError::MissingAccount)));
    let r = AtrainBuilder::new(config(None, &[]), "bernard.db");
    assert_eq!(r, Err(Error::Configuration(ConfigError::MissingAccount)));
}

#[test]
fn config_account_reports_missing_primary() {
    assert_eq!(config(None, &["A"]).account(), Err(ConfigError::MissingAccount));
    assert_eq!(config(Some("P"), &["A"]).account(), Ok(&account("P")));
}

#[test]
fn build_hands_out_one_plan_per_secondary_account_in_order() {
    let (state, action) = start("P", &["A", "B"]);
    match action {
        BuildAction::BuildSecondaries(plans) => {
            assert_eq!(plans, vec![plan("A", None), plan("B", None)]);
        },
        other => panic!("unexpected action: {:?}", other),
    }
    match state {
        BuildState::Secondaries { expected, primary, autoscan, drives } => {
            assert_eq!(expected, 2);
            assert_eq!(primary, plan("P", None));
            assert_eq!(autoscan.url, "http://autoscan.local:3030");
            assert_eq!(autoscan.authentication.username, "user");
            assert_eq!(autoscan.authentication.password, "pass");
            assert_eq!(autoscan.proxy, None);
            assert_eq!(drives, vec!["drive-1".to_string(), "drive-2".to_string()]);
        },
        other => panic!("unexpected state: {:?}", other),
    }
}

#[test]
fn build_without_secondary_accounts_hands_out_no_plan() {
    let (state, action) = start("P", &[]);
    assert!(matches!(action, BuildAction::BuildSecondaries(ref plans) if plans.is_empty()));
    assert!(matches!(state, BuildState::Secondaries { expected: 0, .. }));
}

#[test]
fn proxy_reaches_every_planned_client() {
    let builder = AtrainBuilder::new(config(Some("P"), &["A", "B"]), "bernard.db")
        .unwrap()
        .proxy("http://proxy.local:8080");
    let (state, action): (State, Action) = builder.build();
    match action {
        BuildAction::BuildSecondaries(plans) => {
            let p = Some("http://proxy.local:8080");
            assert_eq!(plans, vec![plan("A", p), plan("B", p)]);
        },
        other => panic!("unexpected action: {:?}", other),
    }
    match state {
        BuildState::Secondaries { primary, autoscan, .. } => {
            assert_eq!(primary, plan("P", Some("http://proxy.local:8080")));
            assert_eq!(autoscan.proxy, Some("http://proxy.local:8080".to_string()));
            assert_eq!(autoscan.url, "http://autoscan.local:3030");
        },
        other => panic!("unexpected state: {:?}", other),
    }
}

#[test]
fn proxy_set_twice_keeps_the_last() {
    let builder = AtrainBuilder::new(config(Some("P"), &["A"]), "bernard.db")
        .unwrap()
        .proxy("http://first:1")
        .proxy("http://second:2");
    let (state, action): (State, Action) = builder.build();
    assert!(matches!(
        action,
        BuildAction::BuildSecondaries(ref plans) if *plans == vec![plan("A", Some("http://second:2"))]
    ));
    match state {
        BuildState::Secondaries { primary, autoscan, .. } => {
            assert_eq!(primary.proxy, Some("http://second:2".to_string()));
            assert_eq!(autoscan.proxy, Some("http://second:2".to_string()));
        },
        other => panic!("unexpected state: {:?}", other),
    }
}

#[test]
fn single_plans_take_a_proxy() {
    let b = BernardBuilder::new("db", account("A"));
    assert_eq!(b.proxy, None);
    let b = b.proxy("http://p:1");
    assert_eq!(b.proxy, Some("http://p:1".to_string()));
    assert_eq!(b.database_path, "db");
    assert_eq!(b.account, account("A"));
    let auth = Authentication { username: "u".to_string(), password: "p".to_string() };
    let a = AutoscanBuilder::new("http://a".to_string(), auth.clone()).proxy("http://p:1");
    assert_eq!(a.url, "http://a");
    assert_eq!(a.authentication, auth);
    assert_eq!(a.proxy, Some("http://p:1".to_string()));
}

#[test]
fn build_goes_through_every_stage_in_order() {
    let (state, _) = start("P", &["A", "B"]);
    let (state, action) =
        state.advance(Event::SecondariesBuilt(vec![Ok("A".to_string()), Ok("B".to_string())]));
    assert!(matches!(action, BuildAction::BuildPrimary(ref p) if *p == plan("P", None)));
    assert!(matches!(
        state,
        BuildState::Primary { ref secondaries, .. } if *secondaries == vec!["A".to_string(), "B".to_string()]
    ));
    let (state, action) = state.advance(Event::PrimaryBuilt(Ok("P".to_string())));
    assert!(matches!(
        action,
        BuildAction::BuildNotifier(ref a) if a.url == "http://autoscan.local:3030" && a.proxy.is_none()
    ));
    assert!(matches!(state, BuildState::Notifier { ref primary, .. } if primary == "P"));
    let (state, action) = state.advance(Event::NotifierBuilt(Ok("autoscan".to_string())));
    assert!(matches!(action, BuildAction::CheckAvailability));
    assert!(matches!(state, BuildState::Liveness { ref autoscan, .. } if autoscan == "autoscan"));
    let (state, action) = state.advance(Event::Available);
    assert!(matches!(state, BuildState::Finished));
    let atrain = finished(action).unwrap();
    assert_eq!(atrain.bernards(), &vec!["A".to_string(), "B".to_string(), "P".to_string()]);
    assert_eq!(atrain.bernard(), "P");
    assert_eq!(atrain.autoscan(), "autoscan");
    assert_eq!(atrain.drives(), &vec!["drive-1".to_string(), "drive-2".to_string()]);
}

#[test]
fn built_pool_of_three_hands_out_each_client() {
    let (state, action) = up_to_liveness("P", &["A", "B"]).advance(Event::Available);
    assert!(matches!(state, BuildState::Finished));
    let atrain = finished(action).unwrap();
    assert_eq!(atrain.bernards().len(), 3);
    let mut seen = [0usize; 3];
    for _ in 0..1000 {
        let picked = atrain.get_bernard();
        let at = atrain.bernards().iter().position(|c| c == picked).unwrap();
        seen[at] += 1;
    }
    assert!(seen[0] > 0 && seen[1] > 0 && seen[2] > 0, "picks: {:?}", seen);
    assert_eq!(seen[0] + seen[1] + seen[2], 1000);
}

#[test]
fn pool_of_one_always_hands_out_the_primary() {
    let (_, action) = up_to_liveness("P", &[]).advance(Event::Available);
    let atrain = finished(action).unwrap();
    assert_eq!(atrain.bernards(), &vec!["P".to_string()]);
    for _ in 0..50 {
        assert_eq!(atrain.get_bernard(), "P");
    }
    assert_eq!(atrain.bernard(), "P");
}

#[test]
fn unavailable_notification_service_fails_the_build() {
    let (state, action) =
        up_to_liveness("P", &["A", "B"]).advance(Event::Unavailable("connection refused".to_string()));
    assert!(matches!(state, BuildState::Finished));
    match finished(action) {
        Err(e) => assert_eq!(e, Error::AutoscanUnavailable("connection refused".to_string())),
        Ok(_) => panic!("an orchestrator came out"),
    }
}

#[test]
fn one_failed_secondary_fails_the_build() {
    let (state, _) = start("P", &["A", "B", "C"]);
    let outcomes = vec![
        Ok("A".to_string()),
        Err(Error::Bernard("invalid credentials".to_string())),
        Ok("C".to_string()),
    ];
    let (state, action) = state.advance(Event::SecondariesBuilt(outcomes));
    assert!(matches!(state, BuildState::Finished));
    match finished(action) {
        Err(e) => assert_eq!(e, Error::Bernard("invalid credentials".to_string())),
        Ok(_) => panic!("an orchestrator came out"),
    }
}

#[test]
fn several_failed_secondaries_report_the_first() {
    let (state, _) = start("P", &["A", "B", "C"]);
    let outcomes = vec![
        Ok("A".to_string()),
        Err(Error::Bernard("first".to_string())),
        Err(Error::Unexpected("second".to_string())),
    ];
    let (_, action) = state.advance(Event::SecondariesBuilt(outcomes));
    match finished(action) {
        Err(e) => assert_eq!(e, Error::Bernard("first".to_string())),
        Ok(_) => panic!("an orchestrator came out"),
    }
}

#[test]
fn failed_primary_fails_the_build() {
    let (state, _) = start("P", &["A"]);
    let (state, _) = state.advance(Event::SecondariesBuilt(vec![Ok("A".to_string())]));
    let (state, action) =
        state.advance(Event::PrimaryBuilt(Err(Error::Bernard("no database".to_string()))));
    assert!(matches!(state, BuildState::Finished));
    match finished(action) {
        Err(e) => assert_eq!(e, Error::Bernard("no database".to_string())),
        Ok(_) => panic!("an orchestrator came out"),
    }
}

#[test]
fn failed_notifier_fails_the_build() {
    let (state, _) = start("P", &["A"]);
    let (state, _) = state.advance(Event::SecondariesBuilt(vec![Ok("A".to_string())]));
    let (state, _) = state.advance(Event::PrimaryBuilt(Ok("P".to_string())));
    let failure = Error::Unexpected("invalid proxy".to_string());
    let (state, action) = state.advance(Event::NotifierBuilt(Err(failure.clone())));
    assert!(matches!(state, BuildState::Finished));
    match finished(action) {
        Err(e) => assert_eq!(e, failure),
        Ok(_) => panic!("an orchestrator came out"),
    }
}

#[test]
fn miscounted_outcomes_fail_the_build() {
    let (state, _) = start("P", &["A", "B"]);
    let (state, action) = state.advance(Event::SecondariesBuilt(vec![Ok("A".to_string())]));
    assert!(matches!(state, BuildState::Finished));
    match finished(action) {
        Err(e) => {
            assert_eq!(e, Error::Unexpected("unexpected number of built clients".to_string()));
            assert_eq!(e, Error::miscounted());
        },
        Ok(_) => panic!("an orchestrator came out"),
    }
}

#[test]
fn event_out_of_order_fails_the_build() {
    let (state, _) = start("P", &["A"]);
    let (state, action) = state.advance(Event::Available);
    assert!(matches!(state, BuildState::Finished));
    match finished(action) {
        Err(e) => assert_eq!(e, Error::Unexpected("event out of order".to_string())),
        Ok(_) => panic!("an orchestrator came out"),
    }
    let (state, action) = State::Finished.advance(Event::Available);
    assert!(matches!(state, BuildState::Finished));
    assert!(matches!(finished(action), Err(Error::Unexpected(_))));
    let (_, action) = up_to_liveness("P", &[]).advance(Event::PrimaryBuilt(Ok("Q".to_string())));
    match finished(action) {
        Err(e) => assert_eq!(e, Error::out_of_order()),
        Ok(_) => panic!("an orchestrator came out"),
    }
}

#[test]
fn join_all_keeps_the_order_of_the_clients() {
    let joined = join_all(vec![Ok::<u32, Error>(3), Ok(1), Ok(2)]);
    assert_eq!(joined, Ok(vec![3, 1, 2]));
    let joined = join_all(Vec::<Result<u32, Error>>::new());
    assert_eq!(joined, Ok(vec![]));
}

#[test]
fn join_all_reports_the_first_failure_alone() {
    let joined = join_all(vec![
        Ok::<u32, Error>(3),
        Err(Error::Bernard("b".to_string())),
        Ok(2),
        Err(Error::Unexpected("u".to_string())),
    ]);
    assert_eq!(joined, Err(Error::Bernard("b".to_string())));
    let joined = join_all(vec![Err::<u32, Error>(Error::Unexpected("only".to_string()))]);
    assert_eq!(joined, Err(Error::Unexpected("only".to_string())));
}

#[test]
fn error_messages_name_the_kind() {
    assert_eq!(Error::AutoscanUnavailable("x".to_string()).message(), "Autoscan is unavailable");
    assert_eq!(Error::Bernard("x".to_string()).message(), "Bernard");
    assert_eq!(Error::Unexpected("disk full".to_string()).message(), "disk full");
    assert_eq!(
        Error::Configuration(ConfigError::MissingAccount).message(),
        "Invalid configuration"
    );
}

#[test]
fn draws_are_dealt_round_the_pool() {
    let (_, action) = up_to_liveness("P", &["A", "B"]).advance(Event::Available);
    let atrain = finished(action).unwrap();
    let picked: Vec<&str> = (0..7).map(|draw| atrain.get_bernard_at(draw).as_str()).collect();
    assert_eq!(picked, vec!["A", "B", "P", "A", "B", "P", "A"]);
    assert_eq!(atrain.get_bernard_at(usize::MAX), &atrain.bernards()[usize::MAX % 3]);
}

#[test]
fn every_client_of_the_pool_has_a_draw() {
    let (_, action) = up_to_liveness("P", &["A", "B", "C", "D"]).advance(Event::Available);
    let atrain = finished(action).unwrap();
    for (place, client) in atrain.bernards().iter().enumerate() {
        assert_eq!(atrain.get_bernard_at(place), client);
    }
}

#[test]
fn random_pick_is_always_a_client_of_the_pool() {
    let (_, action) = up_to_liveness("P", &["A", "B", "C", "D"]).advance(Event::Available);
    let atrain = finished(action).unwrap();
    for _ in 0..200 {
        let picked = atrain.get_bernard();
        assert!(atrain.bernards().iter().any(|c| std::ptr::eq(c, picked)));
    }
}

#[test]
fn drives_are_carried_through_in_order() {
    let mut cfg = config(Some("P"), &[]);
    cfg.drive = DriveConfig {
        drives: vec!["z".to_string(), "a".to_string(), "z".to_string()],
    };
    let (state, _): (State, Action) = AtrainBuilder::new(cfg, "db").unwrap().proxy("http://p").build();
    let (state, _) = state.advance(Event::SecondariesBuilt(vec![]));
    let (state, _) = state.advance(Event::PrimaryBuilt(Ok("P".to_string())));
    let (state, _) = state.advance(Event::NotifierBuilt(Ok("n".to_string())));
    let atrain = finished(state.advance(Event::Available).1).unwrap();
    assert_eq!(atrain.drives(), &vec!["z".to_string(), "a".to_string(), "z".to_string()]);
}
