use style_reload::controller::RollbackAction;
use style_reload::controller::RollbackController;
use style_reload::store::LastGoodStore;

/// A stand-in for the style engine plus the host glue: the test decides
/// whether `try_activate` accepts `text` (the `valid` argument), applies it to
/// the fake engine exactly as the engine contract says, and then performs the
/// action the controller returns, as the host would.
fn drive(engine: &mut String, controller: &mut RollbackController, text: &str, valid: bool) {
    if valid {
        // try_activate succeeded: the engine now renders `text`.
        *engine = text.to_string();
    }
    // on failure the engine keeps its prior stylesheet untouched.
    match controller.on_change(text.to_string(), valid) {
        RollbackAction::KeepActive => assert!(valid),
        RollbackAction::ForceActivate(snapshot) => {
            assert!(!valid);
            *engine = snapshot;
        }
    }
}

#[test]
fn empty_text_accepted() {
    let mut engine = String::new();
    let mut controller = RollbackController::new();
    drive(&mut engine, &mut controller, "", true);
    assert_eq!(controller.last_good(), "");
    assert_eq!(engine, "");
}

#[test]
fn valid_rule_accepted() {
    let mut engine = String::new();
    let mut controller = RollbackController::new();
    drive(&mut engine, &mut controller, ".x{color:red}", true);
    assert_eq!(controller.last_good(), ".x{color:red}");
    assert_eq!(engine, ".x{color:red}");
}

#[test]
fn malformed_text_rolls_back() {
    let mut engine = String::new();
    let mut controller = RollbackController::new();
    drive(&mut engine, &mut controller, ".x{color:red}", true);

    // The user is mid-edit: the surface holds the malformed text.
    let surface = ".x{color".to_string();
    drive(&mut engine, &mut controller, &surface, false);
    assert_eq!(controller.last_good(), ".x{color:red}");
    assert_eq!(engine, ".x{color:red}");
    // The handler never wrote into the surface.
    assert_eq!(surface, ".x{color");
}

#[test]
fn recovers_after_failure() {
    let mut engine = String::new();
    let mut controller = RollbackController::new();
    drive(&mut engine, &mut controller, ".x{color:red}", true);
    drive(&mut engine, &mut controller, ".x{color", false);
    drive(&mut engine, &mut controller, ".x{color:blue}", true);
    assert_eq!(controller.last_good(), ".x{color:blue}");
    assert_eq!(engine, ".x{color:blue}");
}

#[test]
fn first_change_malformed_falls_back_to_empty() {
    let mut engine = String::new();
    let mut controller = RollbackController::new();
    let action = controller.on_change(".broken{".to_string(), false);
    match action {
        RollbackAction::ForceActivate(snapshot) => assert_eq!(snapshot, ""),
        RollbackAction::KeepActive => panic!("a rejected text must trigger a rollback"),
    }
    assert_eq!(controller.last_good(), "");
}

#[test]
fn repeated_valid_change_is_idempotent() {
    let mut engine_once = String::new();
    let mut once = RollbackController::new();
    drive(&mut engine_once, &mut once, ".y{margin:0}", true);

    let mut engine_twice = String::new();
    let mut twice = RollbackController::new();
    drive(&mut engine_twice, &mut twice, ".y{margin:0}", true);
    drive(&mut engine_twice, &mut twice, ".y{margin:0}", true);

    assert_eq!(once.last_good(), twice.last_good());
    assert_eq!(engine_once, engine_twice);
}

#[test]
fn repeated_failures_reassert_same_snapshot() {
    let mut engine = String::new();
    let mut controller = RollbackController::new();
    drive(&mut engine, &mut controller, "p{padding:1px}", true);
    for attempt in ["p{padding", "p{", "p{pad::"] {
        let action = controller.on_change(attempt.to_string(), false);
        match action {
            RollbackAction::ForceActivate(snapshot) => assert_eq!(snapshot, "p{padding:1px}"),
            RollbackAction::KeepActive => panic!("a rejected text must trigger a rollback"),
        }
        assert_eq!(controller.last_good(), "p{padding:1px}");
    }
}

#[test]
fn identical_to_snapshot_still_handled_as_success() {
    let mut engine = String::new();
    let mut controller = RollbackController::new();
    drive(&mut engine, &mut controller, "a{top:0}", true);
    // A change whose text equals the snapshot still goes through activation
    // and is accepted as a no-op success.
    drive(&mut engine, &mut controller, "a{top:0}", true);
    assert_eq!(controller.last_good(), "a{top:0}");
    assert_eq!(engine, "a{top:0}");
}

#[test]
fn engine_always_shows_a_validated_text() {
    let mut engine = String::new();
    let mut controller = RollbackController::new();
    let script = [
        ("", true),
        (".a{color:red}", true),
        (".a{color", false),
        (".a{col", false),
        (".a{color:green}", true),
        ("garbage{{{", false),
    ];
    let mut accepted: Vec<String> = vec![String::new()];
    for (text, valid) in script {
        if valid {
            accepted.push(text.to_string());
        }
        drive(&mut engine, &mut controller, text, valid);
        // After every call the engine renders a text that activation
        // accepted at some earlier point, or the initial empty stylesheet.
        assert!(accepted.contains(&engine));
        assert_eq!(engine, controller.last_good());
    }
}

#[test]
fn store_starts_empty() {
    let store = LastGoodStore::new();
    assert_eq!(store.get(), "");
}

#[test]
fn store_set_replaces_wholesale() {
    let mut store = LastGoodStore::new();
    store.set("h1{font-size:2em}".to_string());
    assert_eq!(store.get(), "h1{font-size:2em}");
    store.set("h2{}".to_string());
    assert_eq!(store.get(), "h2{}");
}

#[test]
fn store_get_returns_an_uncorruptible_copy() {
    let mut store = LastGoodStore::new();
    store.set("div{}".to_string());
    let mut copy = store.get();
    copy.push_str("garbage");
    assert_eq!(store.get(), "div{}");
}

#[test]
fn controller_snapshot_is_a_copy() {
    let mut engine = String::new();
    let mut controller = RollbackController::new();
    drive(&mut engine, &mut controller, "b{left:0}", true);
    let mut copy = controller.last_good();
    copy.clear();
    assert_eq!(controller.last_good(), "b{left:0}");
}
