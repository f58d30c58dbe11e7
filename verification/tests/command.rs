use protosuit_engine::command::{copy_strings, AppCommand, BuiltinScene};

#[test]
fn builtin_scenes_answer_to_their_identifiers() {
    assert_eq!(BuiltinScene::from_name("debug"), Some(BuiltinScene::Debug));
    assert_eq!(BuiltinScene::from_name("idle"), Some(BuiltinScene::Idle));
    assert_eq!(BuiltinScene::Debug.identifier(), "debug");
    assert_eq!(BuiltinScene::Idle.identifier(), "idle");
}

#[test]
fn other_names_are_no_builtin_scene() {
    assert_eq!(BuiltinScene::from_name("cam"), None);
    assert_eq!(BuiltinScene::from_name(""), None);
    assert_eq!(BuiltinScene::from_name("Debug"), None);
    assert_eq!(BuiltinScene::from_name("idle "), None);
    assert_eq!(BuiltinScene::from_name("Protosuit Debug"), None);
}

#[test]
fn startup_scene_is_the_configured_builtin() {
    assert_eq!(BuiltinScene::startup(Some("idle")), BuiltinScene::Idle);
    assert_eq!(BuiltinScene::startup(Some("debug")), BuiltinScene::Debug);
}

#[test]
fn startup_scene_falls_back_to_diagnostics() {
    assert_eq!(BuiltinScene::startup(None), BuiltinScene::Debug);
    assert_eq!(BuiltinScene::startup(Some("clock")), BuiltinScene::Debug);
    assert_eq!(BuiltinScene::startup(Some("")), BuiltinScene::Debug);
}

#[test]
fn command_name_is_the_scene_it_is_about() {
    let start = AppCommand::Start {
        name: "cam".to_string(),
        command: "capture".to_string(),
        args: vec!["--device".to_string(), "0".to_string()],
    };
    let stop = AppCommand::Stop { name: "idle".to_string() };
    let switch = AppCommand::Switch { name: "debug".to_string() };
    assert_eq!(start.name(), "cam");
    assert_eq!(stop.name(), "idle");
    assert_eq!(switch.name(), "debug");
}

#[test]
fn duplicate_says_the_same() {
    let start = AppCommand::Start {
        name: "cam".to_string(),
        command: "capture".to_string(),
        args: vec!["--device".to_string(), "0".to_string()],
    };
    assert_eq!(start.duplicate(), start);
    let stop = AppCommand::Stop { name: "idle".to_string() };
    assert_eq!(stop.duplicate(), stop);
    assert_ne!(stop.duplicate(), AppCommand::Switch { name: "idle".to_string() });
}

#[test]
fn copy_strings_keeps_order() {
    let names = vec!["b".to_string(), "a".to_string(), "b".to_string()];
    assert_eq!(copy_strings(&names), names);
    assert_eq!(copy_strings(&Vec::new()), Vec::<String>::new());
}
