use protosuit_engine::error::SDLError;
use protosuit_engine::sdl_manager::{HostEvent, SDLManager, StoppedApp};

fn sorted(mut names: Vec<String>) -> Vec<String> {
    names.sort();
    names
}

#[test]
fn new_registry_is_empty() {
    let host = SDLManager::new();
    assert!(host.get_running_apps().is_empty());
    assert!(!host.is_running("debug"));
    assert_eq!(host.get_window("debug"), None);
}

#[test]
fn launch_plan_repeats_what_was_asked() {
    let host = SDLManager::new();
    let args = vec!["--device".to_string(), "0".to_string()];
    let request = host.launch_app("cam", "capture", &args).unwrap();
    assert_eq!(request.name, "cam");
    assert_eq!(request.command, "capture");
    assert_eq!(request.args, args);
    assert!(!request.canvas);
    assert!(!host.is_running("cam"));
}

#[test]
fn sentinel_command_asks_for_a_canvas() {
    let host = SDLManager::new();
    let request = host.launch_app("debug", "true", &Vec::new()).unwrap();
    assert!(request.canvas);
    assert_eq!(request.command, "true");
    let other = host.launch_app("debug", "True", &Vec::new()).unwrap();
    assert!(!other.canvas);
}

#[test]
fn launch_of_a_running_name_is_refused() {
    let mut host = SDLManager::new();
    host.store_window("cam", 11, 22).unwrap();
    let refused = host.launch_app("cam", "capture", &Vec::new());
    assert_eq!(refused, Err(SDLError::AlreadyRunning("cam".to_string())));
    assert_eq!(host.get_window("cam"), Some(22));
}

#[test]
fn store_window_registers_the_handles() {
    let mut host = SDLManager::new();
    assert_eq!(host.store_window("cam", 11, 22), Ok(()));
    assert!(host.is_running("cam"));
    assert_eq!(host.get_window("cam"), Some(22));
    assert_eq!(host.get_window_obj("cam"), Ok(22));
    assert_eq!(host.get_running_apps(), vec!["cam".to_string()]);
}

#[test]
fn store_window_does_not_overwrite() {
    let mut host = SDLManager::new();
    host.store_window("cam", 11, 22).unwrap();
    let refused = host.store_window("cam", 33, 44);
    assert_eq!(refused, Err(SDLError::AlreadyRunning("cam".to_string())));
    assert_eq!(host.get_window("cam"), Some(22));
    assert_eq!(host.get_running_apps().len(), 1);
    assert_eq!(host.stop_app("cam", Ok(())), Ok((11, 22)));
}

#[test]
fn get_handles_tells_what_to_terminate() {
    let mut host = SDLManager::new();
    host.store_window("cam", 11, 22).unwrap();
    assert_eq!(host.get_handles("cam"), Some((11, 22)));
    assert_eq!(host.get_handles("debug"), None);
    assert!(host.is_running("cam"));
}

#[test]
fn stop_app_hands_back_the_handles_and_removes() {
    let mut host = SDLManager::new();
    host.store_window("cam", 11, 22).unwrap();
    host.store_window("debug", 33, 44).unwrap();
    assert_eq!(host.stop_app("cam", Ok(())), Ok((11, 22)));
    assert!(!host.is_running("cam"));
    assert!(host.is_running("debug"));
    assert_eq!(host.get_window("debug"), Some(44));
    assert_eq!(host.get_running_apps(), vec!["debug".to_string()]);
}

#[test]
fn stop_app_whose_termination_failed_is_refused_and_keeps_the_entry() {
    let mut host = SDLManager::new();
    host.store_window("cam", 11, 22).unwrap();
    host.store_window("debug", 33, 44).unwrap();
    let refused = host.stop_app("cam", Err("Failed to kill process".to_string()));
    assert_eq!(refused, Err(SDLError::SDLError("Failed to kill process".to_string())));
    assert!(host.is_running("cam"));
    assert_eq!(host.get_handles("cam"), Some((11, 22)));
    assert_eq!(host.get_running_apps().len(), 2);
    assert_eq!(host.stop_app("cam", Ok(())), Ok((11, 22)));
    assert_eq!(host.get_running_apps().len(), 1);
}

#[test]
fn stop_app_of_an_unknown_name_is_refused() {
    let mut host = SDLManager::new();
    host.store_window("debug", 33, 44).unwrap();
    assert_eq!(host.stop_app("cam", Ok(())), Err(SDLError::NotFound("cam".to_string())));
    assert_eq!(
        host.stop_app("cam", Err("gone".to_string())),
        Err(SDLError::NotFound("cam".to_string()))
    );
    assert_eq!(host.get_running_apps(), vec!["debug".to_string()]);
}

#[test]
fn stop_app_twice_is_refused_the_second_time() {
    let mut host = SDLManager::new();
    host.store_window("cam", 11, 22).unwrap();
    assert!(host.stop_app("cam", Ok(())).is_ok());
    assert_eq!(host.stop_app("cam", Ok(())), Err(SDLError::NotFound("cam".to_string())));
}

#[test]
fn get_window_obj_of_an_unknown_name_is_refused() {
    let host = SDLManager::new();
    assert_eq!(host.get_window_obj("cam"), Err(SDLError::NotFound("cam".to_string())));
}

#[test]
fn running_apps_lists_every_name_once() {
    let mut host = SDLManager::new();
    host.store_window("debug", 1, 2).unwrap();
    host.store_window("cam", 3, 4).unwrap();
    host.store_window("idle", 5, 6).unwrap();
    let names = sorted(host.get_running_apps());
    assert_eq!(names, vec!["cam".to_string(), "debug".to_string(), "idle".to_string()]);
}

#[test]
fn registry_size_follows_stores_and_stops() {
    let mut host = SDLManager::new();
    assert_eq!(host.get_running_apps().len(), 0);
    host.store_window("a", 1, 1).unwrap();
    host.store_window("b", 2, 2).unwrap();
    assert!(host.store_window("a", 3, 3).is_err());
    assert_eq!(host.get_running_apps().len(), 2);
    host.stop_app("a", Ok(())).unwrap();
    assert!(host.stop_app("zzz", Ok(())).is_err());
    assert!(host.stop_app("b", Err("busy".to_string())).is_err());
    assert_eq!(host.get_running_apps().len(), 1);
    host.store_window("a", 4, 4).unwrap();
    assert_eq!(host.get_running_apps().len(), 2);
    assert_eq!(host.get_window("a"), Some(4));
}

#[test]
fn cleanup_lists_every_entry_once_and_leaves_the_registry() {
    let mut host = SDLManager::new();
    host.store_window("debug", 1, 2).unwrap();
    host.store_window("cam", 3, 4).unwrap();
    let mut running = host.cleanup();
    running.sort_by(|a, b| a.name.cmp(&b.name));
    assert_eq!(
        running,
        vec![
            StoppedApp { name: "cam".to_string(), process: 3, window: 4 },
            StoppedApp { name: "debug".to_string(), process: 1, window: 2 },
        ]
    );
    assert_eq!(host.get_running_apps().len(), 2);
    assert_eq!(host.stop_app("cam", Ok(())), Ok((3, 4)));
    assert_eq!(host.stop_app("debug", Err("no such process".to_string())), Err(SDLError::SDLError("no such process".to_string())));
    assert_eq!(host.get_running_apps(), vec!["debug".to_string()]);
}

#[test]
fn cleanup_of_an_empty_registry_is_empty() {
    let host = SDLManager::new();
    assert!(host.cleanup().is_empty());
    assert!(host.get_running_apps().is_empty());
}

#[test]
fn names_are_told_apart_exactly() {
    let mut host = SDLManager::new();
    host.store_window("cam", 1, 2).unwrap();
    assert!(!host.is_running("Cam"));
    assert!(!host.is_running("cam "));
    assert!(!host.is_running(""));
    assert_eq!(host.store_window("", 7, 8), Ok(()));
    assert_eq!(host.get_window(""), Some(8));
}

#[test]
fn pump_events_quits_on_quit() {
    let host = SDLManager::new();
    assert!(!host.pump_events(&Vec::new()));
    assert!(!host.pump_events(&vec![HostEvent::Other, HostEvent::Other]));
    assert!(host.pump_events(&vec![HostEvent::Quit]));
    assert!(host.pump_events(&vec![HostEvent::Other, HostEvent::Quit, HostEvent::Other]));
}
