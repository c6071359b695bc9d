use sowm::engine::{Engine, EngineAction, LoopingIter};
use sowm::messages::{ClientMessage, Config, Init, ServerMessage};

fn init_with(config: Config) -> Init {
    Init {
        config_path: b"/home/user/.config/sowm/config.toml".to_vec(),
        socket_file: b"/run/user/1000/sowm.fifo".to_vec(),
        does_socket_file_exist: false,
        config,
    }
}

fn paths(names: &[&str]) -> Vec<Vec<u8>> {
    names.iter().map(|n| n.as_bytes().to_vec()).collect()
}

#[test]
fn looping_iter_wraps() {
    let mut it = LoopingIter::new(paths(&["a", "b", "c"]));
    assert_eq!(it.len(), 3);
    assert_eq!(it.next(), Some(b"a".to_vec()));
    assert_eq!(it.next(), Some(b"b".to_vec()));
    assert_eq!(it.next(), Some(b"c".to_vec()));
    assert_eq!(it.next(), Some(b"a".to_vec()));
}

#[test]
fn looping_iter_empty_yields_nothing() {
    let mut it = LoopingIter::new(Vec::new());
    assert_eq!(it.len(), 0);
    assert_eq!(it.next(), None);
    assert_eq!(it.next(), None);
}

#[test]
fn cursor_wrap_two_monitors_three_images() {
    // N = 3 images, M = 2 monitors: the first advance selects the first
    // two images, the second wraps around.
    let config = Config::new(60, false, b"/pics".to_vec(), 2);
    let mut engine = Engine::new(init_with(config), paths(&["a", "b", "c"]));

    let first = engine.next().expect("advance must succeed");
    assert_eq!(first, paths(&["a", "b"]));
    assert_eq!(engine.cursor(), 2); // (1 advance * 2 monitors) % 3

    let second = engine.next().expect("advance must succeed");
    assert_eq!(second, paths(&["c", "a"]));
    assert_eq!(engine.cursor(), 1); // (2 advances * 2 monitors) % 3

    for k in 3..=10usize {
        engine.next().expect("advance must succeed");
        assert_eq!(engine.cursor(), (k * 2) % 3);
    }
}

#[test]
fn empty_set_guard() {
    let config = Config::new(60, false, b"/pics".to_vec(), 2);
    let mut engine = Engine::new(init_with(config), Vec::new());

    assert_eq!(engine.next(), Err(ServerMessage::NoImagesFound));
    assert_eq!(engine.cursor(), 0);

    assert!(matches!(
        engine.cycle(),
        EngineAction::Failed(ServerMessage::NoImagesFound)
    ));
    assert!(matches!(
        engine.handle_message(ClientMessage::Next),
        EngineAction::Failed(ServerMessage::NoImagesFound)
    ));
    assert_eq!(engine.cursor(), 0);
    assert!(engine.is_running());
}

#[test]
fn stop_next_start_ends_running_and_advances() {
    let config = Config::new(60, false, b"/pics".to_vec(), 1);
    let mut engine = Engine::new(init_with(config), paths(&["a", "b", "c"]));
    assert!(engine.is_running());

    assert!(matches!(
        engine.handle_message(ClientMessage::Stop),
        EngineAction::Nothing
    ));
    assert!(!engine.is_running());

    // Next fires even while stopped: the explicit manual override.
    match engine.handle_message(ClientMessage::Next) {
        EngineAction::SetBackground(sel) => assert_eq!(sel, paths(&["a"])),
        _ => panic!("Next while stopped must still set the background"),
    }
    assert_eq!(engine.cursor(), 1);
    assert!(!engine.is_running());

    assert!(matches!(
        engine.handle_message(ClientMessage::Start),
        EngineAction::Nothing
    ));
    assert!(engine.is_running());
    assert_eq!(engine.cursor(), 1);
}

#[test]
fn period_elapse_is_noop_while_stopped() {
    let config = Config::new(60, false, b"/pics".to_vec(), 1);
    let mut engine = Engine::new(init_with(config), paths(&["a", "b"]));
    engine.handle_message(ClientMessage::Stop);

    assert!(matches!(engine.cycle(), EngineAction::Nothing));
    assert_eq!(engine.cursor(), 0);

    engine.handle_message(ClientMessage::Start);
    match engine.cycle() {
        EngineAction::SetBackground(sel) => assert_eq!(sel, paths(&["a"])),
        _ => panic!("cycle while running must set the background"),
    }
    assert_eq!(engine.cursor(), 1);
}

#[test]
fn update_is_deferred_then_applied() {
    let config = Config::new(60, false, b"/pics".to_vec(), 1);
    let mut engine = Engine::new(init_with(config), paths(&["a", "b", "c"]));
    engine.next().unwrap();
    engine.handle_message(ClientMessage::Stop);
    assert_eq!(engine.cursor(), 1);

    let fresh = Config::new(999, false, b"/other".to_vec(), 2);
    match engine.handle_message(ClientMessage::Update(fresh.clone())) {
        EngineAction::Reload(c) => assert_eq!(c, fresh),
        _ => panic!("Update must ask for a reload"),
    }
    // Nothing changes until the new image set arrives.
    assert_eq!(engine.cursor(), 1);
    assert_eq!(engine.num_monitors(), 1);

    engine.apply_update(fresh, paths(&["x", "y"]));
    assert_eq!(engine.cursor(), 0);
    assert_eq!(engine.num_monitors(), 2);
    assert_eq!(engine.num_images(), 2);
    // Mode is preserved: the engine was stopped and stays stopped.
    assert!(!engine.is_running());

    match engine.handle_message(ClientMessage::Next) {
        EngineAction::SetBackground(sel) => assert_eq!(sel, paths(&["x", "y"])),
        _ => panic!("advance after update must select the new images"),
    }
}

#[test]
fn shuffle_keeps_exactly_the_same_images() {
    let names: Vec<String> = (0..32).map(|i| format!("/pics/{i}.png")).collect();
    let images: Vec<Vec<u8>> = names.iter().map(|n| n.as_bytes().to_vec()).collect();
    let config = Config::new(60, true, b"/pics".to_vec(), 1);
    let mut engine = Engine::new(init_with(config), images.clone());
    assert_eq!(engine.num_images(), images.len());

    let mut seen = Vec::new();
    for _ in 0..images.len() {
        let sel = engine.next().expect("advance must succeed");
        seen.extend(sel);
    }
    let mut expected = images;
    expected.sort();
    seen.sort();
    assert_eq!(seen, expected);
}
