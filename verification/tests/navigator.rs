use drop_gui::device::Device;
use drop_gui::messages::{Command, Message, SceneMessage};
use drop_gui::scene::{Scene, Scenes};

#[test]
fn scenes_come_in_the_fixed_order() {
    let scenes = Scenes::new();
    assert_eq!(scenes.current, 0);
    assert_eq!(scenes.list.len(), 3);
    assert_eq!(scenes.title(), "Welcome");
    assert!(matches!(scenes.list[0], Scene::Greeter));
    assert!(matches!(scenes.list[1], Scene::Prediction(_)));
    assert!(matches!(scenes.list[2], Scene::Training(_)));
}

#[test]
fn back_on_the_first_scene_is_a_noop() {
    let mut scenes = Scenes::new();
    assert!(!scenes.has_previous());
    scenes.back();
    assert_eq!(scenes.current, 0);
}

#[test]
fn next_on_the_last_scene_is_a_noop() {
    let mut scenes = Scenes::new();
    scenes.next();
    scenes.next();
    assert_eq!(scenes.current, 2);
    assert!(!scenes.can_continue());
    scenes.next();
    assert_eq!(scenes.current, 2);
}

#[test]
fn back_then_next_returns_to_the_same_scene() {
    let mut scenes = Scenes::new();
    scenes.next();
    assert_eq!(scenes.current, 1);
    scenes.back();
    scenes.next();
    assert_eq!(scenes.current, 1);
    assert_eq!(scenes.title(), "Prediction");
}

#[test]
fn cursor_moves_by_one_and_titles_follow() {
    let mut scenes = Scenes::new();
    assert!(scenes.can_continue());
    scenes.next();
    assert_eq!(scenes.title(), "Prediction");
    assert!(scenes.has_previous());
    scenes.next();
    assert_eq!(scenes.title(), "Model creation and Training");
    scenes.back();
    assert_eq!(scenes.title(), "Prediction");
}

#[test]
fn dispatch_routes_navigation_and_scene_events() {
    let mut scenes = Scenes::new();
    assert!(scenes.dispatch(Message::NextPressed).is_none());
    assert_eq!(scenes.current, 1);

    // A scene event goes to the active (prediction) scene.
    let cmd = scenes.dispatch(Message::SceneMessage(SceneMessage::DeviceSelected(Device::CH100)));
    assert_eq!(cmd, Some(Command::LoadModels { device: Device::CH100 }));
    match &scenes.list[1] {
        Scene::Prediction(ui) => assert_eq!(ui.selection, Some(Device::CH100)),
        other => panic!("expected the prediction scene, got {:?}", other.title()),
    }

    // The training screen's name event does nothing on the prediction scene.
    scenes.dispatch(Message::SceneMessage(SceneMessage::InputChanged("name".to_string())));
    match &scenes.list[2] {
        Scene::Training(ui) => assert_eq!(ui.model_name, ""),
        _ => panic!("expected the training scene"),
    }

    // On the training scene the same event sets the model name.
    scenes.dispatch(Message::NextPressed);
    scenes.dispatch(Message::SceneMessage(SceneMessage::InputChanged("name".to_string())));
    match &scenes.list[2] {
        Scene::Training(ui) => assert_eq!(ui.model_name, "name"),
        _ => panic!("expected the training scene"),
    }

    assert!(scenes.dispatch(Message::BackPressed).is_none());
    assert_eq!(scenes.current, 1);
}

#[test]
fn greeter_ignores_scene_events() {
    let mut scenes = Scenes::new();
    let cmd = scenes.dispatch(Message::SceneMessage(SceneMessage::GoPressed));
    assert!(cmd.is_none());
    assert_eq!(scenes.current, 0);
    assert_eq!(scenes.title(), "Welcome");
}

#[test]
fn scene_titles() {
    for scene in Scene::all_scenes() {
        match scene {
            Scene::Greeter => assert_eq!(scene.title(), "Welcome"),
            Scene::Prediction(_) => assert_eq!(scene.title(), "Prediction"),
            Scene::Training(_) => assert_eq!(scene.title(), "Model creation and Training"),
        }
    }
}
