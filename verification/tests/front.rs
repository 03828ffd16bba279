use twitch_chat::geometry::{pos2, Rect};
use twitch_chat::root_view::{process_input_for_commands, Command};
use twitch_chat::tab::TabRegions;

fn rect(x0: u16, y0: u16, x1: u16, y1: u16) -> Rect {
    Rect::from_min_max(pos2(x0, y0), pos2(x1, y1))
}

#[test]
fn text_without_a_slash_is_something_to_say() {
    assert!(matches!(process_input_for_commands("hello"), Command::Say));
    assert!(matches!(process_input_for_commands(""), Command::Say));
    assert!(matches!(process_input_for_commands(" /join #a"), Command::Say));
}

#[test]
fn join_takes_its_argument() {
    assert!(matches!(process_input_for_commands("/join #a,#b"),
        Command::Join { channel: "#a,#b" }));
    assert!(matches!(process_input_for_commands("/join a b"), Command::Join { channel: "a b" }));
    assert!(matches!(process_input_for_commands("/join "), Command::Join { channel: "" }));
}

#[test]
fn part_with_and_without_a_channel() {
    assert!(matches!(process_input_for_commands("/part #a"), Command::Part { channel: "#a" }));
    assert!(matches!(process_input_for_commands("/part"), Command::PartCurrent));
}

#[test]
fn reconnect_and_quit_take_any_argument() {
    assert!(matches!(process_input_for_commands("/reconnect"), Command::Reconnect));
    assert!(matches!(process_input_for_commands("/reconnect now"), Command::Reconnect));
    assert!(matches!(process_input_for_commands("/quit"), Command::Quit));
    assert!(matches!(process_input_for_commands("/quit bye"), Command::Quit));
}

#[test]
fn unknown_commands_are_complained_about() {
    match process_input_for_commands("/dance now") {
        Command::Error { msg } => assert_eq!(msg, "unknown command: 'dance' (args: [Some(\"now\")]"),
        other => panic!("not an error: {other:?}"),
    }
    match process_input_for_commands("/join") {
        Command::Error { msg } => assert_eq!(msg, "unknown command: 'join' (args: [None]"),
        other => panic!("not an error: {other:?}"),
    }
    match process_input_for_commands("/") {
        Command::Error { msg } => assert_eq!(msg, "unknown command: '' (args: [None]"),
        other => panic!("not an error: {other:?}"),
    }
}

#[test]
fn commands_are_cut_at_characters() {
    assert!(matches!(process_input_for_commands("/join #caf\u{e9}"),
        Command::Join { channel: "#caf\u{e9}" }));
    match process_input_for_commands("/d\u{e9}j\u{e0} vu") {
        Command::Error { msg } => {
            assert_eq!(msg, "unknown command: 'd\u{e9}j\u{e0}' (args: [Some(\"vu\")]")
        }
        other => panic!("not an error: {other:?}"),
    }
}

#[test]
fn regions_find_the_tab_under_a_point() {
    let mut regions = TabRegions::new();
    regions.insert("#a", rect(0, 0, 3, 0));
    regions.insert("#b", rect(5, 0, 8, 0));
    assert_eq!(regions.containing_point(pos2(1, 0)).as_deref(), Some("#a"));
    assert_eq!(regions.containing_point(pos2(5, 0)).as_deref(), Some("#b"));
    assert_eq!(regions.containing_point(pos2(4, 0)), None);
    assert_eq!(regions.containing_point(pos2(1, 1)), None);
}

#[test]
fn regions_give_the_first_tab_where_two_overlap() {
    let mut regions = TabRegions::new();
    regions.insert("#a", rect(0, 0, 5, 0));
    regions.insert("#b", rect(3, 0, 8, 0));
    assert_eq!(regions.containing_point(pos2(4, 0)).as_deref(), Some("#a"));
    assert_eq!(regions.containing_point(pos2(6, 0)).as_deref(), Some("#b"));
}

#[test]
fn painting_a_tab_again_moves_its_region() {
    let mut regions = TabRegions::new();
    regions.insert("#a", rect(0, 0, 3, 0));
    regions.insert("#b", rect(5, 0, 8, 0));
    regions.insert("#a", rect(10, 0, 13, 0));
    let all = regions.get_all();
    assert_eq!(all.len(), 2);
    assert_eq!(all[0], (rect(10, 0, 13, 0), "#a".to_string()));
    assert_eq!(all[1], (rect(5, 0, 8, 0), "#b".to_string()));
    assert_eq!(regions.containing_point(pos2(1, 0)), None);
    assert_eq!(regions.containing_point(pos2(11, 0)).as_deref(), Some("#a"));
}

#[test]
fn regions_find_a_tab_by_its_rectangle() {
    let mut regions = TabRegions::default();
    assert!(regions.get_all().is_empty());
    regions.insert("#a", rect(0, 0, 3, 0));
    regions.insert("#b", rect(5, 0, 8, 0));
    assert_eq!(regions.get(rect(5, 0, 8, 0)).as_deref(), Some("#b"));
    assert_eq!(regions.get(rect(5, 0, 8, 1)), None);
}
