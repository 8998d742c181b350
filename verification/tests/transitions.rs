use gridgate::notifications::{
    level_notifications, Notification, NotificationDisplay, DEFAULT_NOTIFICATION_DURATION_MS,
};
use gridgate::transition::{
    committed_level, Finish, LevelTransitionStep, MOVE_TWEEN_MS, SCREEN_CLOSE_MS, SCREEN_OPEN_MS,
};
use gridgate::lasers::{laser_idle_tag, parse_laser_axis, LaserAxis};
use gridgate::tiles::LaserType;
use gridgate::GridCoords;

#[test]
fn transition_rest_waits_for_a_request() {
    let mut s = LevelTransitionStep::Rest;
    let fx = s.step(false, false, false, false);
    assert_eq!(s, LevelTransitionStep::Rest);
    assert!(!fx.freeze_player);
    let fx = s.step(true, false, false, false);
    assert_eq!(s, LevelTransitionStep::LiftWillClose);
    assert!(fx.freeze_player);
}

#[test]
fn transition_lift_path() {
    // With the lift animation asset resolved, the close animation plays
    // and its end leads to the screen close.
    let mut s = LevelTransitionStep::LiftWillClose;
    let fx = s.step(false, true, false, false);
    assert_eq!(s, LevelTransitionStep::LiftCloses);
    assert!(fx.start_lift_close);
    let fx = s.step(false, false, false, false);
    assert_eq!(s, LevelTransitionStep::LiftCloses);
    assert!(!fx.start_screen_close);
    s.step(false, false, true, false);
    assert_eq!(s, LevelTransitionStep::ScreenWillClose);
}

#[test]
fn transition_short_circuits_without_lift_asset() {
    let mut s = LevelTransitionStep::LiftWillClose;
    let fx = s.step(false, false, false, false);
    assert_eq!(s, LevelTransitionStep::ScreenWillClose);
    assert!(!fx.start_lift_close);
}

#[test]
fn transition_screen_fades() {
    let mut s = LevelTransitionStep::ScreenWillClose;
    let fx = s.step(false, false, false, false);
    assert_eq!(s, LevelTransitionStep::ScreenCloses);
    assert!(fx.start_screen_close);
    let fx = s.step(false, false, false, false);
    assert_eq!(s, LevelTransitionStep::ScreenCloses);
    assert!(!fx.commit_level);
    s.step(false, false, false, true);
    assert_eq!(s, LevelTransitionStep::ScreenWillOpen);
    let fx = s.step(false, false, false, false);
    assert_eq!(s, LevelTransitionStep::ScreenOpens);
    assert!(fx.commit_level);
    assert!(fx.start_screen_open);
    let fx = s.step(false, false, false, false);
    assert_eq!(s, LevelTransitionStep::ScreenOpens);
    assert!(!fx.commit_level);
    s.step(false, false, false, true);
    assert_eq!(s, LevelTransitionStep::Rest);
}

#[test]
fn fade_durations() {
    assert_eq!(SCREEN_CLOSE_MS, 1500);
    assert_eq!(SCREEN_OPEN_MS, 3000);
    assert_eq!(MOVE_TWEEN_MS, 200);
}

#[test]
fn committed_level_takes_the_last_named() {
    let finishes = vec![
        Finish::from_fields(GridCoords::new(0, 0), Some("a".to_string()), None),
        Finish::from_fields(GridCoords::new(1, 0), None, None),
        Finish::from_fields(GridCoords::new(2, 0), Some("b".to_string()), None),
    ];
    assert_eq!(committed_level(&finishes), Some("b".to_string()));
    assert_eq!(committed_level(&Vec::new()), None);
    let unnamed = vec![Finish::from_fields(GridCoords::new(0, 0), None, None)];
    assert_eq!(committed_level(&unnamed), None);
}

#[test]
fn finish_fields_build_the_marker() {
    let f = Finish::from_fields(
        GridCoords::new(5, 0),
        Some("level_2".to_string()),
        Some("Bye".to_string()),
    );
    assert_eq!(f.grid_coords, GridCoords::new(5, 0));
    assert_eq!(f.next_level, Some("level_2".to_string()));
    let m = f.message.unwrap();
    assert_eq!(m.text, "Bye");
    assert_eq!(m.duration_ms, DEFAULT_NOTIFICATION_DURATION_MS);
}

#[test]
fn notification_default_duration() {
    let n = Notification::new("hi".to_string());
    assert_eq!(n.text, "hi");
    assert_eq!(n.duration_ms, 2000);
}

#[test]
fn notification_queue_progress() {
    let mut display = NotificationDisplay::new();
    display.add_notification(Notification { text: "a".to_string(), duration_ms: 1000 });
    display.add_notification(Notification { text: "b".to_string(), duration_ms: 500 });
    assert_eq!(display.current().unwrap().text, "a");
    display.progress_notification(400);
    assert_eq!(display.current().unwrap().text, "a");
    assert_eq!(display.current_duration_ms, 400);
    display.progress_notification(600);
    // The first notification served its full duration and left the queue.
    assert_eq!(display.current().unwrap().text, "b");
    assert_eq!(display.current_duration_ms, 0);
    display.progress_notification(500);
    assert!(display.current().is_none());
}

#[test]
fn notification_queue_clean() {
    let mut display = NotificationDisplay::new();
    display.add_notification(Notification::new("a".to_string()));
    display.progress_notification(100);
    display.clean();
    assert!(display.current().is_none());
    assert_eq!(display.current_duration_ms, 0);
}

#[test]
fn level_notifications_skip_absent_entries() {
    let texts = vec![Some("one".to_string()), None, Some("two".to_string())];
    let notes = level_notifications(&texts);
    assert_eq!(notes.len(), 2);
    assert_eq!(notes[0].text, "one");
    assert_eq!(notes[1].text, "two");
    assert_eq!(notes[0].duration_ms, 2500);
    assert_eq!(notes[1].duration_ms, 2500);
}

#[test]
fn laser_axis_and_tags() {
    assert_eq!(parse_laser_axis(&"Horizontal".to_string()), Some(LaserAxis::Horizontal));
    assert_eq!(parse_laser_axis(&"Vertical".to_string()), Some(LaserAxis::Vertical));
    assert_eq!(parse_laser_axis(&"Diagonal".to_string()), None);
    assert_eq!(laser_idle_tag(LaserType::Red), "red_laser_idle");
    assert_eq!(laser_idle_tag(LaserType::Green), "green_laser_idle");
    assert_eq!(laser_idle_tag(LaserType::Blue), "blue_laser_idle");
}
