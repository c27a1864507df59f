use focus_agent::activity::{ActiveWindowInfo, InputStats};
use focus_agent::state_engine::{
    is_distraction_window, InterventionTrigger, StateEngine, SCORE_DISTRACTION_APP,
    SCORE_INACTIVITY_MILD, SCORE_INACTIVITY_SEVERE,
};

fn mock_window_info(title: &str, app_name: &str) -> ActiveWindowInfo {
    ActiveWindowInfo {
        timestamp_ms: 0,
        title: title.to_string(),
        process_path: "".to_string(),
        app_name: app_name.to_string(),
        window_id: "".to_string(),
        process_id: 0,
        x: 0,
        y: 0,
        width: 0,
        height: 0,
    }
}

fn now_s() -> u64 {
    std::time::SystemTime::now()
        .duration_since(std::time::UNIX_EPOCH)
        .unwrap_or_default()
        .as_secs()
}

fn mock_input_stats(last_input_ago_s: u64) -> InputStats {
    let now_ms = now_s() * 1000;
    InputStats {
        meaningful_input_events: 1,
        last_meaningful_input_timestamp_ms: now_ms.saturating_sub(last_input_ago_s * 1000),
        last_mouse_move_timestamp_ms: 0,
        start_monitoring_timestamp_ms: 0,
    }
}

fn stats_at(last_input_s: u64) -> InputStats {
    InputStats {
        meaningful_input_events: 1,
        last_meaningful_input_timestamp_ms: last_input_s * 1000,
        last_mouse_move_timestamp_ms: 0,
        start_monitoring_timestamp_ms: 0,
    }
}

#[test]
fn test_distraction_score_increases() {
    let mut engine = StateEngine::new();
    let _window_info = mock_window_info("Working on Document", "word.exe");
    let input_stats = mock_input_stats(10);

    assert_eq!(engine.get_current_score(), 0);

    let distraction_window = mock_window_info("YouTube - Google Chrome", "chrome.exe");
    let _trigger = engine.process_activity(&distraction_window, &input_stats);

    assert!(engine.get_current_score() > 0);
    assert_eq!(engine.get_current_score(), SCORE_DISTRACTION_APP);
}

#[test]
fn test_inactivity_score_increases() {
    let mut engine = StateEngine::new();
    let window_info = mock_window_info("Working on Document", "word.exe");

    let input_stats_mild = mock_input_stats(240);
    let _trigger_mild = engine.process_activity(&window_info, &input_stats_mild);

    assert_eq!(engine.get_current_score(), SCORE_INACTIVITY_MILD);

    let input_stats_severe = mock_input_stats(660);
    let _trigger_severe = engine.process_activity(&window_info, &input_stats_severe);

    assert_eq!(engine.get_current_score(), SCORE_INACTIVITY_MILD + SCORE_INACTIVITY_SEVERE);
}

#[test]
fn test_score_decays_when_productive() {
    let base: u64 = 1_000_000;
    let mut engine = StateEngine::new_at(base);

    let distraction_window = mock_window_info("YouTube - Google Chrome", "chrome.exe");
    let input_stats = stats_at(base - 10);
    engine.evaluate(&distraction_window, &input_stats, base);
    let initial_score = engine.get_current_score();
    assert!(initial_score > 0);

    let productive_window = mock_window_info("Productive Task", "code.exe");
    let productive_stats = stats_at(base + 11 - 1);
    engine.evaluate(&productive_window, &productive_stats, base + 11);

    assert!(engine.get_current_score() < initial_score);
    assert_eq!(engine.get_current_score(), initial_score.saturating_sub(1));
}

#[test]
fn distraction_with_recent_input_adds_exactly_five() {
    let base: u64 = 2_000_000;
    let mut engine = StateEngine::new_at(base);
    let window = mock_window_info("watching netflix", "browser.exe");
    let trigger = engine.evaluate(&window, &stats_at(base - 5), base);
    assert_eq!(engine.get_current_score(), 5);
    assert_eq!(trigger, InterventionTrigger::DoNothing);
}

#[test]
fn inactivity_bands_are_exclusive() {
    let base: u64 = 3_000_000;
    let mut engine = StateEngine::new_at(base);
    let window = mock_window_info("Working on Document", "word.exe");

    let trigger = engine.evaluate(&window, &stats_at(base - 240), base);
    assert_eq!(engine.get_current_score(), 3);
    assert_eq!(trigger, InterventionTrigger::DoNothing);

    let mut engine2 = StateEngine::new_at(base);
    engine2.evaluate(&window, &stats_at(base - 660), base);
    assert_eq!(engine2.get_current_score(), 10);
}

#[test]
fn decay_waits_for_the_interval() {
    let base: u64 = 4_000_000;
    let mut engine = StateEngine::new_at(base);
    let distraction = mock_window_info("Discord", "discord.exe");
    engine.evaluate(&distraction, &stats_at(base), base);
    assert_eq!(engine.get_current_score(), 5);

    let productive = mock_window_info("Editing", "code.exe");
    engine.evaluate(&productive, &stats_at(base + 5), base + 5);
    assert_eq!(engine.get_current_score(), 5);

    engine.evaluate(&productive, &stats_at(base + 12), base + 12);
    assert_eq!(engine.get_current_score(), 4);
}

#[test]
fn decay_floors_at_zero() {
    let base: u64 = 5_000_000;
    let mut engine = StateEngine::new_at(base);
    let productive = mock_window_info("Editing", "code.exe");
    let trigger = engine.evaluate(&productive, &stats_at(base + 20), base + 20);
    assert_eq!(engine.get_current_score(), 0);
    assert_eq!(trigger, InterventionTrigger::DoNothing);
}

#[test]
fn thresholds_pick_the_intervention() {
    let base: u64 = 6_000_000;
    let mut engine = StateEngine::new_at(base);
    let window = mock_window_info("Working on Document", "word.exe");

    let t1 = engine.evaluate(&window, &stats_at(base - 660), base);
    assert_eq!(engine.get_current_score(), 10);
    assert_eq!(t1, InterventionTrigger::TriggerNotification);

    let t2 = engine.evaluate(&window, &stats_at(base - 660), base);
    assert_eq!(engine.get_current_score(), 20);
    assert_eq!(t2, InterventionTrigger::TriggerOverlay);
}

#[test]
fn score_clamps_at_the_ceiling() {
    let base: u64 = 7_000_000;
    let mut engine = StateEngine::new_at(base);
    let window = mock_window_info("YouTube", "chrome.exe");
    for _ in 0..10 {
        engine.evaluate(&window, &stats_at(base - 660), base);
    }
    assert_eq!(engine.get_current_score(), 100);
}

#[test]
fn distraction_and_decay_in_one_tick_still_net_an_increase() {
    // A distracting window with recent input is never "productive", so
    // the decay branch cannot cancel the distraction hit.
    let base: u64 = 8_000_000;
    let mut engine = StateEngine::new_at(base);
    let distraction = mock_window_info("slack", "slack.exe");
    engine.evaluate(&distraction, &stats_at(base + 30), base + 30);
    assert_eq!(engine.get_current_score(), 5);
}

#[test]
fn keyword_match_ignores_ascii_case() {
    assert!(is_distraction_window(&mock_window_info("DISCORD - general", "app.exe")));
    assert!(is_distraction_window(&mock_window_info("News", "NETFLIX.EXE")));
    assert!(is_distraction_window(&mock_window_info("playing", "Steam.Exe")));
    assert!(!is_distraction_window(&mock_window_info("Working on Document", "word.exe")));
    assert!(!is_distraction_window(&mock_window_info("steamed vegetables", "recipes.exe")));
}

#[test]
fn input_stats_default_is_all_zero() {
    let s = InputStats::default();
    assert_eq!(s.meaningful_input_events, 0);
    assert_eq!(s.last_meaningful_input_timestamp_ms, 0);
    assert_eq!(s.last_mouse_move_timestamp_ms, 0);
    assert_eq!(s.start_monitoring_timestamp_ms, 0);
}
