use focus_agent::activity::ProcessSummary;
use focus_agent::activity::filter_process_summaries;
use focus_agent::region::WinRect;
use focus_agent::text::{contains_ci_exec, prefix_ci_exec, str_eq};
use focus_agent::visibility::{compute_visible_windows, RawWindow};

fn win(title: &str, path: &str, left: i32, top: i32, right: i32, bottom: i32) -> RawWindow {
    RawWindow {
        title: title.to_string(),
        process_path: path.to_string(),
        rect: WinRect { left, top, right, bottom },
    }
}

#[test]
fn empty_input_gives_empty_output() {
    let out = compute_visible_windows(Vec::new());
    assert_eq!(out.len(), 0);
}

#[test]
fn single_large_window_is_visible() {
    let out = compute_visible_windows(vec![win("Editor", "C:\\Apps\\editor.exe", 0, 0, 500, 400)]);
    assert_eq!(out.len(), 1);
    assert_eq!(out[0].title, "Editor");
    assert!(out[0].is_visible_on_screen);
    assert_eq!(out[0].rect.right, 500);
}

#[test]
fn small_windows_never_appear_in_output() {
    let out = compute_visible_windows(vec![
        win("Tiny", "C:\\Apps\\a.exe", 0, 0, 99, 300),
        win("Short", "C:\\Apps\\b.exe", 0, 0, 300, 99),
        win("Fine", "C:\\Apps\\c.exe", 0, 0, 100, 100),
    ]);
    assert_eq!(out.len(), 1);
    assert_eq!(out[0].title, "Fine");
}

#[test]
fn malformed_rectangles_are_excluded() {
    let out = compute_visible_windows(vec![win("Backwards", "C:\\Apps\\a.exe", 500, 500, 0, 0)]);
    assert_eq!(out.len(), 0);
}

#[test]
fn denylisted_titles_and_system_paths_are_excluded() {
    let out = compute_visible_windows(vec![
        win("Program Manager", "C:\\Apps\\x.exe", 0, 0, 800, 600),
        win("Settings", "C:\\Apps\\x.exe", 0, 0, 800, 600),
        win("dwm", "c:\\windows\\system32\\dwm.exe", 0, 0, 800, 600),
        win("Browser", "C:\\Apps\\browser.exe", 0, 0, 800, 600),
    ]);
    assert_eq!(out.len(), 1);
    assert_eq!(out[0].title, "Browser");
    assert!(out[0].is_visible_on_screen);
}

#[test]
fn window_fully_behind_a_larger_one_is_not_visible() {
    let out = compute_visible_windows(vec![
        win("Front", "C:\\Apps\\front.exe", 0, 0, 500, 500),
        win("Back", "C:\\Apps\\back.exe", 100, 100, 300, 300),
    ]);
    assert_eq!(out.len(), 2);
    assert!(out[0].is_visible_on_screen);
    assert!(!out[1].is_visible_on_screen);
}

#[test]
fn wide_enough_remainder_counts_as_visible() {
    // 200 px of the lower window stick out on the right.
    let out = compute_visible_windows(vec![
        win("Front", "C:\\Apps\\front.exe", 0, 0, 500, 500),
        win("Back", "C:\\Apps\\back.exe", 450, 0, 700, 200),
    ]);
    assert_eq!(out.len(), 2);
    assert!(out[0].is_visible_on_screen);
    assert!(out[1].is_visible_on_screen);
}

#[test]
fn remainder_below_the_minimum_box_is_not_visible() {
    // Only 60 px of the lower window stick out: below the 80 px minimum.
    let out = compute_visible_windows(vec![
        win("Front", "C:\\Apps\\front.exe", 0, 0, 500, 500),
        win("Back", "C:\\Apps\\back.exe", 450, 0, 560, 200),
    ]);
    assert_eq!(out.len(), 2);
    assert!(out[0].is_visible_on_screen);
    assert!(!out[1].is_visible_on_screen);
}

#[test]
fn an_occluded_window_still_occludes_what_lies_below() {
    // The middle window is itself fully covered, but its rectangle
    // still counts against the bottom window.
    let out = compute_visible_windows(vec![
        win("Top", "C:\\Apps\\a.exe", 0, 0, 500, 500),
        win("Middle", "C:\\Apps\\b.exe", 0, 0, 400, 400),
        win("Bottom", "C:\\Apps\\c.exe", 0, 0, 450, 450),
    ]);
    assert_eq!(out.len(), 3);
    assert!(out[0].is_visible_on_screen);
    assert!(!out[1].is_visible_on_screen);
    assert!(!out[2].is_visible_on_screen);
}

#[test]
fn excluded_windows_do_not_occlude() {
    // The denylisted front window covers everything but contributes no
    // occlusion, so the window behind it stays visible.
    let out = compute_visible_windows(vec![
        win("Program Manager", "C:\\Apps\\x.exe", 0, 0, 1000, 1000),
        win("Editor", "C:\\Apps\\editor.exe", 0, 0, 500, 500),
    ]);
    assert_eq!(out.len(), 1);
    assert_eq!(out[0].title, "Editor");
    assert!(out[0].is_visible_on_screen);
}

#[test]
fn l_shaped_remainder_uses_the_bounding_box() {
    // The remainder of the lower window is an L whose bounding box is
    // large in both axes even though no single strip is.
    let out = compute_visible_windows(vec![
        win("Front", "C:\\Apps\\front.exe", 60, 60, 500, 500),
        win("Back", "C:\\Apps\\back.exe", 0, 0, 500, 500),
    ]);
    assert_eq!(out.len(), 2);
    assert!(out[1].is_visible_on_screen);
}

#[test]
fn process_rows_without_start_time_are_dropped() {
    let rows = vec![
        ProcessSummary { name: "init".to_string(), start_time_unix_s: 1 },
        ProcessSummary { name: "ghost".to_string(), start_time_unix_s: 0 },
        ProcessSummary { name: "shell".to_string(), start_time_unix_s: 99 },
    ];
    let kept = filter_process_summaries(rows);
    assert_eq!(kept.len(), 2);
    assert_eq!(kept[0].name, "init");
    assert_eq!(kept[1].name, "shell");
}

#[test]
fn text_matching_is_ascii_case_insensitive() {
    assert!(contains_ci_exec("FaceBook Home", "facebook"));
    assert!(contains_ci_exec("abc", ""));
    assert!(!contains_ci_exec("ab", "abc"));
    assert!(prefix_ci_exec("c:\\windows\\system32\\dwm.exe", "C:\\WINDOWS\\SYSTEM32"));
    assert!(!prefix_ci_exec("d:\\windows\\system32", "C:\\WINDOWS\\SYSTEM32"));
    assert!(str_eq("Program Manager", "Program Manager"));
    assert!(!str_eq("Program Manager", "program manager"));
}

#[test]
fn negative_coordinates_are_handled() {
    let out = compute_visible_windows(vec![
        win("Left Monitor", "C:\\Apps\\a.exe", -500, -400, -100, -100),
        win("Behind", "C:\\Apps\\b.exe", -450, -350, -150, -150),
    ]);
    assert_eq!(out.len(), 2);
    assert!(out[0].is_visible_on_screen);
    assert!(!out[1].is_visible_on_screen);
}
