use image_gallery::app::App;
use image_gallery::app::UiAction;
use image_gallery::text::str_contains;

fn paths(names: &[&str]) -> Vec<String> {
    names.iter().map(|n| n.to_string()).collect()
}

#[test]
fn substring_search_finds_literal_occurrences() {
    assert!(str_contains("images/holiday_beach.png", "beach"));
    assert!(str_contains("images/holiday_beach.png", "images/"));
    assert!(str_contains("images/holiday_beach.png", ".png"));
    assert!(!str_contains("images/holiday_beach.png", "Beach"));
    assert!(!str_contains("images/holiday_beach.png", "beachx"));
}

#[test]
fn substring_search_edge_cases() {
    assert!(str_contains("", ""));
    assert!(str_contains("abc", ""));
    assert!(!str_contains("", "a"));
    assert!(!str_contains("ab", "abc"));
    assert!(str_contains("aaab", "aab"));
    assert!(str_contains("abc", "abc"));
}

#[test]
fn filter_keeps_matching_paths_in_order() {
    let mut app = App::default();
    app.load_image_paths(
        paths(&["alpha.png", "beta.png", "gamma.png", "pics/beta_2.jpg"]),
        "",
    );
    app.filter_image_paths("beta");
    assert_eq!(app.state.filtered_image_idxs, vec![1, 3]);
    assert_eq!(app.state.current_image_idx, Some(0));
}

#[test]
fn empty_query_keeps_every_image_in_order() {
    let mut app = App::default();
    app.load_image_paths(
        paths(&["alpha.png", "beta.png", "gamma.png", "delta.png", "epsilon.png"]),
        "alpha",
    );
    assert_eq!(app.state.filtered_image_idxs, vec![0]);
    app.filter_image_paths("");
    assert_eq!(app.state.filtered_image_idxs, vec![0, 1, 2, 3, 4]);
    assert_eq!(app.state.current_image_idx, Some(0));
}

#[test]
fn filter_is_idempotent() {
    let mut app = App::default();
    app.load_image_paths(
        paths(&["alpha.png", "beta.png", "gamma.png", "pics/beta_2.jpg"]),
        "",
    );
    app.filter_image_paths("beta");
    let first = app.state.filtered_image_idxs.clone();
    assert_eq!(app.state.current_image_idx, Some(0));
    app.filter_image_paths("beta");
    assert_eq!(app.state.filtered_image_idxs, first);
    assert_eq!(app.state.current_image_idx, Some(0));
}

#[test]
fn filter_matching_nothing_clears_selection() {
    let mut app = App::default();
    app.load_image_paths(paths(&["alpha.png", "beta.png"]), "");
    assert_eq!(app.state.current_image_idx, Some(0));
    app.filter_image_paths("zeta");
    assert_eq!(app.state.filtered_image_idxs, Vec::<usize>::new());
    assert_eq!(app.state.current_image_idx, None);
    assert_eq!(app.state.num_rows(), 0);
}

#[test]
fn rescan_replaces_paths_and_reapplies_query() {
    let mut app = App::default();
    app.load_image_paths(paths(&["old_a.png", "old_b.png"]), "");
    app.load_image_paths(paths(&["new_a.png", "other.png", "new_b.png"]), "new");
    assert_eq!(
        app.state.image_paths,
        vec!["new_a.png".to_string(), "other.png".to_string(), "new_b.png".to_string()]
    );
    assert_eq!(app.state.filtered_image_idxs, vec![0, 2]);
    assert_eq!(app.state.current_image_idx, Some(0));
}

#[test]
fn query_change_action_refilters() {
    let mut app = App::default();
    app.load_image_paths(paths(&["alpha.png", "beta.png", "pics/beta_2.jpg"]), "");
    app.handle_action(UiAction::QueryChanged("beta".to_string()));
    assert_eq!(app.state.filtered_image_idxs, vec![1, 2]);
    assert_eq!(app.state.current_image_idx, Some(0));
}
