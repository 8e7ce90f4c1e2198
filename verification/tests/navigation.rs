use image_gallery::app::{App, ImageSource, Mode, NavigationResult, UiAction};

fn app_with_n_images(n: usize) -> App {
    let names: Vec<String> = (0..n).map(|i| format!("images/img_{i}.png")).collect();
    let mut app = App::default();
    app.load_image_paths(names, "");
    app
}

#[test]
fn navigation_moves_within_range() {
    let mut app = app_with_n_images(3);
    assert_eq!(app.state.current_image_idx, Some(0));
    assert!(matches!(app.navigate_right(), NavigationResult::Moved));
    assert_eq!(app.state.current_image_idx, Some(1));
    assert!(matches!(app.navigate_right(), NavigationResult::Moved));
    assert_eq!(app.state.current_image_idx, Some(2));
    assert!(matches!(app.navigate_left(), NavigationResult::Moved));
    assert_eq!(app.state.current_image_idx, Some(1));
    assert!(!app.state.show_alert);
}

#[test]
fn navigate_left_at_first_image_raises_alert_and_keeps_selection() {
    let mut app = app_with_n_images(3);
    assert_eq!(app.state.current_image_idx, Some(0));
    let outcome = app.navigate_left();
    assert!(matches!(outcome, NavigationResult::BoundaryHit));
    assert_eq!(app.state.current_image_idx, Some(0));
    assert!(app.state.show_alert);
    assert_eq!(app.state.alert_message, "already at first image");
}

#[test]
fn navigate_right_at_last_image_raises_alert_and_keeps_selection() {
    let mut app = app_with_n_images(3);
    app.set_current_image(Some(2));
    let outcome = app.navigate_right();
    assert!(matches!(outcome, NavigationResult::BoundaryHit));
    assert_eq!(app.state.current_image_idx, Some(2));
    assert!(app.state.show_alert);
    assert_eq!(app.state.alert_message, "already at last image");
}

#[test]
fn navigation_without_selection_is_a_no_op() {
    let mut app = App::default();
    app.load_image_paths(vec!["alpha.png".to_string()], "nothing_matches_this");
    assert_eq!(app.state.current_image_idx, None);
    assert!(matches!(app.navigate_left(), NavigationResult::NoSelection));
    assert!(matches!(app.navigate_right(), NavigationResult::NoSelection));
    assert_eq!(app.state.current_image_idx, None);
    assert!(!app.state.show_alert);
}

#[test]
fn click_opens_slideshow_and_escape_returns_with_selection_kept() {
    let mut app = app_with_n_images(10);
    assert!(matches!(app.mode, Mode::Browsing));
    app.handle_action(UiAction::ImageClicked(7));
    assert!(matches!(app.mode, Mode::Viewing));
    assert_eq!(app.state.current_image_idx, Some(7));
    app.handle_action(UiAction::EscapePressed);
    assert!(matches!(app.mode, Mode::Browsing));
    assert_eq!(app.state.current_image_idx, Some(7));
}

#[test]
fn slideshow_button_opens_slideshow_without_changing_selection() {
    let mut app = app_with_n_images(3);
    app.handle_action(UiAction::SlideshowPressed);
    assert!(matches!(app.mode, Mode::Viewing));
    assert_eq!(app.state.current_image_idx, Some(0));
}

#[test]
fn arrow_actions_navigate_and_boundary_alert_can_be_dismissed() {
    let mut app = app_with_n_images(2);
    app.handle_action(UiAction::ImageClicked(0));
    app.handle_action(UiAction::NavigateRightPressed);
    assert_eq!(app.state.current_image_idx, Some(1));
    app.handle_action(UiAction::NavigateRightPressed);
    assert_eq!(app.state.current_image_idx, Some(1));
    assert!(app.state.show_alert);
    assert_eq!(app.state.alert_message, "already at last image");
    app.handle_action(UiAction::AlertDismissed);
    assert!(!app.state.show_alert);
    assert!(matches!(app.mode, Mode::Viewing));
    assert_eq!(app.state.current_image_idx, Some(1));
    app.handle_action(UiAction::NavigateLeftPressed);
    assert_eq!(app.state.current_image_idx, Some(0));
}

#[test]
fn current_image_source_names_the_selected_path() {
    let mut app = App::default();
    app.load_image_paths(
        vec!["alpha.png".to_string(), "beta.png".to_string(), "gamma.png".to_string()],
        "",
    );
    app.set_current_image(Some(2));
    match app.current_image_source() {
        ImageSource::ImagePath(p) => assert_eq!(p, "gamma.png"),
        ImageSource::Placeholder => panic!("expected a path"),
    }
}

#[test]
fn current_image_source_without_selection_is_the_placeholder() {
    let app = App::default();
    assert!(matches!(app.current_image_source(), ImageSource::Placeholder));
}
