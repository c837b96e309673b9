use desktop_shell::oauth::{
    is_callback_url, navigation_script, on_close_requested, on_navigation, open_oauth_window,
    NavPlan, OpenPlan, WindowState,
};

#[test]
fn callback_markers_are_detected() {
    assert!(is_callback_url("https://x/callback?code=abc&state=def"));
    assert!(is_callback_url("https://x/cb#access_token=tok123"));
    assert!(is_callback_url("https://x/cb?foo=1&state=def"));
    // Markers count at the very start and the very end of the URL too.
    assert!(is_callback_url("?code="));
    assert!(is_callback_url("https://x/cb&state="));
}

#[test]
fn plain_urls_are_not_callbacks() {
    assert!(!is_callback_url("https://x/"));
    assert!(!is_callback_url("https://x/login?client=abc"));
    // Near misses: marker text without its lead-in or trailing sign.
    assert!(!is_callback_url("https://x/access_token="));
    assert!(!is_callback_url("https://x/?state"));
    assert!(!is_callback_url("https://x/cb?CODE=abc"));
    assert!(!is_callback_url(""));
}

#[test]
fn callback_navigation_emits_one_event_and_hides_the_window() {
    let url = "https://x/callback?code=abc&state=def";
    let (state, plan) = on_navigation(WindowState::Visible, url);
    assert_eq!(state, WindowState::Hidden);
    match plan {
        NavPlan::Callback(payload) => assert_eq!(payload.url, url),
        NavPlan::Ignore => panic!("a callback URL must emit the event"),
    }
}

#[test]
fn plain_navigation_emits_nothing_and_moves_nothing() {
    let (state, plan) = on_navigation(WindowState::Visible, "https://x/");
    assert_eq!(state, WindowState::Visible);
    assert!(matches!(plan, NavPlan::Ignore));

    let (state, plan) = on_navigation(WindowState::Hidden, "https://x/");
    assert_eq!(state, WindowState::Hidden);
    assert!(matches!(plan, NavPlan::Ignore));
}

#[test]
fn open_without_a_window_fails_and_emits_nothing() {
    let (state, plan) = open_oauth_window(WindowState::Absent, "https://auth.example/authorize");
    assert_eq!(state, WindowState::Absent);
    assert!(matches!(plan, OpenPlan::MissingWindow));
}

#[test]
fn open_shows_the_window_and_navigates_it() {
    let (state, plan) = open_oauth_window(WindowState::Hidden, "https://auth.example/authorize");
    assert_eq!(state, WindowState::Visible);
    match plan {
        OpenPlan::Proceed(script) => assert_eq!(
            script,
            b"window.location.replace(\"https://auth.example/authorize\");"
        ),
        OpenPlan::MissingWindow => panic!("the window is present"),
    }
}

#[test]
fn navigation_script_escapes_the_url_as_data() {
    // A URL that tries to break out of the string literal stays data.
    let script = navigation_script("https://x/\");alert(1);//\\\n");
    assert_eq!(
        script,
        b"window.location.replace(\"https://x/\\\");alert(1);//\\\\\\n\");"
    );
}

#[test]
fn close_request_hides_but_never_destroys() {
    let (state, prevent) = on_close_requested(WindowState::Visible);
    assert_eq!(state, WindowState::Hidden);
    assert!(prevent);

    let (state, prevent) = on_close_requested(WindowState::Hidden);
    assert_eq!(state, WindowState::Hidden);
    assert!(prevent);

    // A later open request still finds the window.
    let (state, plan) = open_oauth_window(state, "https://auth.example/authorize");
    assert_eq!(state, WindowState::Visible);
    assert!(matches!(plan, OpenPlan::Proceed(_)));
}

#[test]
fn full_flow_shows_then_hides_the_window() {
    let url = "https://x/callback?code=abc&state=def";
    let (state, plan) = open_oauth_window(WindowState::Hidden, "https://auth.example/authorize");
    assert!(matches!(plan, OpenPlan::Proceed(_)));
    let (state, _) = on_navigation(state, "https://auth.example/login");
    assert_eq!(state, WindowState::Visible);
    let (state, plan) = on_navigation(state, url);
    assert_eq!(state, WindowState::Hidden);
    assert!(matches!(plan, NavPlan::Callback(_)));
}
