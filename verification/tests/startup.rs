use watermelon_clock::builder::configure_builder;
use watermelon_clock::startup::FrameworkState;
use watermelon_clock::startup::fatal_diagnostic;
use watermelon_clock::startup::initialize_and_run;
use watermelon_clock::startup::run_app;
use watermelon_clock::startup::startup_hook;
use watermelon_clock::window::Window;
use watermelon_clock::window::WindowRegistry;

fn window(label: &str, title: &str) -> Window {
    Window { label: label.to_owned(), title: title.to_owned() }
}

fn registry(windows: Vec<Window>) -> WindowRegistry {
    WindowRegistry { windows }
}

#[test]
fn hook_titles_the_main_window() {
    let mut reg = registry(vec![window("main", "Untitled")]);
    let r = startup_hook(&mut reg, false);
    assert!(r.is_ok());
    assert_eq!(reg.windows[0].title, "Watermelon Clock");
}

#[test]
fn hook_overwrites_any_prior_title() {
    let mut reg = registry(vec![window("main", "Watermelon Clock (old build)")]);
    let r = startup_hook(&mut reg, false);
    assert!(r.is_ok());
    assert_eq!(reg.windows[0].title, "Watermelon Clock");
}

#[test]
fn hook_leaves_other_windows_alone() {
    let mut reg = registry(vec![window("settings", "Settings"), window("main", "Untitled")]);
    let r = startup_hook(&mut reg, false);
    assert!(r.is_ok());
    assert_eq!(reg.windows[0].title, "Settings");
    assert_eq!(reg.windows[1].title, "Watermelon Clock");
}

#[test]
fn hook_without_main_window_reports_success_and_changes_nothing() {
    let mut reg = registry(vec![window("settings", "Settings")]);
    let r = startup_hook(&mut reg, false);
    assert!(r.is_ok());
    assert_eq!(reg.windows.len(), 1);
    assert_eq!(reg.windows[0].label, "settings");
    assert_eq!(reg.windows[0].title, "Settings");
}

#[test]
fn hook_swallows_a_title_set_fault_and_reports_success() {
    let mut reg = registry(vec![window("main", "Untitled")]);
    let r = startup_hook(&mut reg, true);
    assert!(r.is_ok());
    assert_eq!(reg.windows[0].title, "Untitled");
}

#[test]
fn run_without_hook_installed_changes_nothing() {
    let builder = configure_builder();
    let bare = watermelon_clock::builder::AppBuilder::default().plugin(
        watermelon_clock::builder::opener_plugin(),
    );
    assert!(builder.setup_installed);
    assert!(!bare.setup_installed);
    let mut fw = FrameworkState {
        registry: registry(vec![window("main", "Untitled")]),
        title_set_fault: false,
        run_fault: false,
    };
    let r = run_app(bare, &mut fw);
    assert!(r.is_ok());
    assert_eq!(fw.registry.windows[0].title, "Untitled");
}

#[test]
fn run_fault_aborts_before_the_hook() {
    let builder = configure_builder();
    let mut fw = FrameworkState {
        registry: registry(vec![window("main", "Untitled")]),
        title_set_fault: false,
        run_fault: true,
    };
    let r = run_app(builder, &mut fw);
    assert!(r.is_err());
    assert_eq!(fw.registry.windows[0].title, "Untitled");
}

#[test]
fn fixed_strings_have_their_stated_values() {
    assert_eq!(watermelon_clock::startup::main_window_label_value(), "main");
    assert_eq!(watermelon_clock::startup::startup_title_value(), "Watermelon Clock");
}

#[test]
fn fatal_diagnostic_is_the_fixed_message() {
    assert_eq!(fatal_diagnostic(), "error while running tauri application");
}

#[test]
fn startup_titles_main_window() {
    let mut fw = FrameworkState {
        registry: registry(vec![window("main", "Untitled")]),
        title_set_fault: false,
        run_fault: false,
    };
    let r = initialize_and_run(&mut fw);
    assert!(r.is_none());
    assert_eq!(fw.registry.windows[0].label, "main");
    assert_eq!(fw.registry.windows[0].title, "Watermelon Clock");
}

#[test]
fn startup_with_empty_registry_succeeds() {
    let mut fw = FrameworkState {
        registry: WindowRegistry::new(),
        title_set_fault: false,
        run_fault: false,
    };
    let r = initialize_and_run(&mut fw);
    assert!(r.is_none());
    assert_eq!(fw.registry.windows.len(), 0);
}

#[test]
fn startup_with_title_set_fault_still_succeeds() {
    let mut fw = FrameworkState {
        registry: registry(vec![window("main", "Untitled")]),
        title_set_fault: true,
        run_fault: false,
    };
    let r = initialize_and_run(&mut fw);
    assert!(r.is_none());
    assert_eq!(fw.registry.windows[0].title, "Untitled");
}

#[test]
fn startup_run_fault_yields_the_fatal_diagnostic() {
    let mut fw = FrameworkState {
        registry: registry(vec![window("main", "Untitled")]),
        title_set_fault: false,
        run_fault: true,
    };
    let r = initialize_and_run(&mut fw);
    assert_eq!(r, Some("error while running tauri application".to_owned()));
    assert_eq!(fw.registry.windows[0].title, "Untitled");
}
