use sidecar_shell::commands::{
    get_app_data_dir, get_backend_port, open_folder_in_finder, open_folder_reply,
    show_notification, Launch, Notification,
};
use sidecar_shell::config::{BackendConfig, Platform, PortFailure};
use sidecar_shell::supervisor::{Event, Supervisor};
use sidecar_shell::window::{exit_code_on, window_setup, WindowAction, WindowEvent, EXIT_ON_CLOSE};

#[test]
fn backend_port_is_the_configured_port() {
    assert_eq!(get_backend_port(&BackendConfig::new(49152)), 49152);
    assert_eq!(get_backend_port(&BackendConfig::new(1)), 1);
    assert_eq!(get_backend_port(&BackendConfig::new(65535)), 65535);
    assert_eq!(BackendConfig::new(8080).assigned_port(), 8080);
}

#[test]
fn backend_port_is_the_same_on_every_call() {
    let config = BackendConfig::new(50321);
    let (mut supervisor, _) = Supervisor::start(get_backend_port(&config));
    for round in 0..100 {
        assert_eq!(get_backend_port(&config), 50321);
        let event = if round % 2 == 0 { Event::SpawnSucceeded } else { Event::StreamClosed };
        assert!(supervisor.step(event).is_some());
        assert_eq!(supervisor.assigned_port(), get_backend_port(&config));
    }
}

#[test]
fn data_dir_is_passed_through() {
    assert_eq!(
        get_app_data_dir(Some("/home/u/.local/share/app".to_string())),
        Ok("/home/u/.local/share/app".to_string())
    );
    assert_eq!(get_app_data_dir(Some(String::new())), Ok(String::new()));
}

#[test]
fn unresolved_data_dir_is_an_error() {
    assert_eq!(get_app_data_dir(None), Err("Could not get app data directory".to_string()));
}

#[test]
fn open_folder_on_macos_launches_the_opener() {
    assert_eq!(
        open_folder_in_finder(Platform::MacOs, "/Users/u/Documents".to_string()),
        Some(Launch { program: "open".to_string(), args: vec!["/Users/u/Documents".to_string()] })
    );
    assert_eq!(
        open_folder_in_finder(Platform::MacOs, String::new()),
        Some(Launch { program: "open".to_string(), args: vec![String::new()] })
    );
}

#[test]
fn open_folder_elsewhere_launches_nothing_and_succeeds() {
    for path in ["/tmp", "", "C:\\Users\\u", "/does/not/exist"] {
        let launch = open_folder_in_finder(Platform::Other, path.to_string());
        assert_eq!(launch, None);
        assert_eq!(open_folder_reply(None), Ok(()));
    }
}

#[test]
fn open_folder_reply_passes_the_launch_outcome_on() {
    assert_eq!(open_folder_reply(Some(Ok(()))), Ok(()));
    assert_eq!(
        open_folder_reply(Some(Err("permission denied".to_string()))),
        Err("permission denied".to_string())
    );
}

#[test]
fn notification_carries_identifier_title_and_body() {
    assert_eq!(
        show_notification("Done".to_string(), "3 files matched".to_string()),
        Notification {
            identifier: "com.conciliacion.financiera".to_string(),
            title: "Done".to_string(),
            body: "3 files matched".to_string(),
        }
    );
    let swapped = show_notification("a".to_string(), "b".to_string());
    assert_eq!(swapped.title, "a");
    assert_eq!(swapped.body, "b");
}

#[test]
fn port_failure_messages() {
    assert_eq!(
        PortFailure::Bind.message("Os { code: 13 }"),
        "Failed to bind to free port: Os { code: 13 }"
    );
    assert_eq!(
        PortFailure::LocalAddress.message("unavailable"),
        "Failed to get local address: unavailable"
    );
}

#[test]
fn window_is_styled_and_shown_on_macos_only() {
    assert_eq!(
        window_setup(Platform::MacOs),
        vec![WindowAction::ApplySidebarVibrancy, WindowAction::Show]
    );
    assert_eq!(window_setup(Platform::Other), vec![]);
}

#[test]
fn close_request_exits_with_zero() {
    assert_eq!(EXIT_ON_CLOSE, 0);
    assert_eq!(exit_code_on(WindowEvent::CloseRequested), Some(0));
    assert_eq!(exit_code_on(WindowEvent::Other), None);
}
