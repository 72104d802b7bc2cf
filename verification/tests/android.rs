use workstate::integrations::android::adb::is_transient_failure;
use workstate::integrations::android::checks::find_matching_window;
use workstate::integrations::android::errors::process_failure_detail;
use workstate::integrations::android::models::{
    parse_avd_list, parse_avd_name, parse_boot_property, parse_devices, state_label,
};
use workstate::ports::{AndroidDeviceState, DesktopSnapshot, DesktopWindowSnapshot, ProcessOutput};

fn emulator_window(
    identity: &str,
    title: Option<&str>,
    workspace_identity: Option<&str>,
) -> DesktopWindowSnapshot {
    DesktopWindowSnapshot {
        identity: identity.to_owned(),
        application: Some("qemu-system-x86_64".to_owned()),
        title: title.map(str::to_owned),
        project_path: None,
        workspace_identity: workspace_identity.map(str::to_owned),
        focused: false,
    }
}

fn windows(windows: Vec<DesktopWindowSnapshot>) -> DesktopSnapshot {
    DesktopSnapshot { workspaces: Vec::new(), windows }
}

#[test]
fn connection_refused_during_shutdown_is_transient() {
    let output = ProcessOutput {
        status: Some(1),
        stdout: Vec::new(),
        stderr: b"error: could not connect to TCP port 5554: Connection refused".to_vec(),
    };

    assert!(is_transient_failure(&output));
}

#[test]
fn other_failures_are_not_transient() {
    let output = ProcessOutput {
        status: Some(1),
        stdout: Vec::new(),
        stderr: b"error: permission denied".to_vec(),
    };
    assert!(!is_transient_failure(&output));
}

#[test]
fn does_not_match_an_unrelated_emulator_window() {
    let snapshot = windows(vec![emulator_window(
        "window-other",
        Some("Other_API_35"),
        Some("workspace-1"),
    )]);

    let result = find_matching_window(&snapshot, "Pixel_API_35", "emulator-5554");

    assert!(result.is_ok());
    let Some(window) = result.ok() else {
        return;
    };
    assert!(window.is_none());
}

#[test]
fn matches_a_window_by_the_configured_avd_title() {
    let snapshot = windows(vec![emulator_window(
        "window-pixel",
        Some("Pixel_API_35:5554"),
        Some("workspace-1"),
    )]);

    let result = find_matching_window(&snapshot, "Pixel_API_35", "emulator-5554");

    assert!(result.is_ok());
    let Some(window) = result.ok() else {
        return;
    };
    assert_eq!(window.map(|value| value.identity), Some("window-pixel".to_owned()));
}

#[test]
fn rejects_multiple_windows_matching_the_same_emulator() {
    let snapshot = windows(vec![
        emulator_window("window-1", Some("Pixel_API_35"), None),
        emulator_window("window-2", Some("Pixel_API_35"), None),
    ]);

    let result = find_matching_window(&snapshot, "Pixel_API_35", "emulator-5554");

    assert!(result.is_err());
}

#[test]
fn parses_and_sorts_avd_names_without_duplicates() {
    let result = parse_avd_list(b"Pixel_API_35\n\nTablet_API_34\nPixel_API_35\n");
    assert!(result.is_ok());
    let Some(result) = result.ok() else {
        return;
    };
    assert_eq!(
        result.into_iter().map(|avd| avd.name).collect::<Vec<_>>(),
        vec!["Pixel_API_35", "Tablet_API_34"]
    );
}

#[test]
fn parses_only_emulator_devices_and_preserves_states() {
    let result = parse_devices(
        b"List of devices attached\nemulator-5554\tdevice\nR58M123\tdevice\nemulator-5556\toffline\n",
    );
    assert!(result.is_ok());
    let Some(result) = result.ok() else {
        return;
    };
    assert_eq!(result.len(), 2);
    assert_eq!(result[0].serial, "emulator-5554");
    assert_eq!(result[0].state, AndroidDeviceState::Device);
    assert_eq!(result[1].state, AndroidDeviceState::Offline);
}

#[test]
fn parses_avd_name_and_boot_property() {
    assert_eq!(
        parse_avd_name(b"Pixel_API_35\nOK\n").ok(),
        Some(Some("Pixel_API_35".to_owned()))
    );
    assert!(parse_boot_property(b"0\n1\n"));
    assert!(!parse_boot_property(b"0\n"));
}

#[test]
fn text_that_is_not_utf8_is_refused_with_its_position() {
    let error = parse_avd_list(&[b'a', 0xff, b'b']).err();
    assert!(error.is_some());
    let Some(error) = error else {
        return;
    };
    assert!(error.message.contains("invalid utf-8 sequence of 1 bytes from index 1"));
}

#[test]
fn virtual_devices_are_the_lines_that_are_not_blank() {
    let names = parse_avd_list(b"  Tablet \r\n\t\nPixel\nTablet\n")
        .map(|devices| devices.into_iter().map(|device| device.name).collect::<Vec<_>>());
    assert_eq!(names.ok(), Some(vec!["Pixel".to_owned(), "Tablet".to_owned()]));
    let refused = parse_avd_list(b"Pixel\nTab\x07let\n").err().map(|error| error.message);
    assert_eq!(
        refused.as_deref(),
        Some(
            "Android operation 'list-avds' returned malformed data: AVD name contains control characters"
        )
    );
}

#[test]
fn state_of_a_word_alone_is_named_after_it() {
    let label = |line: &str| {
        let text = format!("List of devices attached\nemulator-5554 {line}\n");
        parse_devices(text.as_bytes())
            .ok()
            .and_then(|devices| devices.first().map(|device| state_label(&device.state)))
    };
    assert_eq!(label("Recovery").as_deref(), Some("recovery"));
    assert_eq!(label("OFFLINE").as_deref(), Some("offline"));
    assert_eq!(label("NoPermissions").as_deref(), Some("no permissions"));
    assert_eq!(label("no permissions").as_deref(), Some("no permissions"));
}

#[test]
fn printed_text_is_decoded() {
    let failed = |stdout: &[u8], stderr: &[u8], status: Option<i32>| {
        process_failure_detail(&ProcessOutput {
            status,
            stdout: stdout.to_vec(),
            stderr: stderr.to_vec(),
        })
    };
    assert_eq!(failed(b"", " Gr\u{f6}\u{df}e \n".as_bytes(), Some(1)), "Gr\u{f6}\u{df}e");
    assert_eq!(failed("\u{e9}".as_bytes(), b" \n", Some(1)), "\u{e9}");
    assert_eq!(failed(b"", &[b'a', 0xff], None), "a\u{fffd}");
    assert_eq!(failed(b"", b"", Some(3)), "process exited with status 3");
    assert_eq!(failed(b"", b"", None), "process terminated without an exit status");
    assert!(parse_boot_property("\u{e9}\n TRUE \n".as_bytes()));
    assert!(parse_boot_property(&[0xff, b'\n', b'1']));
}
