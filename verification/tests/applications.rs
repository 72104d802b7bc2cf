use workstate::platform::linux::applications::{
    parse_desktop_entry_contents_with_launch, DesktopFile, LinuxApplicationCatalog,
};

#[test]
fn parses_a_visible_launchable_application() {
    let contents = "[Desktop Entry]\nType=Application\nName=Editor\nExec=editor\n";
    let parsed = parse_desktop_entry_contents_with_launch(contents, "org.example.Editor.desktop");
    assert!(parsed.is_some());
    if let Some(parsed) = parsed {
        assert_eq!(parsed.application.id, "org.example.Editor");
        assert_eq!(parsed.application.name, "Editor");
    }
}

#[test]
fn resolves_desktop_entry_arguments_without_field_code_values() {
    let contents =
        "[Desktop Entry]\nType=Application\nName=Editor\nExec=code --new-window %F \"two words\"\n";
    let parsed = parse_desktop_entry_contents_with_launch(contents, "org.example.Editor.desktop");
    assert!(parsed.is_some());
    let Some(parsed) = parsed else {
        return;
    };
    let Some(launch) = parsed.launch else {
        panic!("the entry has a launch command");
    };
    assert_eq!(launch.program, "code");
    assert_eq!(
        launch.arguments,
        vec!["--new-window".to_owned(), "two words".to_owned()]
    );
}

fn file(path: &str, contents: &str) -> DesktopFile {
    DesktopFile { path: path.to_owned(), contents: contents.to_owned() }
}

#[test]
fn catalog_resolves_a_launch_spec_for_a_selected_application() {
    let files = vec![file(
        "/apps/browser.desktop",
        "[Desktop Entry]\nType=Application\nName=Browser\nExec=browser --private-window\n",
    )];
    let launch = LinuxApplicationCatalog::launch_spec(&files, "browser");
    assert!(launch.is_ok());
    let Some(launch) = launch.ok() else {
        return;
    };
    assert_eq!(launch.program, "browser");
    assert_eq!(launch.arguments, vec!["--private-window".to_owned()]);
}

#[test]
fn lists_visible_applications_in_stable_display_order() {
    let files = vec![
        file("/apps/editor.desktop", "[Desktop Entry]\nType=Application\nName=Editor\nExec=editor\n"),
        file(
            "/apps/browser.desktop",
            "[Desktop Entry]\nType=Application\nName=Browser\nExec=browser\n",
        ),
        file(
            "/apps/hidden.desktop",
            "[Desktop Entry]\nType=Application\nName=Hidden\nHidden=true\nExec=hidden\n",
        ),
    ];
    let applications = LinuxApplicationCatalog::list(&files);
    assert_eq!(applications.len(), 2);
    assert_eq!(applications[0].name, "Browser");
    assert_eq!(applications[1].name, "Editor");
}
