use passepartout::paths::{join, AppPaths};

#[test]
fn joining_paths() {
    assert_eq!(join("/opt/app", "native_tools"), "/opt/app/native_tools");
    assert_eq!(join("/opt/app/", "x"), "/opt/app/x");
    assert_eq!(join("", "x"), "x");
    assert_eq!(join("/opt", "/abs"), "/abs");
}

#[test]
fn bundled_and_development_layouts() {
    let p = AppPaths::locate("/res", "/proj", true);
    assert_eq!(p.native_tools_path, "/res/native_tools");
    assert_eq!(p.opencode_workspace_path, "/res/opencode_workspace");
    let p = AppPaths::locate("/res", "/proj", false);
    assert_eq!(p.native_tools_path, "/proj/native_tools");
    assert_eq!(p.opencode_workspace_path, "/proj/opencode_workspace");
}

#[test]
fn locating_twice_gives_the_same_paths() {
    let a = AppPaths::new("/nonexistent-resources", "/nonexistent-project");
    let b = AppPaths::new("/nonexistent-resources", "/nonexistent-project");
    assert_eq!(a.native_tools_path, b.native_tools_path);
    assert_eq!(a.opencode_workspace_path, b.opencode_workspace_path);
    assert_eq!(a.native_tools_path, "/nonexistent-project/native_tools");
    assert_eq!(a.get_binary_path("opencode"), b.get_binary_path("opencode"));
}

#[test]
fn binary_and_search_paths() {
    let p = AppPaths::locate("/res", "/proj", true);
    assert_eq!(p.binary_path_with("opencode", true), "/res/native_tools/opencode");
    assert_eq!(p.binary_path_with("opencode", false), "opencode");
    assert_eq!(p.get_binary_path("opencode"), "opencode");
    assert_eq!(p.path_env_with("/usr/bin", true), "/res/native_tools:/usr/bin");
    assert_eq!(p.path_env_with("/usr/bin", false), "/usr/bin");
    assert_eq!(p.get_path_env("/usr/bin"), "/usr/bin");
    assert_eq!(p.get_playwright_browsers_path(), "/res/native_tools/playwright_browsers");
}

#[test]
fn existing_tools_directory_is_found() {
    let p = AppPaths::new("/", "/nonexistent-project");
    assert_eq!(p.native_tools_path, "/nonexistent-project/native_tools");
    let p = AppPaths::locate("", "", true);
    assert_eq!(p.get_binary_path("/bin/sh"), "/bin/sh");
}
