use studio_launcher::locator::locate_sidecar;
use studio_launcher::locator::packaged_sidecar_path;
use studio_launcher::locator::sidecar_name;

#[test]
fn name_on_windows() {
    assert_eq!(sidecar_name(true), "firefly-studio.exe");
}

#[test]
fn name_elsewhere() {
    assert_eq!(sidecar_name(false), "firefly-studio");
}

#[test]
fn packaged_path_shape() {
    assert_eq!(
        packaged_sidecar_path("/opt/app/resources", false),
        "/opt/app/resources/sidecar/firefly-studio"
    );
}

#[test]
fn packaged_resource_present_wins() {
    let path = locate_sidecar(Some("/opt/app/resources"), true, "/opt/app/bin", false);
    assert_eq!(path, "/opt/app/resources/sidecar/firefly-studio");
}

#[test]
fn missing_packaged_resource_falls_back() {
    let path = locate_sidecar(Some("/opt/app/resources"), false, "/opt/app/bin", false);
    assert_eq!(path, "/opt/app/bin/firefly-studio");
}

#[test]
fn no_resource_dir_falls_back() {
    let path = locate_sidecar(None, false, "/home/dev/target/debug", true);
    assert_eq!(path, "/home/dev/target/debug/firefly-studio.exe");
}
