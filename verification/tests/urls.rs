use studio_launcher::digits::dec_string;
use studio_launcher::urls::base_url;
use studio_launcher::urls::health_url;
use studio_launcher::urls::spawn_args;

#[test]
fn renders_zero() {
    assert_eq!(dec_string(0), "0");
}

#[test]
fn renders_single_digit() {
    assert_eq!(dec_string(7), "7");
}

#[test]
fn renders_largest_port() {
    assert_eq!(dec_string(65535), "65535");
}

#[test]
fn health_url_embeds_port() {
    assert_eq!(health_url(8080), "http://127.0.0.1:8080/api/health");
}

#[test]
fn base_url_embeds_port() {
    assert_eq!(base_url(8080), "http://127.0.0.1:8080");
}

#[test]
fn spawn_args_shape() {
    let args = spawn_args(8080);
    let expected: Vec<&str> = vec!["--port", "8080", "--host", "127.0.0.1", "--no-browser"];
    assert_eq!(args, expected);
}

#[test]
fn same_port_everywhere() {
    let port: u16 = 43210;
    let args = spawn_args(port);
    assert_eq!(args[1], "43210");
    assert_eq!(health_url(port), "http://127.0.0.1:43210/api/health");
    assert_eq!(base_url(port), "http://127.0.0.1:43210");
}
