use creddock::command::{build_command_args, engine_program, run_command_args, Config};

fn strings(v: &[&str]) -> Vec<String> {
    v.iter().map(|s| s.to_string()).collect()
}

fn config(args: &[&str]) -> Config {
    Config {
        adc: "/creds/adc.json".to_string(),
        adc_docker: "/tmp/keys/creds.json".to_string(),
        project: "myproj".to_string(),
        context: "./app".to_string(),
        args: strings(args),
    }
}

#[test]
fn build_is_quiet_build_of_context() {
    assert_eq!(build_command_args(&"./app".to_string()), strings(&["build", "-q", "./app"]));
    assert_eq!(engine_program(), "docker");
}

#[test]
fn empty_extra_args_are_left_out() {
    let r = run_command_args(&config(&["", ""]), &"/creds/adc.json".to_string(), &"img".to_string());
    assert_eq!(
        r,
        strings(&[
            "run",
            "--rm",
            "-e",
            "GOOGLE_APPLICATION_CREDENTIALS=/tmp/keys/creds.json",
            "-e",
            "GOOGLE_CLOUD_PROJECT=myproj",
            "-v",
            "/creds/adc.json:/tmp/keys/creds.json:ro",
            "img",
        ])
    );
    let none = run_command_args(&config(&[]), &"/creds/adc.json".to_string(), &"img".to_string());
    assert_eq!(none, r);
}

#[test]
fn extra_args_follow_image_in_order() {
    let r = run_command_args(
        &config(&["python", "", "-m", "app"]),
        &"/real/adc.json".to_string(),
        &"sha256:abc".to_string(),
    );
    assert_eq!(r.len(), 12);
    assert_eq!(r[7], "/real/adc.json:/tmp/keys/creds.json:ro");
    assert_eq!(r[8], "sha256:abc");
    assert_eq!(&r[9..], &strings(&["python", "-m", "app"])[..]);
}

#[test]
fn empty_entries_among_extra_args_are_dropped() {
    let r = run_command_args(&config(&["", "x", ""]), &"/creds/adc.json".to_string(), &"img".to_string());
    assert_eq!(r.len(), 10);
    assert_eq!(&r[8..], &strings(&["img", "x"])[..]);
}
