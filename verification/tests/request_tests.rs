use exec_client::request::{build_request, companion_sock_path, program_name};

#[test]
fn request_carries_all_entries_in_order() {
    let parameters = vec![
        String::from("-l"),
        String::from("a b"),
        String::from("--color=auto"),
    ];
    let environments = vec![
        String::from("RUST_BACKTRACE=1"),
        String::from("PATH=/usr/bin:/bin"),
        String::from("HOME=/root"),
    ];
    let request = build_request(
        1234,
        String::from("ls"),
        &parameters,
        &environments,
        String::from("/tmp/occlum_tmp.abc/remote_client_occlum.sock"),
    );
    assert_eq!(request.process_id, 1234);
    assert_eq!(request.command, "ls");
    assert_eq!(request.parameters_vec(), parameters);
    assert_eq!(request.environments_vec(), environments);
    assert_eq!(
        request.sockpath,
        "/tmp/occlum_tmp.abc/remote_client_occlum.sock"
    );
}

#[test]
fn request_with_empty_lists_carries_nothing() {
    let parameters: Vec<String> = vec![];
    let environments: Vec<String> = vec![];
    let request = build_request(
        1,
        String::from("/bin/true"),
        &parameters,
        &environments,
        String::from("/tmp/t/remote_client_occlum.sock"),
    );
    assert!(request.parameters_vec().is_empty());
    assert!(request.environments_vec().is_empty());
}

#[test]
fn request_keeps_duplicate_entries_separate() {
    let parameters = vec![String::from("x"), String::from("x"), String::from("y")];
    let environments = vec![String::from("A=1"), String::from("A=1")];
    let request = build_request(
        7,
        String::from("echo"),
        &parameters,
        &environments,
        String::from("/tmp/t/remote_client_occlum.sock"),
    );
    assert_eq!(request.parameters_vec(), parameters);
    assert_eq!(request.environments_vec(), environments);
}

#[test]
fn companion_sock_path_joins_the_fixed_name() {
    assert_eq!(
        companion_sock_path("/tmp/occlum_tmp.xyz"),
        "/tmp/occlum_tmp.xyz/remote_client_occlum.sock"
    );
}

#[test]
fn program_name_strips_leading_directories() {
    assert_eq!(program_name("/bin/true"), "true");
    assert_eq!(program_name("/usr/local/bin/occlum_exec_server"), "occlum_exec_server");
}

#[test]
fn program_name_of_a_bare_name_is_itself() {
    assert_eq!(program_name("true"), "true");
    assert_eq!(program_name("a"), "a");
}
