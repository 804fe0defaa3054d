use auto_wlr_randr::ipc::{encode_reply, socket_path_for};

#[test]
fn socket_path_under_runtime_dir() {
    let path = socket_path_for(Some("/run/user/1000".to_string()), 7);
    assert_eq!(path, "/run/user/1000/auto-wlr-randr/auto-wlr-randr.sock");
}

#[test]
fn socket_path_from_uid() {
    assert_eq!(
        socket_path_for(None, 1000),
        "/run/user/1000/auto-wlr-randr/auto-wlr-randr.sock"
    );
    assert_eq!(socket_path_for(None, 0), "/run/user/0/auto-wlr-randr/auto-wlr-randr.sock");
    assert_eq!(
        socket_path_for(None, u32::MAX),
        "/run/user/4294967295/auto-wlr-randr/auto-wlr-randr.sock"
    );
    assert!(socket_path_for(None, 42).ends_with("/auto-wlr-randr/auto-wlr-randr.sock"));
}

#[test]
fn reply_is_tagged_json() {
    assert_eq!(
        encode_reply(&Ok("done".to_string())),
        "{\"Ok\":\"done\"}".to_string()
    );
    assert_eq!(
        encode_reply(&Err("Profile 'x' not found.".to_string())),
        "{\"Err\":\"Profile 'x' not found.\"}".to_string()
    );
}

#[test]
fn reply_escapes_quotes_and_newlines() {
    assert_eq!(
        encode_reply(&Ok("a \"b\"\nc".to_string())),
        "{\"Ok\":\"a \\\"b\\\"\\nc\"}".to_string()
    );
}
