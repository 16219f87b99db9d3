use abci::types::Error;

#[test]
fn error_message_names_every_field() {
    let e = Error {
        code: 204,
        codespace: "app".to_string(),
        log: "bad nonce".to_string(),
        info: "tx 7".to_string(),
    };
    assert_eq!(
        e.message(),
        "Error: [Code: 204], [Codespace: app], [Log: bad nonce], [Info: tx 7]"
    );
}

#[test]
fn error_message_renders_zero_and_max_codes() {
    let e = Error {
        code: 0,
        codespace: String::new(),
        log: String::new(),
        info: String::new(),
    };
    assert_eq!(e.message(), "Error: [Code: 0], [Codespace: ], [Log: ], [Info: ]");

    let e = Error {
        code: u32::MAX,
        codespace: String::new(),
        log: String::new(),
        info: String::new(),
    };
    assert_eq!(e.message(), "Error: [Code: 4294967295], [Codespace: ], [Log: ], [Info: ]");
}
