//! Client construction, the facade accessors, and the watcher loop.

use poolwatch::cli::Opts;
use poolwatch::client::{client_from_options, Client};
use poolwatch::credential::Credential;
use poolwatch::errors::{BotError, ClientParseError};
use poolwatch::watch::{drain_all, watch_step, WatchAction, WatchEvent, WatchState};

fn base_opts() -> Opts {
    Opts {
        rpc: String::from("http://localhost:8545"),
        private_key: None,
        seed_phrase: None,
        seed_phrase_index: None,
        read_only: Some(true),
    }
}

const TEST_KEY_HEX: &str = "ac0974bec39a17e36ba4a6b4d238ff944bacb478cbed5efcae784d7bf4f2ff80";

#[test]
fn bad_url_is_a_url_parse_error() {
    let opts = Opts { rpc: String::from("not a url"), ..base_opts() };
    assert!(matches!(
        client_from_options(&opts, ""),
        Err(ClientParseError::NotHttp(_))
    ));
}

#[test]
fn bad_url_wins_over_credential_errors() {
    let opts = Opts { rpc: String::from("not a url"), read_only: None, ..base_opts() };
    assert!(matches!(
        client_from_options(&opts, ""),
        Err(ClientParseError::NotHttp(_))
    ));
}

#[test]
fn read_only_client_has_no_signer_and_no_middleware() {
    let client = client_from_options(&base_opts(), "").unwrap();
    assert!(client.signer().is_none());
    assert!(client.middleware().is_none());
}

#[test]
fn signing_client_has_signer_and_middleware() {
    let opts = Opts {
        private_key: Some(String::from("key.txt")),
        read_only: None,
        ..base_opts()
    };
    let client = client_from_options(&opts, TEST_KEY_HEX).unwrap();
    assert!(matches!(client.signer(), Some(Credential::LocalKey { .. })));
    assert!(client.middleware().is_some());
}

#[test]
fn client_new_keeps_what_it_was_given() {
    let provider =
        ethers::providers::Provider::<ethers::providers::Http>::try_from("http://localhost:8545")
            .unwrap();
    let credential = Credential::DerivedKey { phrase: String::from("p"), index: 3 };
    let client = Client::new(Some(credential), provider);
    match client.signer() {
        Some(Credential::DerivedKey { phrase, index }) => {
            assert_eq!(phrase.as_str(), "p");
            assert_eq!(*index, 3);
        },
        other => panic!("expected the derived-key credential back, got {:?}", other),
    }
    let _provider_ref = client.provider();
}

#[test]
fn watch_step_emits_each_item_and_stops_on_close() {
    let (state, action) = watch_step(
        WatchState::Subscribed,
        &WatchEvent::Item { record: String::from("{\"block\":1}") },
    );
    assert!(matches!(state, WatchState::Draining));
    match action {
        WatchAction::Emit { line } => assert_eq!(line, "{\"block\":1}"),
        WatchAction::Stop => panic!("an item must be emitted, not stopped on"),
    }

    let (state, action) = watch_step(WatchState::Draining, &WatchEvent::Closed);
    assert!(matches!(state, WatchState::Draining));
    assert!(matches!(action, WatchAction::Stop));
}

#[test]
fn watcher_emits_one_line_per_record_in_order() {
    let records: Vec<String> = vec![
        String::from("{\"blockNumber\":\"0x1\",\"topics\":[\"0xaa\"]}"),
        String::from("{\"blockNumber\":\"0x2\",\"topics\":[\"0xbb\"]}"),
        String::from("{\"blockNumber\":\"0x3\",\"topics\":[\"0xcc\"]}"),
    ];
    let lines = drain_all(&records);
    assert_eq!(lines.len(), records.len());
    for (line, record) in lines.iter().zip(records.iter()) {
        assert_eq!(line, record);
        let reparsed: serde_json::Value = serde_json::from_str(line).unwrap();
        let original: serde_json::Value = serde_json::from_str(record).unwrap();
        assert_eq!(reparsed, original);
    }
}

#[test]
fn watcher_emits_nothing_for_an_empty_stream() {
    let lines = drain_all(&Vec::new());
    assert!(lines.is_empty());
}

#[test]
fn errors_convert_into_the_process_error() {
    let parse_error = ClientParseError::NoOffset;
    assert!(matches!(
        BotError::from(parse_error),
        BotError::ClientOptsError(ClientParseError::NoOffset)
    ));

    let io_error = std::io::Error::new(std::io::ErrorKind::Other, "sink closed");
    assert!(matches!(BotError::from(io_error), BotError::IOError(_)));
}
