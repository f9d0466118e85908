use rrr::config::Config;
use rrr::fetch::{route_body, Action, Event, FetchUnit, Phase};
use rrr::outcome::FetchError;
use sha2::{Digest, Sha256};

fn config(ignore: Option<&str>, stdout: bool) -> Config {
    Config::new(String::from("GET"), 5000, String::from("responses"), ignore, stdout)
}

fn waiting_for_body(config: &Config, url: &str) -> FetchUnit {
    let (mut unit, _) = FetchUnit::launch(config, String::from(url));
    assert_eq!(
        unit.handle(config, Event::Response { status: 200 }),
        Some(Action::ReadBody)
    );
    unit
}

#[test]
fn a_unit_starts_with_its_request() {
    let config = Config::new(String::from("POST"), 1234, String::from("d"), None, false);
    let (unit, action) = FetchUnit::launch(&config, String::from("https://example.com/x"));
    assert_eq!(unit.url, "https://example.com/x");
    assert_eq!(unit.phase, Phase::AwaitingResponse);
    assert_eq!(unit.outcome(), None);
    assert_eq!(
        action,
        Action::Request {
            method: String::from("POST"),
            url: String::from("https://example.com/x"),
            timeout_ms: 1234,
        }
    );
}

#[test]
fn the_url_is_taken_as_it_was_read() {
    let config = Config::default();
    let (unit, action) = FetchUnit::launch(&config, String::from("not a valid url"));
    assert_eq!(unit.phase, Phase::AwaitingResponse);
    assert_eq!(
        action,
        Action::Request {
            method: String::from("GET"),
            url: String::from("not a valid url"),
            timeout_ms: 5000,
        }
    );
}

#[test]
fn an_invalid_method_fails_the_unit_at_once() {
    let config = Config::new(String::from("G T"), 5000, String::from("d"), None, false);
    let (mut unit, action) = FetchUnit::launch(&config, String::from("https://example.com"));
    assert_eq!(action, Action::Finish { outcome: Err(FetchError::InvalidMethod) });
    assert_eq!(unit.phase, Phase::Failed(FetchError::InvalidMethod));
    assert_eq!(unit.outcome(), Some(Err(FetchError::InvalidMethod)));
    assert_eq!(unit.handle(&config, Event::Response { status: 200 }), None);
    assert_eq!(unit.phase, Phase::Failed(FetchError::InvalidMethod));
}

#[test]
fn an_empty_method_is_invalid() {
    let config = Config::new(String::new(), 5000, String::from("d"), None, false);
    let (unit, action) = FetchUnit::launch(&config, String::from("https://example.com"));
    assert_eq!(action, Action::Finish { outcome: Err(FetchError::InvalidMethod) });
    assert_eq!(unit.outcome(), Some(Err(FetchError::InvalidMethod)));
}

#[test]
fn an_ignored_status_ends_the_unit_as_a_success() {
    let config = config(Some("404,500"), false);
    for status in [404u16, 500] {
        let (mut unit, _) = FetchUnit::launch(&config, String::from("https://example.com"));
        assert_eq!(
            unit.handle(&config, Event::Response { status }),
            Some(Action::Finish { outcome: Ok(()) })
        );
        assert_eq!(unit.phase, Phase::Succeeded);
        assert_eq!(unit.outcome(), Some(Ok(())));
    }
}

#[test]
fn after_an_ignored_status_nothing_is_read_printed_or_saved() {
    for stdout in [false, true] {
        let config = config(Some("404"), stdout);
        let (mut unit, _) = FetchUnit::launch(&config, String::from("https://example.com"));
        unit.handle(&config, Event::Response { status: 404 });
        assert_eq!(unit.handle(&config, Event::Body { text: String::from("x") }), None);
        assert_eq!(unit.handle(&config, Event::OutputDone), None);
        assert_eq!(unit.handle(&config, Event::OutputFailed), None);
        assert_eq!(unit.handle(&config, Event::RequestFailed), None);
        assert_eq!(unit.handle(&config, Event::Response { status: 200 }), None);
        assert_eq!(unit.outcome(), Some(Ok(())));
    }
}

#[test]
fn a_status_that_is_not_ignored_has_its_body_read() {
    let config = config(Some("404,500"), false);
    for status in [200u16, 301, 403, 503, 0, 65535] {
        let (mut unit, _) = FetchUnit::launch(&config, String::from("https://example.com"));
        assert_eq!(
            unit.handle(&config, Event::Response { status }),
            Some(Action::ReadBody)
        );
        assert_eq!(unit.phase, Phase::AwaitingBody);
        assert_eq!(unit.outcome(), None);
    }
}

#[test]
fn a_failed_request_fails_the_unit() {
    let config = Config::default();
    let (mut unit, _) = FetchUnit::launch(&config, String::from("not a valid url"));
    assert_eq!(
        unit.handle(&config, Event::RequestFailed),
        Some(Action::Finish { outcome: Err(FetchError::RequestFailed) })
    );
    assert_eq!(unit.phase, Phase::Failed(FetchError::RequestFailed));
    assert_eq!(unit.outcome(), Some(Err(FetchError::RequestFailed)));
}

#[test]
fn a_transfer_that_breaks_off_fails_the_unit() {
    let config = Config::default();
    let mut unit = waiting_for_body(&config, "https://example.com");
    assert_eq!(
        unit.handle(&config, Event::RequestFailed),
        Some(Action::Finish { outcome: Err(FetchError::RequestFailed) })
    );
    assert_eq!(unit.outcome(), Some(Err(FetchError::RequestFailed)));
}

#[test]
fn a_body_that_is_no_text_fails_the_unit() {
    let config = Config::default();
    let mut unit = waiting_for_body(&config, "https://example.com");
    assert_eq!(
        unit.handle(&config, Event::BodyDecodeFailed),
        Some(Action::Finish { outcome: Err(FetchError::BodyDecodeFailed) })
    );
    assert_eq!(unit.phase, Phase::Failed(FetchError::BodyDecodeFailed));
    assert_eq!(unit.outcome(), Some(Err(FetchError::BodyDecodeFailed)));
}

#[test]
fn a_body_is_saved_under_its_content_name() {
    let config = Config::default();
    let body = "<!doctype html><title>Example Domain</title>";
    let mut unit = waiting_for_body(&config, "https://example.com");
    let action = unit.handle(&config, Event::Body { text: String::from(body) });
    let hash = hex::encode(Sha256::digest(body.as_bytes()));
    assert_eq!(hash.len(), 64);
    assert_eq!(
        action,
        Some(Action::Save {
            directory: String::from("responses"),
            filename: format!("example.com_{}.sha256", hash),
            contents: String::from(body),
        })
    );
    assert_eq!(unit.phase, Phase::AwaitingOutput);
    assert_eq!(
        unit.handle(&config, Event::OutputDone),
        Some(Action::Finish { outcome: Ok(()) })
    );
    assert_eq!(unit.outcome(), Some(Ok(())));
}

#[test]
fn a_saved_body_hashes_to_the_hash_in_its_name() {
    let config = config(None, false);
    for (url, body) in [
        ("https://example.com", ""),
        ("https://example.com/a", "some body"),
        ("http://[::1]:8080/", "gr\u{fc}\u{df}e"),
        ("no url", "body of nothing"),
    ] {
        match route_body(&config, url, String::from(body)) {
            Action::Save { directory, filename, contents } => {
                assert_eq!(directory, "responses");
                assert_eq!(contents, body);
                let in_name = &filename[filename.len() - 71..filename.len() - 7];
                assert_eq!(in_name, hex::encode(Sha256::digest(contents.as_bytes())));
                assert!(filename.ends_with(".sha256"));
            }
            other => panic!("not saved: {:?}", other),
        }
    }
}

#[test]
fn a_body_from_what_is_no_url_is_saved_without_host() {
    let config = config(None, false);
    let action = route_body(&config, "not a valid url", String::from("abc"));
    assert_eq!(
        action,
        Action::Save {
            directory: String::from("responses"),
            filename: String::from(
                "_ba7816bf8f01cfea414140de5dae2223b00361a396177a9cb410ff61f20015ad.sha256"
            ),
            contents: String::from("abc"),
        }
    );
}

#[test]
fn a_body_is_saved_in_the_configured_directory() {
    let config = Config::new(String::from("GET"), 5000, String::from("out/bodies"), None, false);
    match route_body(&config, "https://example.com", String::from("x")) {
        Action::Save { directory, .. } => assert_eq!(directory, "out/bodies"),
        other => panic!("not saved: {:?}", other),
    }
}

#[test]
fn in_stdout_mode_the_body_is_printed_with_a_line_end() {
    let config = config(None, true);
    let mut unit = waiting_for_body(&config, "https://example.com");
    let action = unit.handle(&config, Event::Body { text: String::from("the body") });
    assert_eq!(action, Some(Action::Print { text: String::from("the body\n") }));
    assert_eq!(unit.phase, Phase::AwaitingOutput);
    assert_eq!(
        unit.handle(&config, Event::OutputDone),
        Some(Action::Finish { outcome: Ok(()) })
    );
    assert_eq!(unit.outcome(), Some(Ok(())));
}

#[test]
fn in_stdout_mode_nothing_is_saved() {
    let config = config(None, true);
    for body in ["", "a", "line\n", "two\nlines"] {
        assert_eq!(
            route_body(&config, "https://example.com", String::from(body)),
            Action::Print { text: format!("{}\n", body) }
        );
    }
}

#[test]
fn a_failed_write_fails_the_unit() {
    let config = Config::default();
    let mut unit = waiting_for_body(&config, "https://example.com");
    unit.handle(&config, Event::Body { text: String::from("x") });
    assert_eq!(
        unit.handle(&config, Event::OutputFailed),
        Some(Action::Finish { outcome: Err(FetchError::IOError) })
    );
    assert_eq!(unit.phase, Phase::Failed(FetchError::IOError));
    assert_eq!(unit.outcome(), Some(Err(FetchError::IOError)));
}

#[test]
fn an_event_that_is_not_awaited_changes_nothing() {
    let config = Config::default();
    let (mut unit, _) = FetchUnit::launch(&config, String::from("https://example.com"));
    assert_eq!(unit.handle(&config, Event::Body { text: String::from("x") }), None);
    assert_eq!(unit.handle(&config, Event::BodyDecodeFailed), None);
    assert_eq!(unit.handle(&config, Event::OutputDone), None);
    assert_eq!(unit.handle(&config, Event::OutputFailed), None);
    assert_eq!(unit.phase, Phase::AwaitingResponse);

    let mut unit = waiting_for_body(&config, "https://example.com");
    assert_eq!(unit.handle(&config, Event::Response { status: 200 }), None);
    assert_eq!(unit.handle(&config, Event::OutputDone), None);
    assert_eq!(unit.handle(&config, Event::OutputFailed), None);
    assert_eq!(unit.phase, Phase::AwaitingBody);

    unit.handle(&config, Event::Body { text: String::from("x") });
    assert_eq!(unit.handle(&config, Event::Response { status: 200 }), None);
    assert_eq!(unit.handle(&config, Event::RequestFailed), None);
    assert_eq!(unit.handle(&config, Event::Body { text: String::from("y") }), None);
    assert_eq!(unit.handle(&config, Event::BodyDecodeFailed), None);
    assert_eq!(unit.phase, Phase::AwaitingOutput);
    assert_eq!(unit.url, "https://example.com");
}

#[test]
fn a_unit_that_is_done_stays_done() {
    let config = Config::default();
    let (mut unit, _) = FetchUnit::launch(&config, String::from("https://example.com"));
    unit.handle(&config, Event::RequestFailed);
    for _ in 0..2 {
        assert_eq!(unit.handle(&config, Event::Response { status: 200 }), None);
        assert_eq!(unit.handle(&config, Event::RequestFailed), None);
        assert_eq!(unit.handle(&config, Event::OutputDone), None);
        assert_eq!(unit.outcome(), Some(Err(FetchError::RequestFailed)));
    }
}
