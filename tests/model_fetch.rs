use scanlytics::error::ModelError;
use scanlytics::model_store::{model_file_name, partial_file_name, FetchAction, FetchEvent, FetchStage, ModelFetch};
use scanlytics::registry::{interpret_registry_reply, url_from_reply};

#[test]
fn cache_file_names() {
    assert_eq!(model_file_name("classifier"), "classifier.onnx");
    assert_eq!(partial_file_name("classifier"), "classifier.onnx.part");
}

#[test]
fn registry_reply_with_url() {
    let r = url_from_reply(200, &br#"{"url": "https://blob.example/m.onnx?sig=1"}"#.to_vec());
    assert_eq!(r.unwrap(), "https://blob.example/m.onnx?sig=1");
}

#[test]
fn registry_reply_unauthorized() {
    assert!(matches!(url_from_reply(401, &b"{}".to_vec()), Err(ModelError::Auth(ref d)) if d == "Invalid token"));
}

#[test]
fn registry_reply_without_url() {
    assert!(matches!(url_from_reply(200, &br#"{"link": "x"}"#.to_vec()),
        Err(ModelError::Network(ref d)) if d == "Invalid URL response"));
    assert!(matches!(url_from_reply(200, &br#"{"url": 3}"#.to_vec()), Err(ModelError::Network(_))));
    assert!(matches!(url_from_reply(200, &b"not json".to_vec()), Err(ModelError::Network(_))));
    assert!(matches!(url_from_reply(500, &br#"{"url": "x"}"#.to_vec()), Err(ModelError::Network(_))));
}

#[test]
fn interpret_reply_cases() {
    assert_eq!(interpret_registry_reply(201, Some("u".to_string())).unwrap(), "u");
    assert!(matches!(interpret_registry_reply(401, Some("u".to_string())), Err(ModelError::Auth(_))));
    assert!(matches!(interpret_registry_reply(200, None), Err(ModelError::Network(_))));
}

#[test]
fn cached_model_needs_no_network() {
    let (mut fetch, first) = ModelFetch::new("classifier".to_string(), "ana".to_string());
    assert!(matches!(first, FetchAction::CheckCache { ref file_name } if file_name == "classifier.onnx"));
    let next = fetch.step(FetchEvent::CacheChecked(true));
    assert!(matches!(next, FetchAction::Ready { ref file_name } if file_name == "classifier.onnx"));
    assert_eq!(fetch.stage, FetchStage::Ready);
    // a second request for the same cached model goes the same way
    let (mut again, _) = ModelFetch::new("classifier".to_string(), "ana".to_string());
    assert!(matches!(again.step(FetchEvent::CacheChecked(true)), FetchAction::Ready { .. }));
}

#[test]
fn cold_cache_downloads_then_publishes() {
    let (mut fetch, _) = ModelFetch::new("classifier".to_string(), "  ana@example.com ".to_string());
    let a = fetch.step(FetchEvent::CacheChecked(false));
    assert!(matches!(a, FetchAction::LookupToken { ref user } if user == "ana@example.com"));
    let a = fetch.step(FetchEvent::Token(Ok("tok".to_string())));
    match a {
        FetchAction::RequestUrl { token, body } => {
            assert_eq!(token, "tok");
            assert_eq!(body, br#"{"model_name":"classifier"}"#.to_vec());
        }
        other => panic!("unexpected {:?}", other),
    }
    let a = fetch.step(FetchEvent::RegistryReplied { status: 200, body: br#"{"url":"https://b/x"}"#.to_vec() });
    assert!(matches!(a, FetchAction::Download { ref url } if url == "https://b/x"));
    let a = fetch.step(FetchEvent::Downloaded { status: 200, body: vec![1, 2, 3] });
    match a {
        FetchAction::WritePartial { file_name, bytes } => {
            assert_eq!(file_name, "classifier.onnx.part");
            assert_eq!(bytes, vec![1, 2, 3]);
        }
        other => panic!("unexpected {:?}", other),
    }
    let a = fetch.step(FetchEvent::FileDone(Ok(())));
    assert!(matches!(a, FetchAction::Publish { ref from, ref to }
        if from == "classifier.onnx.part" && to == "classifier.onnx"));
    let a = fetch.step(FetchEvent::FileDone(Ok(())));
    assert!(matches!(a, FetchAction::Ready { ref file_name } if file_name == "classifier.onnx"));
}

#[test]
fn unauthorized_registry_fails_with_auth() {
    let (mut fetch, _) = ModelFetch::new("classifier".to_string(), "ana".to_string());
    fetch.step(FetchEvent::CacheChecked(false));
    fetch.step(FetchEvent::Token(Ok("expired".to_string())));
    let a = fetch.step(FetchEvent::RegistryReplied { status: 401, body: vec![] });
    assert!(matches!(a, FetchAction::Fail(ModelError::Auth(_))));
    assert_eq!(fetch.stage, FetchStage::Failed);
}

#[test]
fn missing_credential_fails_with_auth() {
    let (mut fetch, _) = ModelFetch::new("classifier".to_string(), "ana".to_string());
    fetch.step(FetchEvent::CacheChecked(false));
    let a = fetch.step(FetchEvent::Token(Err("no entry".to_string())));
    assert!(matches!(a, FetchAction::Fail(ModelError::Auth(ref d)) if d == "no entry"));
}

#[test]
fn transport_and_file_failures() {
    let (mut fetch, _) = ModelFetch::new("m".to_string(), "u".to_string());
    fetch.step(FetchEvent::CacheChecked(false));
    fetch.step(FetchEvent::Token(Ok("t".to_string())));
    assert!(matches!(fetch.step(FetchEvent::TransportFailed("down".to_string())), FetchAction::Fail(ModelError::Network(_))));

    let (mut fetch, _) = ModelFetch::new("m".to_string(), "u".to_string());
    fetch.step(FetchEvent::CacheChecked(false));
    fetch.step(FetchEvent::Token(Ok("t".to_string())));
    fetch.step(FetchEvent::RegistryReplied { status: 200, body: br#"{"url":"u"}"#.to_vec() });
    assert!(matches!(fetch.step(FetchEvent::Downloaded { status: 404, body: vec![] }), FetchAction::Fail(ModelError::Network(_))));

    let (mut fetch, _) = ModelFetch::new("m".to_string(), "u".to_string());
    fetch.step(FetchEvent::CacheChecked(false));
    fetch.step(FetchEvent::Token(Ok("t".to_string())));
    fetch.step(FetchEvent::RegistryReplied { status: 200, body: br#"{"url":"u"}"#.to_vec() });
    fetch.step(FetchEvent::Downloaded { status: 200, body: vec![9] });
    assert!(matches!(fetch.step(FetchEvent::FileDone(Err("disk full".to_string()))), FetchAction::Fail(ModelError::FileSystem(_))));
}

#[test]
fn unexpected_event_is_processing_error() {
    let (mut fetch, _) = ModelFetch::new("m".to_string(), "u".to_string());
    assert!(matches!(fetch.step(FetchEvent::FileDone(Ok(()))), FetchAction::Fail(ModelError::Processing(_))));
}
