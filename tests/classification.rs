use scanlytics::classify::{
    AnalysisResponse, BatchAction, BatchEvent, BatchSession, BatchStage, ImageData, StatementResponse,
};
use scanlytics::error::ModelError;
use scanlytics::model_store::{FetchAction, FetchEvent, ModelFetch};

use std::io::Cursor;

fn test_image() -> Vec<u8> {
    let img = image::GrayImage::new(28, 28);
    let mut bytes: Vec<u8> = Vec::new();
    img.write_to(&mut Cursor::new(&mut bytes), image::ImageFormat::Png).unwrap();
    bytes
}

fn images(names: &[(&str, &str)]) -> Vec<ImageData> {
    names
        .iter()
        .map(|(f, e)| ImageData { filename: f.to_string(), extension: e.to_string(), data: test_image() })
        .collect()
}

fn row(indication: &str) -> StatementResponse {
    StatementResponse {
        indication: indication.to_string(),
        statement: format!("{} statement", indication),
        assessment: format!("{} assessment", indication),
    }
}

/// Scores whose largest entry is at `index`, with value `top`.
fn scores_for(index: usize, top: f32) -> Vec<u32> {
    let mut s = vec![0.01f32; 9];
    s[index] = top;
    s.iter().map(|v| v.to_bits()).collect()
}

const KNEE: usize = 7;
const HEAD: usize = 6;

/// Runs a request: the engine answers image `i` with `outputs[i]`, the
/// template store with `templates(label)`.
fn run(
    batch: Vec<ImageData>,
    outputs: &[Vec<u32>],
    templates: &dyn Fn(&str) -> Vec<StatementResponse>,
) -> (Result<AnalysisResponse, ModelError>, usize) {
    let (mut session, mut action) = BatchSession::new(batch);
    let mut queries = 0;
    loop {
        action = match action {
            BatchAction::LoadModel => session.step(BatchEvent::ModelLoaded(vec![Some(1), Some(1), Some(28), Some(28)])),
            BatchAction::Infer { index, tensor } => {
                assert_eq!(tensor.values.len(), 28 * 28);
                session.step(BatchEvent::Scores(outputs[index].clone()))
            }
            BatchAction::FetchTemplates { label } => {
                queries += 1;
                session.step(BatchEvent::Templates(templates(&label)))
            }
            BatchAction::Respond => return (Ok(session.into_response()), queries),
            BatchAction::Abort(e) => return (Err(e), queries),
        }
    }
}

fn one_knee_row(label: &str) -> Vec<StatementResponse> {
    if label == "knee" { vec![row("test_indication")] } else { vec![] }
}

#[test]
fn test_successful_image_processing() {
    let (r, _) = run(images(&[("test1", "jpg"), ("test2", "png")]), &[scores_for(KNEE, 0.95), scores_for(KNEE, 0.95)], &one_knee_row);
    let response = r.unwrap();
    assert_eq!(response.results.len(), 2);
    assert!(!response.statements.is_empty());
}

#[test]
fn test_empty_image_list() {
    let (r, queries) = run(images(&[]), &[], &one_knee_row);
    let response = r.unwrap();
    assert_eq!(response.results.len(), 0);
    assert!(response.statements.is_empty());
    assert_eq!(queries, 0);
}

#[test]
fn test_duplicate_image_types() {
    let out = vec![scores_for(KNEE, 0.95); 3];
    let (r, queries) = run(images(&[("knee1", "jpg"), ("knee2", "jpg"), ("knee3", "jpg")]), &out, &one_knee_row);
    let response = r.unwrap();
    assert_eq!(response.results.len(), 3);
    assert_eq!(response.statements.len(), 1);
    assert_eq!(queries, 1);
}

#[test]
fn test_various_image_extensions() {
    let out = vec![scores_for(KNEE, 0.95); 4];
    let (r, _) = run(
        images(&[("image1", "jpg"), ("image2", "png"), ("image3", "jpeg"), ("image4", "bmp")]),
        &out,
        &one_knee_row,
    );
    let response = r.unwrap();
    assert_eq!(response.results.len(), 4);
}

#[test]
fn test_missing_statements() {
    let (r, _) = run(images(&[("test1", "jpg")]), &[scores_for(KNEE, 0.95)], &|_: &str| vec![]);
    let response = r.unwrap();
    assert_eq!(response.results.len(), 1);
    assert!(response.statements.is_empty());
}

#[test]
fn results_keep_input_order_and_unit_confidence() {
    let out = vec![scores_for(HEAD, 3.0), scores_for(KNEE, 0.4), scores_for(0, -1.0)];
    let (r, _) = run(images(&[("a", "png"), ("b", "png"), ("c", "png")]), &out, &|_: &str| vec![]);
    let response = r.unwrap();
    let names: Vec<&str> = response.results.iter().map(|x| x.filename.as_str()).collect();
    assert_eq!(names, vec!["a", "b", "c"]);
    let labels: Vec<&str> = response.results.iter().map(|x| x.image_type.as_str()).collect();
    assert_eq!(labels, vec!["head", "knee", "angio"]);
    let conf: Vec<f32> = response.results.iter().map(|x| f32::from_bits(x.confidence_bits)).collect();
    assert_eq!(conf, vec![1.0, 0.4, 0.01]);
    assert!(conf.iter().all(|c| (0.0..=1.0).contains(c)));
}

#[test]
fn knee_knee_head_statements_in_first_seen_order() {
    let store = |label: &str| match label {
        "knee" => vec![row("knee#1"), row("knee#2")],
        "head" => vec![row("head#1")],
        _ => vec![],
    };
    let out = vec![scores_for(KNEE, 0.9), scores_for(KNEE, 0.8), scores_for(HEAD, 0.7)];
    let (r, queries) = run(images(&[("A", "jpg"), ("B", "jpg"), ("C", "jpg")]), &out, &store);
    let response = r.unwrap();
    assert_eq!(response.results.len(), 3);
    assert_eq!(response.statements.len(), 3);
    let order: Vec<&str> = response.statements.iter().map(|s| s.indication.as_str()).collect();
    assert_eq!(order, vec!["knee#1", "knee#2", "head#1"]);
    assert_eq!(queries, 2);
}

#[test]
fn unauthorized_model_fetch_aborts_before_images() {
    let (mut session, first) = BatchSession::new(images(&[("a", "jpg"), ("b", "jpg")]));
    assert!(matches!(first, BatchAction::LoadModel));
    let a = session.step(BatchEvent::Failed(ModelError::Auth("Invalid token".to_string())));
    assert!(matches!(a, BatchAction::Abort(ModelError::Auth(ref d)) if d == "Invalid token"));
    assert_eq!(session.stage, BatchStage::Failed);
    assert!(session.results.is_empty());
}

#[test]
fn corrupt_image_fails_whole_batch() {
    let mut batch = images(&[("ok1", "png"), ("bad", "png"), ("ok2", "png")]);
    batch[1].data = b"corrupt bytes".to_vec();
    let out = vec![scores_for(KNEE, 0.9); 3];
    let (r, _) = run(batch, &out, &one_knee_row);
    assert!(matches!(r, Err(ModelError::Image(_))));
}

#[test]
fn nan_output_fails_with_processing() {
    let (r, _) = run(images(&[("a", "png")]), &[vec![f32::NAN.to_bits(); 9]], &one_knee_row);
    assert!(matches!(r, Err(ModelError::Processing(_))));
}

#[test]
fn unsupported_model_shape_fails_with_processing() {
    let (mut session, _) = BatchSession::new(images(&[("a", "png")]));
    let a = session.step(BatchEvent::ModelLoaded(vec![Some(1), Some(28)]));
    assert!(matches!(a, BatchAction::Abort(ModelError::Processing(_))));
}

#[test]
fn model_error_messages() {
    assert_eq!(ModelError::Auth("Invalid token".to_string()).message(), "Authentication error: Invalid token");
    assert_eq!(ModelError::Image("bad".to_string()).message(), "Image processing error: bad");
    assert_eq!(ModelError::FileSystem("x".to_string()).message(), "File system error: x");
    assert_eq!(ModelError::Processing("y".to_string()).detail(), "y");
}

#[test]
fn cold_cache_unauthorized_registry_aborts_batch_with_auth() {
    let (mut session, first) = BatchSession::new(images(&[("a", "jpg")]));
    assert!(matches!(first, BatchAction::LoadModel));
    let (mut fetch, _) = ModelFetch::new("test_model".to_string(), "test_user".to_string());
    fetch.step(FetchEvent::CacheChecked(false));
    fetch.step(FetchEvent::Token(Ok("stale".to_string())));
    let err = match fetch.step(FetchEvent::RegistryReplied { status: 401, body: vec![] }) {
        FetchAction::Fail(e) => e,
        other => panic!("unexpected {:?}", other),
    };
    let a = session.step(BatchEvent::Failed(err));
    assert!(matches!(a, BatchAction::Abort(ModelError::Auth(_))));
    assert!(session.results.is_empty());
}

#[test]
fn template_store_failure_aborts_with_database_error() {
    let (mut session, _) = BatchSession::new(images(&[("a", "png")]));
    let a = session.step(BatchEvent::ModelLoaded(vec![Some(1), Some(1), Some(28), Some(28)]));
    assert!(matches!(a, BatchAction::Infer { index: 0, .. }));
    let a = session.step(BatchEvent::Scores(scores_for(KNEE, 0.9)));
    assert!(matches!(a, BatchAction::FetchTemplates { ref label } if label == "knee"));
    let a = session.step(BatchEvent::Failed(ModelError::Database("query failed".to_string())));
    assert!(matches!(a, BatchAction::Abort(ModelError::Database(ref d)) if d == "query failed"));
}

#[test]
fn events_after_the_end_are_refused() {
    let (mut session, _) = BatchSession::new(images(&[]));
    let a = session.step(BatchEvent::ModelLoaded(vec![None, None, None, None]));
    assert!(matches!(a, BatchAction::Respond));
    assert_eq!(session.stage, BatchStage::Done);
    let a = session.step(BatchEvent::Scores(scores_for(KNEE, 0.9)));
    assert!(matches!(a, BatchAction::Abort(ModelError::Processing(_))));
}

#[test]
fn remaining_error_messages() {
    assert_eq!(ModelError::Network("n".to_string()).message(), "Network error: n");
    assert_eq!(ModelError::Processing("p".to_string()).message(), "Model processing error: p");
    assert_eq!(ModelError::Database("d".to_string()).message(), "Database error: d");
    assert_eq!(ModelError::Serialization("s".to_string()).message(), "Serialization error: s");
}
