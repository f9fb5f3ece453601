//! The model manager: guarantees that a model artifact is in the local cache,
//! fetching it from the registry only when it is missing.
//!
//! The work that touches the outside world (the file system, the credential
//! store, the network) is done by the caller. `ModelFetch` decides what comes
//! next: `step` takes what the last action produced and returns the next
//! action. A download is written under a partial name and then renamed, so
//! the final name only ever holds a complete artifact.
use vstd::prelude::*;

use crate::error::ModelError;
use crate::registry::{
    encode_request, is_success, json_url_member, request_json, url_from_reply, INVALID_TOKEN,
    INVALID_URL_RESPONSE, REGISTRY_REQUEST_FAILED, STATUS_UNAUTHORIZED,
};
use crate::text::{trim, trimmed};

verus! {

/// Suffix of a cached model artifact.
pub const MODEL_EXTENSION: &'static str = ".onnx";

/// Detail of the `Network` error for a download whose status is not a success.
pub const DOWNLOAD_FAILED: &'static str = "Model download failed";

/// Suffix of an artifact that is still being written.
pub const PARTIAL_EXTENSION: &'static str = ".onnx.part";

/// File name of the cached artifact of `model_id`.
pub open spec fn model_file(model_id: Seq<char>) -> Seq<char> {
    model_id + MODEL_EXTENSION@
}

/// File name under which the artifact of `model_id` is downloaded.
pub open spec fn partial_file(model_id: Seq<char>) -> Seq<char> {
    model_id + PARTIAL_EXTENSION@
}

/// File name, inside the cache directory, of the artifact of `model_id`.
pub fn model_file_name(model_id: &str) -> (r: String)
    ensures
        r@ == model_file(model_id@),
{
    String::from_str(model_id).concat(MODEL_EXTENSION)
}

/// File name, inside the cache directory, of a download in progress.
pub fn partial_file_name(model_id: &str) -> (r: String)
    ensures
        r@ == partial_file(model_id@),
{
    String::from_str(model_id).concat(PARTIAL_EXTENSION)
}

/// Where a fetch stands.
#[derive(PartialEq, Eq, Structural, Clone, Copy, Debug)]
pub enum FetchStage {
    CheckCache,
    AwaitToken,
    AwaitUrl,
    AwaitDownload,
    AwaitWrite,
    AwaitPublish,
    Ready,
    Failed,
}

/// What the caller's last action produced.
#[derive(Debug)]
pub enum FetchEvent {
    /// Whether the cached artifact exists.
    CacheChecked(bool),
    /// The user's bearer token, or why the credential store gave none.
    Token(Result<String, String>),
    /// The registry's reply: its status and body.
    RegistryReplied { status: u16, body: Vec<u8> },
    /// The download's reply: its status and body.
    Downloaded { status: u16, body: Vec<u8> },
    /// A request could not be sent or its reply could not be read.
    TransportFailed(String),
    /// A write or a rename finished, or why it failed.
    FileDone(Result<(), String>),
}

/// What the caller is to do next.
#[derive(Debug)]
pub enum FetchAction {
    /// Report whether `file_name` exists in the cache directory, creating the
    /// directory if it is absent.
    CheckCache { file_name: String },
    /// Look up the bearer token stored for `user`.
    LookupToken { user: String },
    /// POST `body` (JSON) to the registry with `Authorization: Bearer <token>`.
    RequestUrl { token: String, body: Vec<u8> },
    /// GET `url`, which carries its own authorization.
    Download { url: String },
    /// Write `bytes` to `file_name` in the cache directory.
    WritePartial { file_name: String, bytes: Vec<u8> },
    /// Rename `from` to `to` in the cache directory, replacing `to`.
    Publish { from: String, to: String },
    /// The artifact is complete under `file_name`.
    Ready { file_name: String },
    /// The fetch failed.
    Fail(ModelError),
}

/// An action that goes to the network.
pub open spec fn is_network(a: FetchAction) -> bool {
    a is RequestUrl || a is Download
}

/// One model fetch: which model, for which user, and where it stands.
#[derive(Debug)]
pub struct ModelFetch {
    pub model_id: String,
    pub user: String,
    pub stage: FetchStage,
}

/// `a` fails with an error of the given kind, and `m` has failed.
pub open spec fn fails_with(m: ModelFetch, a: FetchAction, pred: spec_fn(ModelError) -> bool) -> bool {
    &&& m.stage == FetchStage::Failed
    &&& a is Fail
    &&& pred(a->Fail_0)
}

/// What one `step` does: `m` with event `e` becomes `m2` and asks for `a`.
pub open spec fn fetch_step(m: ModelFetch, e: FetchEvent, m2: ModelFetch, a: FetchAction) -> bool {
    &&& m2.model_id == m.model_id
    &&& m2.user == m.user
    &&& match (m.stage, e) {
        (FetchStage::CheckCache, FetchEvent::CacheChecked(true)) => {
            &&& m2.stage == FetchStage::Ready
            &&& a matches FetchAction::Ready { file_name } && file_name@ == model_file(m.model_id@)
        },
        (FetchStage::CheckCache, FetchEvent::CacheChecked(false)) => {
            &&& m2.stage == FetchStage::AwaitToken
            &&& a matches FetchAction::LookupToken { user } && user@ == trimmed(m.user@)
        },
        (FetchStage::AwaitToken, FetchEvent::Token(Ok(token))) => {
            &&& m2.stage == FetchStage::AwaitUrl
            &&& a matches FetchAction::RequestUrl { token: t, body }
                && t == token && body@ == request_json(m.model_id@)
        },
        (FetchStage::AwaitToken, FetchEvent::Token(Err(detail))) =>
            fails_with(m2, a, |err: ModelError| err == ModelError::Auth(detail)),
        (FetchStage::AwaitUrl, FetchEvent::RegistryReplied { status, body }) =>
            if status == STATUS_UNAUTHORIZED {
                fails_with(m2, a, |err: ModelError| err matches ModelError::Auth(d) && d@ == INVALID_TOKEN@)
            } else if !is_success(status) {
                fails_with(
                    m2,
                    a,
                    |err: ModelError| err matches ModelError::Network(d) && d@ == REGISTRY_REQUEST_FAILED@,
                )
            } else {
                match json_url_member(body@) {
                    Some(u) => {
                        &&& m2.stage == FetchStage::AwaitDownload
                        &&& a matches FetchAction::Download { url } && url@ == u
                    },
                    None => fails_with(
                        m2,
                        a,
                        |err: ModelError| err matches ModelError::Network(d) && d@ == INVALID_URL_RESPONSE@,
                    ),
                }
            },
        (FetchStage::AwaitUrl, FetchEvent::TransportFailed(detail)) =>
            fails_with(m2, a, |err: ModelError| err == ModelError::Network(detail)),
        (FetchStage::AwaitDownload, FetchEvent::TransportFailed(detail)) =>
            fails_with(m2, a, |err: ModelError| err == ModelError::Network(detail)),
        (FetchStage::AwaitDownload, FetchEvent::Downloaded { status, body }) =>
            if is_success(status) {
                &&& m2.stage == FetchStage::AwaitWrite
                &&& a matches FetchAction::WritePartial { file_name, bytes }
                    && file_name@ == partial_file(m.model_id@) && bytes == body
            } else {
                fails_with(m2, a, |err: ModelError| err matches ModelError::Network(d) && d@ == DOWNLOAD_FAILED@)
            },
        (FetchStage::AwaitWrite, FetchEvent::FileDone(Ok(()))) => {
            &&& m2.stage == FetchStage::AwaitPublish
            &&& a matches FetchAction::Publish { from, to }
                && from@ == partial_file(m.model_id@) && to@ == model_file(m.model_id@)
        },
        (FetchStage::AwaitWrite, FetchEvent::FileDone(Err(detail))) =>
            fails_with(m2, a, |err: ModelError| err == ModelError::FileSystem(detail)),
        (FetchStage::AwaitPublish, FetchEvent::FileDone(Ok(()))) => {
            &&& m2.stage == FetchStage::Ready
            &&& a matches FetchAction::Ready { file_name } && file_name@ == model_file(m.model_id@)
        },
        (FetchStage::AwaitPublish, FetchEvent::FileDone(Err(detail))) =>
            fails_with(m2, a, |err: ModelError| err == ModelError::FileSystem(detail)),
        (FetchStage::Ready, _) => {
            &&& m2.stage == FetchStage::Ready
            &&& a matches FetchAction::Ready { file_name } && file_name@ == model_file(m.model_id@)
        },
        _ => fails_with(m2, a, |err: ModelError| err is Processing),
    }
}

impl ModelFetch {
    /// Starts ensuring that `model_id` is cached, on behalf of `user`: the
    /// first action checks the cache.
    pub fn new(model_id: String, user: String) -> (r: (ModelFetch, FetchAction))
        requires
            model_id@.len() > 0,
        ensures
            r.0.model_id == model_id,
            r.0.user == user,
            r.0.stage == FetchStage::CheckCache,
            r.1 matches FetchAction::CheckCache { file_name } && file_name@ == model_file(model_id@),
    {
        let file_name = model_file_name(model_id.as_str());
        (ModelFetch { model_id, user, stage: FetchStage::CheckCache }, FetchAction::CheckCache { file_name })
    }

    fn fail(&mut self, err: ModelError) -> (a: FetchAction)
        ensures
            final(self).model_id == old(self).model_id,
            final(self).user == old(self).user,
            final(self).stage == FetchStage::Failed,
            a == FetchAction::Fail(err),
    {
        self.stage = FetchStage::Failed;
        FetchAction::Fail(err)
    }

    /// Takes what the last action produced and returns the next action.
    pub fn step(&mut self, event: FetchEvent) -> (a: FetchAction)
        ensures
            fetch_step(*old(self), event, *final(self), a),
    {
        match (self.stage, event) {
            (FetchStage::CheckCache, FetchEvent::CacheChecked(present)) => {
                if present {
                    self.stage = FetchStage::Ready;
                    FetchAction::Ready { file_name: model_file_name(self.model_id.as_str()) }
                } else {
                    self.stage = FetchStage::AwaitToken;
                    FetchAction::LookupToken { user: trim(self.user.as_str()) }
                }
            },
            (FetchStage::AwaitToken, FetchEvent::Token(Ok(token))) => {
                let body = encode_request(self.model_id.as_str());
                self.stage = FetchStage::AwaitUrl;
                FetchAction::RequestUrl { token, body }
            },
            (FetchStage::AwaitToken, FetchEvent::Token(Err(detail))) => self.fail(ModelError::Auth(detail)),
            (FetchStage::AwaitUrl, FetchEvent::RegistryReplied { status, body }) => {
                match url_from_reply(status, &body) {
                    Ok(url) => {
                        self.stage = FetchStage::AwaitDownload;
                        FetchAction::Download { url }
                    },
                    Err(err) => self.fail(err),
                }
            },
            (FetchStage::AwaitUrl, FetchEvent::TransportFailed(detail)) => self.fail(ModelError::Network(detail)),
            (FetchStage::AwaitDownload, FetchEvent::TransportFailed(detail)) => self.fail(ModelError::Network(detail)),
            (FetchStage::AwaitDownload, FetchEvent::Downloaded { status, body }) => {
                if 200 <= status && status < 300 {
                    self.stage = FetchStage::AwaitWrite;
                    FetchAction::WritePartial { file_name: partial_file_name(self.model_id.as_str()), bytes: body }
                } else {
                    self.fail(ModelError::Network(String::from_str(DOWNLOAD_FAILED)))
                }
            },
            (FetchStage::AwaitWrite, FetchEvent::FileDone(Ok(()))) => {
                self.stage = FetchStage::AwaitPublish;
                FetchAction::Publish {
                    from: partial_file_name(self.model_id.as_str()),
                    to: model_file_name(self.model_id.as_str()),
                }
            },
            (FetchStage::AwaitWrite, FetchEvent::FileDone(Err(detail))) => self.fail(ModelError::FileSystem(detail)),
            (FetchStage::AwaitPublish, FetchEvent::FileDone(Ok(()))) => {
                self.stage = FetchStage::Ready;
                FetchAction::Ready { file_name: model_file_name(self.model_id.as_str()) }
            },
            (FetchStage::AwaitPublish, FetchEvent::FileDone(Err(detail))) => self.fail(ModelError::FileSystem(detail)),
            (FetchStage::Ready, _) => FetchAction::Ready { file_name: model_file_name(self.model_id.as_str()) },
            _ => self.fail(ModelError::Processing(String::from_str("event does not fit the fetch stage"))),
        }
    }
}

/// A cache hit finishes the fetch at once: the next action is `Ready` with the
/// cached artifact, and nothing goes to the network.
pub proof fn lemma_cache_hit_is_offline(m: ModelFetch, m2: ModelFetch, a: FetchAction)
    requires
        m.stage == FetchStage::CheckCache,
        fetch_step(m, FetchEvent::CacheChecked(true), m2, a),
    ensures
        m2.stage == FetchStage::Ready,
        a matches FetchAction::Ready { file_name } && file_name@ == model_file(m.model_id@),
        !is_network(a),
{
}

/// Once ready, a fetch stays ready and never goes to the network again,
/// whatever event it is given.
pub proof fn lemma_ready_stays_offline(m: ModelFetch, e: FetchEvent, m2: ModelFetch, a: FetchAction)
    requires
        m.stage == FetchStage::Ready,
        fetch_step(m, e, m2, a),
    ensures
        m2.stage == FetchStage::Ready,
        a is Ready,
        !is_network(a),
{
}

/// A fetch reports `Ready` for the first time only after the cache check
/// found the artifact, or after the complete download was renamed to its final
/// name.
pub proof fn lemma_ready_only_for_complete_artifact(m: ModelFetch, e: FetchEvent, m2: ModelFetch, a: FetchAction)
    requires
        m.stage != FetchStage::Ready,
        fetch_step(m, e, m2, a),
        a is Ready,
    ensures
        (m.stage == FetchStage::CheckCache && e == FetchEvent::CacheChecked(true))
            || (m.stage == FetchStage::AwaitPublish && e is FileDone && e->FileDone_0 is Ok),
{
}

/// The final name is only ever written by renaming a download whose write
/// finished, so a failed fetch leaves nothing under it.
pub proof fn lemma_publish_follows_complete_write(m: ModelFetch, e: FetchEvent, m2: ModelFetch, a: FetchAction)
    requires
        fetch_step(m, e, m2, a),
        a is Publish,
    ensures
        m.stage == FetchStage::AwaitWrite,
        e is FileDone && e->FileDone_0 is Ok,
        a->Publish_from@ == partial_file(m.model_id@),
        a->Publish_to@ == model_file(m.model_id@),
{
}

/// On a cold cache, a found token, a registry reply that grants a URL, a
/// successful download of `bytes` and two finished file operations bring the
/// fetch to `Ready`: the bytes are written under the partial name, renamed to
/// the final name, and that name is reported.
pub proof fn lemma_cold_cache_fetch_ends_ready(
    m0: ModelFetch,
    token: String,
    status: u16,
    body: Vec<u8>,
    dl_status: u16,
    bytes: Vec<u8>,
    m1: ModelFetch, a1: FetchAction,
    m2: ModelFetch, a2: FetchAction,
    m3: ModelFetch, a3: FetchAction,
    m4: ModelFetch, a4: FetchAction,
    m5: ModelFetch, a5: FetchAction,
    m6: ModelFetch, a6: FetchAction,
)
    requires
        m0.stage == FetchStage::CheckCache,
        is_success(status),
        json_url_member(body@) is Some,
        is_success(dl_status),
        fetch_step(m0, FetchEvent::CacheChecked(false), m1, a1),
        fetch_step(m1, FetchEvent::Token(Ok(token)), m2, a2),
        fetch_step(m2, FetchEvent::RegistryReplied { status, body }, m3, a3),
        fetch_step(m3, FetchEvent::Downloaded { status: dl_status, body: bytes }, m4, a4),
        fetch_step(m4, FetchEvent::FileDone(Ok(())), m5, a5),
        fetch_step(m5, FetchEvent::FileDone(Ok(())), m6, a6),
    ensures
        a2 matches FetchAction::RequestUrl { token: t, body: b } && t == token && b@ == request_json(m0.model_id@),
        a3 matches FetchAction::Download { url } && url@ == json_url_member(body@)->Some_0,
        a4 matches FetchAction::WritePartial { file_name, bytes: w }
            && file_name@ == partial_file(m0.model_id@) && w == bytes,
        a5 matches FetchAction::Publish { from, to }
            && from@ == partial_file(m0.model_id@) && to@ == model_file(m0.model_id@),
        m6.stage == FetchStage::Ready,
        a6 matches FetchAction::Ready { file_name } && file_name@ == model_file(m0.model_id@),
{
}

/// A registry reply of 401 fails the fetch with `Auth("Invalid token")`, and
/// no download follows.
pub proof fn lemma_unauthorized_reply(m: ModelFetch, body: Vec<u8>, m2: ModelFetch, a: FetchAction)
    requires
        m.stage == FetchStage::AwaitUrl,
        fetch_step(m, FetchEvent::RegistryReplied { status: STATUS_UNAUTHORIZED, body }, m2, a),
    ensures
        m2.stage == FetchStage::Failed,
        a matches FetchAction::Fail(ModelError::Auth(d)) && d@ == INVALID_TOKEN@,
        !is_network(a),
{
}

} // verus!
