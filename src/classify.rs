//! Classification of a batch of images.
//!
//! `BatchSession` holds the decisions of one request; the caller performs the
//! outside work that each action names (ensuring and loading the model,
//! running inference, querying the template store) and hands back what it
//! produced. Images are handled one at a time, in input order. Template rows
//! are fetched once per distinct label, when that label is first predicted.
//! Any failure aborts the whole batch.
use vstd::prelude::*;
use vstd::seq_lib::lemma_seq_contains_after_push;

use crate::error::ModelError;
use crate::labels::{clamp_unit, is_first_max, is_nan, is_unit, label_at, select_label};
use crate::preprocess::{
    default_label_views, dim_or, dims_supported, prepare, prepared, InputTensor, ModelConfig,
    DEFAULT_CHANNELS, DEFAULT_SIDE,
};

verus! {

/// One image of a request.
#[derive(Debug)]
pub struct ImageData {
    pub filename: String,
    pub extension: String,
    /// The encoded image.
    pub data: Vec<u8>,
}

/// What one image was classified as.
#[derive(Debug)]
pub struct ImageResult {
    pub filename: String,
    /// The predicted label.
    pub image_type: String,
    /// Confidence in `[0.0, 1.0]`, as the bit pattern of a 32-bit float.
    pub confidence_bits: u32,
}

/// One template finding of the template store.
#[derive(Debug)]
pub struct StatementResponse {
    pub indication: String,
    pub statement: String,
    pub assessment: String,
}

/// The answer to a request.
#[derive(Debug)]
pub struct AnalysisResponse {
    /// One result per image, in input order.
    pub results: Vec<ImageResult>,
    /// The template rows of each distinct label, in first-seen label order.
    pub statements: Vec<StatementResponse>,
}

/// Where a session stands.
#[derive(PartialEq, Eq, Structural, Clone, Copy, Debug)]
pub enum BatchStage {
    AwaitModel,
    AwaitScores,
    AwaitTemplates,
    Done,
    Failed,
}

/// What the caller's last action produced.
#[derive(Debug)]
pub enum BatchEvent {
    /// The model is cached and loaded; its declared input dimensions, with
    /// `None` for one that it leaves open.
    ModelLoaded(Vec<Option<usize>>),
    /// The model's output for the tensor of the last `Infer`, as the bit
    /// patterns of its 32-bit float scores.
    Scores(Vec<u32>),
    /// The template rows for the label of the last `FetchTemplates`.
    Templates(Vec<StatementResponse>),
    /// The outside work failed.
    Failed(ModelError),
}

/// What the caller is to do next.
#[derive(Debug)]
pub enum BatchAction {
    /// Ensure the model artifact is cached, load it, and report its input
    /// dimensions.
    LoadModel,
    /// Run the model on the tensor of image `index`.
    Infer { index: usize, tensor: InputTensor },
    /// Query the template rows for `label`, ordered by indication.
    FetchTemplates { label: String },
    /// Every image is classified: take the response with `into_response`.
    Respond,
    /// The request failed as a whole.
    Abort(ModelError),
}

/// The labels of a list of results.
pub open spec fn labels_of(results: Seq<ImageResult>) -> Seq<Seq<char>> {
    results.map_values(|r: ImageResult| r.image_type@)
}

/// The views of a list of strings.
pub open spec fn views(s: Seq<String>) -> Seq<Seq<char>> {
    s.map_values(|x: String| x@)
}

/// The distinct elements of `labels`, in the order in which each first occurs.
pub open spec fn first_seen(labels: Seq<Seq<char>>) -> Seq<Seq<char>>
    decreases labels.len(),
{
    if labels.len() == 0 {
        Seq::empty()
    } else {
        let prev = first_seen(labels.drop_last());
        if prev.contains(labels.last()) {
            prev
        } else {
            prev.push(labels.last())
        }
    }
}

/// The blocks, one after the other.
pub open spec fn concat_blocks(blocks: Seq<Seq<StatementResponse>>) -> Seq<StatementResponse>
    decreases blocks.len(),
{
    if blocks.len() == 0 {
        Seq::empty()
    } else {
        concat_blocks(blocks.drop_last()) + blocks.last()
    }
}

/// The state of one classification request.
pub struct BatchSession {
    /// The request's images, in input order.
    pub images: Vec<ImageData>,
    /// Set once the model is loaded.
    pub config: Option<ModelConfig>,
    pub stage: BatchStage,
    /// Index of the image being classified.
    pub next: usize,
    /// Results of the images classified so far.
    pub results: Vec<ImageResult>,
    /// Labels whose templates were asked for, in first-seen order.
    pub seen: Vec<String>,
    /// Template rows gathered so far.
    pub statements: Vec<StatementResponse>,
    /// The template rows received for each label of `seen`, in order.
    pub fetched: Ghost<Seq<Seq<StatementResponse>>>,
}

impl BatchSession {
    /// Results and template rows agree with the images and with each other.
    pub open spec fn consistent(&self) -> bool {
        let n = self.images@.len();
        &&& self.next <= n
        &&& self.results@.len() <= n
        &&& forall|i: int| 0 <= i < self.results@.len() ==> {
            &&& (#[trigger] self.results@[i]).filename@ == self.images@[i].filename@
            &&& is_unit(self.results@[i].confidence_bits)
        }
        &&& self.statements@ == concat_blocks(self.fetched@)
        &&& views(self.seen@) == first_seen(labels_of(self.results@))
    }

    /// The session's invariant: consistent, and what each stage requires.
    pub open spec fn wf(&self) -> bool {
        let n = self.images@.len();
        &&& self.consistent()
        &&& match self.stage {
            BatchStage::AwaitModel => {
                &&& self.next == 0
                &&& self.results@.len() == 0
                &&& self.seen@.len() == 0
                &&& self.fetched@.len() == 0
            },
            BatchStage::AwaitScores => {
                &&& self.config matches Some(c) && c.wf()
                &&& self.next < n
                &&& self.results@.len() == self.next
                &&& self.fetched@.len() == self.seen@.len()
            },
            BatchStage::AwaitTemplates => {
                &&& self.config matches Some(c) && c.wf()
                &&& self.next < n
                &&& self.results@.len() == self.next + 1
                &&& self.fetched@.len() + 1 == self.seen@.len()
            },
            BatchStage::Done => {
                &&& self.next == n
                &&& self.results@.len() == n
                &&& self.fetched@.len() == self.seen@.len()
            },
            BatchStage::Failed => true,
        }
    }
}

/// `s2` has moved on to image `s2.next`: it responds once every image is
/// done, and otherwise asks for inference on the next image's tensor, or
/// aborts with an `Image` error where that image does not decode.
pub open spec fn advanced(s2: BatchSession, a: BatchAction) -> bool {
    if s2.next == s2.images@.len() {
        s2.stage == BatchStage::Done && a is Respond
    } else {
        match prepared(s2.images@[s2.next as int].data@, s2.config->Some_0) {
            Some(v) => {
                &&& s2.stage == BatchStage::AwaitScores
                &&& a matches BatchAction::Infer { index, tensor } && index == s2.next && tensor.values@ == v
            },
            None => s2.stage == BatchStage::Failed && (a matches BatchAction::Abort(err) && err is Image),
        }
    }
}

/// The session has failed, with an error that meets `pred`.
pub open spec fn aborted(s2: BatchSession, a: BatchAction, pred: spec_fn(ModelError) -> bool) -> bool {
    &&& s2.stage == BatchStage::Failed
    &&& a is Abort
    &&& pred(a->Abort_0)
}

/// Some output with the given scores; every score is a number.
pub open spec fn scores_usable(scores: Seq<u32>) -> bool {
    scores.len() > 0 && forall|j: int| 0 <= j < scores.len() ==> !is_nan(#[trigger] scores[j])
}

/// What one `step` does: `s` with event `e` becomes `s2` and asks for `a`.
pub open spec fn batch_step(s: BatchSession, e: BatchEvent, s2: BatchSession, a: BatchAction) -> bool {
    &&& s2.images == s.images
    &&& match (s.stage, e) {
        (BatchStage::AwaitModel, BatchEvent::ModelLoaded(dims)) =>
            if dims@.len() >= 4 && dims_supported(dims@) {
                &&& s2.config matches Some(c) && {
                    &&& c.channels == dim_or(dims@[1], DEFAULT_CHANNELS)
                    &&& c.input_height == dim_or(dims@[2], DEFAULT_SIDE)
                    &&& c.input_width == dim_or(dims@[3], DEFAULT_SIDE)
                    &&& views(c.class_mapping@) == default_label_views()
                }
                &&& s2.next == 0
                &&& s2.results@.len() == 0
                &&& s2.seen@.len() == 0
                &&& s2.statements@.len() == 0
                &&& s2.fetched@.len() == 0
                &&& advanced(s2, a)
            } else {
                aborted(s2, a, |err: ModelError| err is Processing)
            },
        (BatchStage::AwaitScores, BatchEvent::Scores(scores)) =>
            if !scores_usable(scores@) {
                aborted(s2, a, |err: ModelError| err is Processing)
            } else {
                let label = s2.results@.last().image_type@;
                &&& s2.config == s.config
                &&& s2.results@.drop_last() == s.results@
                &&& s2.results@.len() == s.results@.len() + 1
                &&& s2.results@.last().filename@ == s.images@[s.next as int].filename@
                &&& exists|i: int| {
                    &&& is_first_max(scores@, i)
                    &&& label == label_at(s.config->Some_0.class_mapping@, i)
                    &&& s2.results@.last().confidence_bits == clamp_unit(#[trigger] scores@[i])
                }
                &&& s2.statements@ == s.statements@
                &&& s2.fetched@ == s.fetched@
                &&& if views(s.seen@).contains(label) {
                    &&& s2.seen@ == s.seen@
                    &&& s2.next == s.next + 1
                    &&& advanced(s2, a)
                } else {
                    &&& views(s2.seen@) == views(s.seen@).push(label)
                    &&& s2.next == s.next
                    &&& s2.stage == BatchStage::AwaitTemplates
                    &&& a matches BatchAction::FetchTemplates { label: l } && l@ == label
                }
            },
        (BatchStage::AwaitTemplates, BatchEvent::Templates(rows)) => {
            &&& s2.config == s.config
            &&& s2.results@ == s.results@
            &&& s2.seen@ == s.seen@
            &&& s2.statements@ == s.statements@ + rows@
            &&& s2.fetched@ == s.fetched@.push(rows@)
            &&& s2.next == s.next + 1
            &&& advanced(s2, a)
        },
        (BatchStage::AwaitModel, BatchEvent::Failed(err)) => aborted(s2, a, |x: ModelError| x == err),
        (BatchStage::AwaitScores, BatchEvent::Failed(err)) => aborted(s2, a, |x: ModelError| x == err),
        (BatchStage::AwaitTemplates, BatchEvent::Failed(err)) => aborted(s2, a, |x: ModelError| x == err),
        _ => aborted(s2, a, |err: ModelError| err is Processing),
    }
}

/// Whether `label` is among `seen`.
fn contains_label(seen: &Vec<String>, label: &String) -> (r: bool)
    ensures
        r == views(seen@).contains(label@),
{
    let mut k: usize = 0;
    while k < seen.len()
        invariant
            k <= seen@.len(),
            forall|j: int| 0 <= j < k ==> (#[trigger] seen@[j])@ != label@,
        decreases seen@.len() - k,
    {
        if seen[k] == *label {
            assert(views(seen@)[k as int] == label@);
            return true;
        }
        k = k + 1;
    }
    assert(!views(seen@).contains(label@)) by {
        if views(seen@).contains(label@) {
            let j = choose|j: int| 0 <= j < views(seen@).len() && views(seen@)[j] == label@;
            assert(seen@[j]@ == label@);
        }
    }
    false
}

impl BatchSession {
    /// Starts a request over `images`: the first action loads the model.
    pub fn new(images: Vec<ImageData>) -> (r: (BatchSession, BatchAction))
        ensures
            r.0.wf(),
            r.0.images == images,
            r.0.stage == BatchStage::AwaitModel,
            r.1 is LoadModel,
    {
        let s = BatchSession {
            images,
            config: None,
            stage: BatchStage::AwaitModel,
            next: 0,
            results: Vec::new(),
            seen: Vec::new(),
            statements: Vec::new(),
            fetched: Ghost(Seq::empty()),
        };
        assert(views(s.seen@) =~= first_seen(labels_of(s.results@)));
        (s, BatchAction::LoadModel)
    }

    fn abort(&mut self, err: ModelError) -> (a: BatchAction)
        requires
            old(self).consistent(),
        ensures
            final(self).wf(),
            final(self).images == old(self).images,
            final(self).stage == BatchStage::Failed,
            a == BatchAction::Abort(err),
    {
        self.stage = BatchStage::Failed;
        BatchAction::Abort(err)
    }

    fn advance(&mut self) -> (a: BatchAction)
        requires
            old(self).consistent(),
            old(self).config matches Some(c) && c.wf(),
            old(self).results@.len() == old(self).next,
            old(self).fetched@.len() == old(self).seen@.len(),
        ensures
            final(self).wf(),
            final(self).images == old(self).images,
            final(self).config == old(self).config,
            final(self).next == old(self).next,
            final(self).results == old(self).results,
            final(self).seen == old(self).seen,
            final(self).statements == old(self).statements,
            final(self).fetched == old(self).fetched,
            advanced(*final(self), a),
    {
        if self.next == self.images.len() {
            self.stage = BatchStage::Done;
            return BatchAction::Respond;
        }
        let prepared = match &self.config {
            Some(c) => prepare(&self.images[self.next].data, c),
            None => Err(ModelError::Processing(String::from_str("model is not loaded"))),
        };
        match prepared {
            Ok(tensor) => {
                self.stage = BatchStage::AwaitScores;
                BatchAction::Infer { index: self.next, tensor }
            },
            Err(err) => {
                self.stage = BatchStage::Failed;
                BatchAction::Abort(err)
            },
        }
    }

    /// Takes what the last action produced and returns the next action.
    pub fn step(&mut self, event: BatchEvent) -> (a: BatchAction)
        requires
            old(self).wf(),
        ensures
            final(self).wf(),
            batch_step(*old(self), event, *final(self), a),
    {
        match event {
            BatchEvent::ModelLoaded(dims) => {
                if self.stage != BatchStage::AwaitModel {
                    return self.abort(ModelError::Processing(String::from_str("model loaded out of turn")));
                }
                match ModelConfig::from_input_dims(&dims) {
                    Ok(c) => {
                        self.config = Some(c);
                        self.advance()
                    },
                    Err(err) => self.abort(err),
                }
            },
            BatchEvent::Scores(scores) => {
                if self.stage != BatchStage::AwaitScores {
                    return self.abort(ModelError::Processing(String::from_str("scores arrived unasked")));
                }
                let picked = match &self.config {
                    Some(c) => select_label(&scores, &c.class_mapping),
                    None => Err(ModelError::Processing(String::from_str("model is not loaded"))),
                };
                let pred = match picked {
                    Ok(p) => p,
                    Err(err) => return self.abort(err),
                };
                assert(is_first_max(scores@, pred.index as int));
                let label_seen = contains_label(&self.seen, &pred.label);
                let ghost old_results = self.results@;
                let ghost old_seen = self.seen@;
                let filename = self.images[self.next].filename.clone();
                self.results.push(
                    ImageResult { filename, image_type: pred.label.clone(), confidence_bits: pred.confidence_bits },
                );
                proof {
                    assert(labels_of(self.results@) =~= labels_of(old_results).push(pred.label@));
                    assert(labels_of(self.results@).drop_last() =~= labels_of(old_results));
                    assert(self.results@.drop_last() =~= old_results);
                }
                if label_seen {
                    assert(self.next < self.images.len());
                    self.next = self.next + 1;
                    self.advance()
                } else {
                    self.seen.push(pred.label.clone());
                    proof {
                        assert(views(self.seen@) =~= views(old_seen).push(pred.label@));
                    }
                    self.stage = BatchStage::AwaitTemplates;
                    BatchAction::FetchTemplates { label: pred.label }
                }
            },
            BatchEvent::Templates(rows) => {
                if self.stage != BatchStage::AwaitTemplates {
                    return self.abort(ModelError::Processing(String::from_str("templates arrived unasked")));
                }
                let mut rows = rows;
                let ghost block = rows@;
                let ghost old_fetched = self.fetched@;
                self.statements.append(&mut rows);
                self.fetched = Ghost(self.fetched@.push(block));
                proof {
                    assert(self.fetched@.drop_last() =~= old_fetched);
                }
                assert(self.next < self.images.len());
                self.next = self.next + 1;
                self.advance()
            },
            BatchEvent::Failed(err) => {
                if self.stage == BatchStage::AwaitModel || self.stage == BatchStage::AwaitScores
                    || self.stage == BatchStage::AwaitTemplates {
                    self.abort(err)
                } else {
                    self.abort(ModelError::Processing(String::from_str("request is already over")))
                }
            },
        }
    }

    /// The response of a finished request.
    pub fn into_response(self) -> (r: AnalysisResponse)
        requires
            self.wf(),
            self.stage == BatchStage::Done,
        ensures
            r.results == self.results,
            r.statements == self.statements,
    {
        AnalysisResponse { results: self.results, statements: self.statements }
    }
}

/// `first_seen` keeps each label once, and keeps every label that occurs.
pub proof fn lemma_first_seen_distinct(labels: Seq<Seq<char>>)
    ensures
        first_seen(labels).no_duplicates(),
        forall|x: Seq<char>| first_seen(labels).contains(x) <==> labels.contains(x),
    decreases labels.len(),
{
    if labels.len() > 0 {
        let prev = labels.drop_last();
        let last = labels.last();
        lemma_first_seen_distinct(prev);
        assert(labels =~= prev.push(last));
        assert forall|x: Seq<char>| first_seen(labels).contains(x) <==> labels.contains(x) by {
            lemma_seq_contains_after_push(prev, last, x);
            lemma_seq_contains_after_push(first_seen(prev), last, x);
        }
    }
}

/// A finished request has one result per image, in input order, each with a
/// confidence in `[0.0, 1.0]`.
pub proof fn lemma_finished_batch_is_complete(s: BatchSession)
    requires
        s.wf(),
        s.stage == BatchStage::Done,
    ensures
        s.results@.len() == s.images@.len(),
        forall|i: int| 0 <= i < s.results@.len() ==> {
            &&& (#[trigger] s.results@[i]).filename@ == s.images@[i].filename@
            &&& is_unit(s.results@[i].confidence_bits)
        },
{
}

/// The statements of a finished request are one block of template rows per
/// distinct predicted label, in first-seen order: a label shared by several
/// images contributes its rows once.
pub proof fn lemma_one_block_per_label(s: BatchSession)
    requires
        s.wf(),
        s.stage == BatchStage::Done,
    ensures
        s.statements@ == concat_blocks(s.fetched@),
        s.fetched@.len() == s.seen@.len(),
        views(s.seen@).no_duplicates(),
        forall|x: Seq<char>| views(s.seen@).contains(x) <==> labels_of(s.results@).contains(x),
{
    lemma_first_seen_distinct(labels_of(s.results@));
}

/// Template rows are asked for only for a label that no earlier image had.
pub proof fn lemma_fetch_only_new_labels(s: BatchSession, e: BatchEvent, s2: BatchSession, a: BatchAction)
    requires
        s.wf(),
        batch_step(s, e, s2, a),
        a is FetchTemplates,
    ensures
        s.stage == BatchStage::AwaitScores,
        !views(s.seen@).contains(a->FetchTemplates_label@),
        views(s2.seen@) == views(s.seen@).push(a->FetchTemplates_label@),
{
}

/// An empty request, once the model is loaded, responds with no results and
/// no statements.
pub proof fn lemma_empty_batch(s: BatchSession, dims: Vec<Option<usize>>, s2: BatchSession, a: BatchAction)
    requires
        s.wf(),
        s.stage == BatchStage::AwaitModel,
        s.images@.len() == 0,
        dims@.len() >= 4,
        dims_supported(dims@),
        batch_step(s, BatchEvent::ModelLoaded(dims), s2, a),
    ensures
        a is Respond,
        s2.stage == BatchStage::Done,
        s2.results@.len() == 0,
        s2.statements@.len() == 0,
{
}

/// A failure while the model is being made ready aborts the request with that
/// same error, before any image is processed.
pub proof fn lemma_model_failure_aborts_first(s: BatchSession, err: ModelError, s2: BatchSession, a: BatchAction)
    requires
        s.wf(),
        s.stage == BatchStage::AwaitModel,
        batch_step(s, BatchEvent::Failed(err), s2, a),
    ensures
        a == BatchAction::Abort(err),
        s2.stage == BatchStage::Failed,
        s.results@.len() == 0,
{
}

/// `r` is image `img` classified from the model output `scores` under the
/// label list `labels`: same file name, the label of the first largest score,
/// and that score clamped into `[0.0, 1.0]`.
pub open spec fn classified(r: ImageResult, img: ImageData, labels: Seq<String>, scores: Seq<u32>) -> bool {
    &&& r.filename@ == img.filename@
    &&& exists|k: int| {
        &&& is_first_max(scores, k)
        &&& r.image_type@ == label_at(labels, k)
        &&& r.confidence_bits == clamp_unit(#[trigger] scores[k])
    }
}

/// `e` is the answer to `a` from a model that declares `dims`, an engine that
/// outputs `outputs[i]` for image `i`, and a template store that holds
/// `store(label)` for each label.
pub open spec fn answers(
    a: BatchAction,
    e: BatchEvent,
    dims: Seq<Option<usize>>,
    outputs: Seq<Seq<u32>>,
    store: spec_fn(Seq<char>) -> Seq<StatementResponse>,
) -> bool {
    match a {
        BatchAction::LoadModel => e matches BatchEvent::ModelLoaded(d) && d@ == dims,
        BatchAction::Infer { index, .. } => e matches BatchEvent::Scores(v) && v@ == outputs[index as int],
        BatchAction::FetchTemplates { label } => e matches BatchEvent::Templates(rows) && rows@ == store(label@),
        _ => false,
    }
}

/// A run of a request: `states[0]` is a new session asking for the model;
/// each event answers the action before it and `step` takes `states[k]` to
/// `states[k + 1]`, asking for `actions[k + 1]`.
pub open spec fn valid_run(
    states: Seq<BatchSession>,
    events: Seq<BatchEvent>,
    actions: Seq<BatchAction>,
    dims: Seq<Option<usize>>,
    outputs: Seq<Seq<u32>>,
    store: spec_fn(Seq<char>) -> Seq<StatementResponse>,
) -> bool {
    &&& states.len() == events.len() + 1
    &&& actions.len() == events.len() + 1
    &&& states[0].stage == BatchStage::AwaitModel
    &&& actions[0] is LoadModel
    &&& forall|k: int| 0 <= k < states.len() ==> (#[trigger] states[k]).wf()
    &&& forall|k: int|
        #![trigger events[k]]
        0 <= k < events.len() ==> {
            &&& batch_step(states[k], events[k], states[k + 1], actions[k + 1])
            &&& answers(actions[k], events[k], dims, outputs, store)
        }
}

/// What holds at each state of a run that ends in `Respond`.
pub open spec fn run_inv(
    s: BatchSession,
    a: BatchAction,
    s0: BatchSession,
    outputs: Seq<Seq<u32>>,
    store: spec_fn(Seq<char>) -> Seq<StatementResponse>,
) -> bool {
    &&& s.wf()
    &&& s.images == s0.images
    &&& s.stage != BatchStage::Failed
    &&& s.stage == BatchStage::AwaitModel ==> a is LoadModel
    &&& s.stage == BatchStage::AwaitScores ==> (a matches BatchAction::Infer { index, .. } && index == s.next)
    &&& s.stage == BatchStage::AwaitTemplates
        ==> (a matches BatchAction::FetchTemplates { label } && label@ == views(s.seen@).last())
    &&& s.stage == BatchStage::Done ==> a is Respond
    &&& s.stage != BatchStage::AwaitModel
        ==> (s.config is Some && views(s.config->Some_0.class_mapping@) == default_label_views())
    &&& forall|i: int|
        0 <= i < s.results@.len() ==> classified(
            #[trigger] s.results@[i],
            s.images@[i],
            s.config->Some_0.class_mapping@,
            outputs[i],
        )
    &&& forall|j: int| 0 <= j < s.fetched@.len() ==> #[trigger] s.fetched@[j] == store(views(s.seen@)[j])
}

proof fn lemma_run_inv(
    states: Seq<BatchSession>,
    events: Seq<BatchEvent>,
    actions: Seq<BatchAction>,
    dims: Seq<Option<usize>>,
    outputs: Seq<Seq<u32>>,
    store: spec_fn(Seq<char>) -> Seq<StatementResponse>,
    k: int,
)
    requires
        valid_run(states, events, actions, dims, outputs, store),
        actions.last() is Respond,
        0 <= k < states.len(),
    ensures
        run_inv(states[k], actions[k], states[0], outputs, store),
    decreases k,
{
    let n = events.len() as int;
    assert(states[k].wf());
    if k == 0 {
        return;
    }
    let j = k - 1;
    lemma_run_inv(states, events, actions, dims, outputs, store, j);
    let s = states[j];
    let a = actions[j];
    let e = events[j];
    let s2 = states[k];
    let a2 = actions[k];
    assert(batch_step(s, e, s2, a2));
    assert(answers(a, e, dims, outputs, store));
    // the next action is answered, or it is the final `Respond`: never `Abort`
    if k < n {
        assert(answers(actions[k], events[k], dims, outputs, store));
    }
    assert(!(a2 is Abort));
    assert(s2.stage != BatchStage::Failed);
    match s.stage {
        BatchStage::AwaitModel => {},
        BatchStage::AwaitScores => {
            let v = e->Scores_0;
            assert(v@ == outputs[s.next as int]);
            assert forall|i: int| 0 <= i < s2.results@.len() implies classified(
                #[trigger] s2.results@[i],
                s2.images@[i],
                s2.config->Some_0.class_mapping@,
                outputs[i],
            ) by {
                if i < s.results@.len() {
                    assert(s2.results@[i] == s2.results@.drop_last()[i]);
                    assert(classified(s.results@[i], s.images@[i], s.config->Some_0.class_mapping@, outputs[i]));
                } else {
                    assert(i == s.next);
                }
            }
            assert forall|m: int| 0 <= m < s2.fetched@.len() implies #[trigger] s2.fetched@[m] == store(
                views(s2.seen@)[m],
            ) by {
                assert(s.fetched@[m] == store(views(s.seen@)[m]));
                if !views(s.seen@).contains(s2.results@.last().image_type@) {
                    assert(views(s2.seen@)[m] == views(s.seen@)[m]);
                }
            }
        },
        BatchStage::AwaitTemplates => {
            assert forall|m: int| 0 <= m < s2.fetched@.len() implies #[trigger] s2.fetched@[m] == store(
                views(s2.seen@)[m],
            ) by {
                if m < s.fetched@.len() {
                    assert(s.fetched@[m] == store(views(s.seen@)[m]));
                } else {
                    assert(m == s.seen@.len() - 1);
                }
            }
            assert forall|i: int| 0 <= i < s2.results@.len() implies classified(
                #[trigger] s2.results@[i],
                s2.images@[i],
                s2.config->Some_0.class_mapping@,
                outputs[i],
            ) by {
                assert(classified(s.results@[i], s.images@[i], s.config->Some_0.class_mapping@, outputs[i]));
            }
        },
        _ => {},
    }
}

/// A request whose run ends in `Respond`, where the model declares `dims`,
/// the engine outputs `outputs[i]` for image `i` and the template store holds
/// `store(label)` for each label, responds with one result per image in input
/// order, each image classified from its own output under the model's label
/// list, and with the template rows of each distinct predicted label exactly
/// once, in first-seen order.
pub proof fn lemma_run_response(
    states: Seq<BatchSession>,
    events: Seq<BatchEvent>,
    actions: Seq<BatchAction>,
    dims: Seq<Option<usize>>,
    outputs: Seq<Seq<u32>>,
    store: spec_fn(Seq<char>) -> Seq<StatementResponse>,
)
    requires
        valid_run(states, events, actions, dims, outputs, store),
        actions.last() is Respond,
    ensures
        states.last().stage == BatchStage::Done,
        states.last().results@.len() == states[0].images@.len(),
        views(states.last().config->Some_0.class_mapping@) == default_label_views(),
        forall|i: int| 0 <= i < states.last().results@.len() ==> classified(
            #[trigger] states.last().results@[i],
            states[0].images@[i],
            states.last().config->Some_0.class_mapping@,
            outputs[i],
        ),
        states.last().statements@ == concat_blocks(
            first_seen(labels_of(states.last().results@)).map_values(|l: Seq<char>| store(l)),
        ),
{
    let n = events.len() as int;
    lemma_run_inv(states, events, actions, dims, outputs, store, n);
    let s = states[n];
    assert(s == states.last());
    assert(s.fetched@ =~= views(s.seen@).map_values(|l: Seq<char>| store(l)));
}

} // verus!
