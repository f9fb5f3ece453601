//! Turning an encoded image into the input tensor that a model expects.
//!
//! A sample `p` in `0..=255` is normalised to `(p - 127.5) / 127.5`, which is
//! `(2p - 255) / 255`. The tensor holds the integer numerators `2p - 255`, in
//! `-255..=255`; the denominator is always [`SAMPLE_SCALE`]. The layout is
//! (batch 1, channels, height, width), row by row.
use vstd::prelude::*;
use vstd::arithmetic::div_mod::{lemma_mod_multiples_vanish, lemma_small_mod};

use crate::error::ModelError;

verus! {

/// Side used where a model leaves its input height or width open.
pub const DEFAULT_SIDE: usize = 28;

/// Channel count used where a model leaves it open.
pub const DEFAULT_CHANNELS: usize = 1;

/// Most samples per pixel that the decoder stores for a resized image (RGBA):
/// its buffer of `width * height` pixels must be addressable.
pub const DECODER_PIXEL_SAMPLES: usize = 4;

/// Denominator of every tensor value.
pub const SAMPLE_SCALE: i16 = 255;

/// What a model needs of its input and how its outputs are named.
#[derive(Debug)]
pub struct ModelConfig {
    pub input_height: usize,
    pub input_width: usize,
    pub channels: usize,
    /// Label of each output position, in order.
    pub class_mapping: Vec<String>,
}

impl ModelConfig {
    /// Sizes that the preprocessor can produce a tensor for.
    pub open spec fn wf(&self) -> bool {
        sizes_supported(self.channels as int, self.input_height as int, self.input_width as int)
    }

    /// Builds the configuration from a model's declared input dimensions
    /// (batch, channels, height, width); `None` is a dimension that the model
    /// leaves open, which takes the default.
    ///
    /// Fewer than four dimensions, a size of zero, or sizes that the machine
    /// cannot hold (see `sizes_supported`) are a `Processing` error.
    pub fn from_input_dims(dims: &Vec<Option<usize>>) -> (r: Result<ModelConfig, ModelError>)
        ensures
            r is Ok <==> dims@.len() >= 4 && dims_supported(dims@),
            r is Err ==> r->Err_0 is Processing,
            r matches Ok(c) ==> {
                &&& c.wf()
                &&& c.channels == dim_or(dims@[1], DEFAULT_CHANNELS)
                &&& c.input_height == dim_or(dims@[2], DEFAULT_SIDE)
                &&& c.input_width == dim_or(dims@[3], DEFAULT_SIDE)
                &&& c.class_mapping@.map_values(|s: String| s@) == default_label_views()
            },
    {
        if dims.len() < 4 {
            return Err(ModelError::Processing(String::from_str("model input must have four dimensions")));
        }
        let channels = dims[1].unwrap_or(DEFAULT_CHANNELS);
        let input_height = dims[2].unwrap_or(DEFAULT_SIDE);
        let input_width = dims[3].unwrap_or(DEFAULT_SIDE);
        if channels == 0 || input_height == 0 || input_width == 0 || input_height > u32::MAX as usize
            || input_width > u32::MAX as usize {
            return Err(ModelError::Processing(String::from_str("model input size is not supported")));
        }
        let plane = match input_height.checked_mul(input_width) {
            Some(p) => p,
            None => return Err(ModelError::Processing(String::from_str("model input size is not supported"))),
        };
        proof {
            assert(channels * (input_height * input_width) == channels * input_height * input_width)
                by (nonlinear_arith);
        }
        if plane.checked_mul(DECODER_PIXEL_SAMPLES).is_none() || channels.checked_mul(plane).is_none() {
            return Err(ModelError::Processing(String::from_str("model input size is not supported")));
        }
        Ok(ModelConfig { input_height, input_width, channels, class_mapping: default_labels() })
    }
}

/// A declared dimension, or `default` where it is left open.
pub open spec fn dim_or(d: Option<usize>, default: usize) -> usize {
    match d {
        Some(v) => v,
        None => default,
    }
}

/// Sizes the machine can hold: every size positive, each side within the
/// `u32` that the decoder takes, the decoder's buffer for the resized image
/// addressable, and the tensor's `channels * height * width` values too.
pub open spec fn sizes_supported(channels: int, height: int, width: int) -> bool {
    &&& 0 < channels
    &&& 0 < height <= u32::MAX
    &&& 0 < width <= u32::MAX
    &&& height * width * DECODER_PIXEL_SAMPLES <= usize::MAX
    &&& channels * height * width <= usize::MAX
}

/// The channel, height and width dimensions are sizes the machine can hold.
pub open spec fn dims_supported(dims: Seq<Option<usize>>) -> bool {
    sizes_supported(
        dim_or(dims[1], DEFAULT_CHANNELS) as int,
        dim_or(dims[2], DEFAULT_SIDE) as int,
        dim_or(dims[3], DEFAULT_SIDE) as int,
    )
}

/// The body-part labels of the classification model, by output position.
pub open spec fn default_label_views() -> Seq<Seq<char>> {
    seq![
        "abdomen"@, "angio"@, "breast"@, "thorax"@, "thorax"@, "hand"@, "head"@, "knee"@,
        "shoulder"@,
    ]
}

/// The body-part labels of the classification model, by output position.
pub fn default_labels() -> (r: Vec<String>)
    ensures
        r@.map_values(|s: String| s@) == default_label_views(),
{
    let r = vec![
        String::from_str("abdomen"),
        String::from_str("angio"),
        String::from_str("breast"),
        String::from_str("thorax"),
        String::from_str("thorax"),
        String::from_str("hand"),
        String::from_str("head"),
        String::from_str("knee"),
        String::from_str("shoulder"),
    ];
    assert(r@.map_values(|s: String| s@) =~= default_label_views());
    r
}

/// The luma samples, row by row, of `bytes` decoded as an image and resized to
/// `width` x `height`; `None` where `bytes` is not an image that can be decoded.
pub uninterp spec fn luma_resized(bytes: Seq<u8>, width: nat, height: nat) -> Option<Seq<u8>>;

/// Relies on `image::load_from_memory` to decode, on `DynamicImage::resize_exact`
/// with `FilterType::Lanczos3` to resample to exactly `width` x `height`
/// (aspect ratio not kept), and on `DynamicImage::to_luma8` for one 8-bit
/// intensity per pixel, stored row by row. `ImageBuffer::new` panics when the
/// resized image's sample count overflows `usize`, which `requires` rules out.
#[verifier::external_body]
fn decode_luma(bytes: &[u8], width: u32, height: u32) -> (r: Result<Vec<u8>, String>)
    requires
        0 < width,
        0 < height,
        width * height * DECODER_PIXEL_SAMPLES <= usize::MAX,
    ensures
        match luma_resized(bytes@, width as nat, height as nat) {
            Some(p) => r is Ok && r->Ok_0@ == p && p.len() == width * height,
            None => r is Err,
        },
{
    match image::load_from_memory(bytes) {
        Ok(img) => Ok(img.resize_exact(width, height, image::imageops::FilterType::Lanczos3).to_luma8().into_raw()),
        Err(e) => Err(e.to_string()),
    }
}

/// Numerator of the normalised sample `(p - 127.5) / 127.5`.
pub open spec fn normalized(p: u8) -> i16 {
    (2 * p - 255) as i16
}

/// Every sample of a plane, normalised.
pub open spec fn normalized_plane(luma: Seq<u8>) -> Seq<i16> {
    luma.map_values(|p: u8| normalized(p))
}

/// `n` copies of `plane`, one after the other.
pub open spec fn stacked(plane: Seq<i16>, n: nat) -> Seq<i16>
    decreases n,
{
    if n == 0 {
        Seq::empty()
    } else {
        stacked(plane, (n - 1) as nat) + plane
    }
}

/// The tensor values for a plane of luma samples: the normalised plane once
/// per channel.
pub open spec fn tensor_values(luma: Seq<u8>, channels: nat) -> Seq<i16> {
    stacked(normalized_plane(luma), channels)
}

/// What `prepare` produces for `bytes` under `config`, or `None` where the
/// bytes are not a decodable image.
pub open spec fn prepared(bytes: Seq<u8>, config: ModelConfig) -> Option<Seq<i16>> {
    match luma_resized(bytes, config.input_width as nat, config.input_height as nat) {
        Some(luma) => Some(tensor_values(luma, config.channels as nat)),
        None => None,
    }
}

/// A dense (1, channels, height, width) tensor of normalised samples, each
/// standing for `value / SAMPLE_SCALE`.
#[derive(Debug)]
pub struct InputTensor {
    pub channels: usize,
    pub height: usize,
    pub width: usize,
    pub values: Vec<i16>,
}

proof fn lemma_stacked_len(plane: Seq<i16>, n: nat)
    ensures
        stacked(plane, n).len() == n * plane.len(),
    decreases n,
{
    if n > 0 {
        let m = (n - 1) as nat;
        lemma_stacked_len(plane, m);
        assert(n * plane.len() == m * plane.len() + plane.len()) by (nonlinear_arith)
            requires n == m + 1;
        assert(stacked(plane, n) == stacked(plane, m) + plane);
    } else {
        assert(n * plane.len() == 0) by (nonlinear_arith)
            requires n == 0;
    }
}

/// Value at position `i` of `n` stacked copies: that of `plane` at `i` modulo
/// the plane's length, so the channel index does not change the sample.
pub proof fn lemma_stacked_index(plane: Seq<i16>, n: nat, i: int)
    requires
        plane.len() > 0,
        0 <= i < n * plane.len(),
    ensures
        stacked(plane, n)[i] == plane[i % (plane.len() as int)],
    decreases n,
{
    let len = plane.len() as int;
    assert(n > 0) by (nonlinear_arith)
        requires 0 <= i < n * len, len > 0;
    let m = (n - 1) as nat;
    lemma_stacked_len(plane, m);
    assert(n * len == m * len + len) by (nonlinear_arith)
        requires n == m + 1;
    if i < m * len {
        lemma_stacked_index(plane, m, i);
    } else {
        assert(i - m * len == i % len) by (nonlinear_arith)
            requires m * len <= i < m * len + len, len > 0;
    }
}

/// Position of element (0, `ch`, `y`, `x`) in a dense (1, channels, `height`,
/// `width`) tensor.
pub open spec fn tensor_pos(height: int, width: int, ch: int, y: int, x: int) -> int {
    ch * (height * width) + y * width + x
}

/// `values` is the (1, `channels`, `height`, `width`) tensor of the row-major
/// plane `luma`: every channel holds the normalised sample of pixel (x, y).
pub open spec fn laid_out(values: Seq<i16>, luma: Seq<u8>, channels: int, height: int, width: int) -> bool {
    &&& values.len() == channels * height * width
    &&& forall|ch: int, y: int, x: int|
        0 <= ch < channels && 0 <= y < height && 0 <= x < width
            ==> values[#[trigger] tensor_pos(height, width, ch, y, x)] == normalized(luma[y * width + x])
}

/// The tensor values of a `height` x `width` plane are laid out as
/// (1, channels, height, width), each element at its position.
pub proof fn lemma_tensor_layout(luma: Seq<u8>, channels: nat, height: int, width: int)
    requires
        0 < height,
        0 < width,
        luma.len() == height * width,
    ensures
        laid_out(tensor_values(luma, channels), luma, channels as int, height, width),
{
    let plane = normalized_plane(luma);
    let hw = height * width;
    lemma_stacked_len(plane, channels);
    assert(channels * hw == channels * height * width) by (nonlinear_arith)
        requires hw == height * width;
    assert forall|ch: int, y: int, x: int|
        0 <= ch < channels && 0 <= y < height && 0 <= x < width implies
        tensor_values(luma, channels)[#[trigger] tensor_pos(height, width, ch, y, x)]
            == normalized(luma[y * width + x]) by {
        let r = y * width + x;
        assert(0 <= r < hw) by (nonlinear_arith)
            requires 0 <= y < height, 0 <= x < width, r == y * width + x, hw == height * width;
        let i = ch * hw + r;
        assert(i < channels * hw) by (nonlinear_arith)
            requires 0 <= ch < channels, 0 <= r < hw, i == ch * hw + r;
        assert(0 <= i) by (nonlinear_arith)
            requires 0 <= ch, 0 <= r, hw > 0, i == ch * hw + r;
        lemma_stacked_index(plane, channels, i);
        lemma_mod_multiples_vanish(ch, r, hw);
        lemma_small_mod(r as nat, hw as nat);
        assert(i % hw == r);
        assert(tensor_pos(height, width, ch, y, x) == i);
    }
}

/// Lays out a plane of `height` x `width` luma samples as a tensor of
/// `channels` identical normalised planes.
///
/// A plane of another size breaks the decoder's guarantee and is a
/// `Processing` error.
pub fn pack_tensor(luma: &Vec<u8>, config: &ModelConfig) -> (r: Result<InputTensor, ModelError>)
    requires
        config.wf(),
    ensures
        r is Ok <==> luma@.len() == config.input_height * config.input_width,
        r is Err ==> r->Err_0 is Processing,
        r matches Ok(t) ==> {
            &&& t.values@ == tensor_values(luma@, config.channels as nat)
            &&& t.values@.len() == config.channels * config.input_height * config.input_width
            &&& t.channels == config.channels
            &&& t.height == config.input_height
            &&& t.width == config.input_width
        },
{
    proof {
        assert(config.input_height * config.input_width <= config.input_height * config.input_width * DECODER_PIXEL_SAMPLES)
            by (nonlinear_arith)
            requires config.input_height > 0, config.input_width > 0;
    }
    let plane_len = config.input_height * config.input_width;
    if luma.len() != plane_len {
        return Err(ModelError::Processing(String::from_str("decoded image has the wrong number of samples")));
    }
    let ghost plane = normalized_plane(luma@);
    let mut values: Vec<i16> = Vec::new();
    let mut c: usize = 0;
    while c < config.channels
        invariant
            config.wf(),
            luma@.len() == plane_len,
            plane == normalized_plane(luma@),
            c <= config.channels,
            values@ == stacked(plane, c as nat),
        decreases config.channels - c,
    {
        let mut j: usize = 0;
        while j < plane_len
            invariant
                luma@.len() == plane_len,
                plane == normalized_plane(luma@),
                j <= plane_len,
                values@ == stacked(plane, c as nat) + plane.take(j as int),
            decreases plane_len - j,
        {
            let p = luma[j];
            values.push(2 * (p as i16) - 255);
            assert(plane.take(j as int + 1) =~= plane.take(j as int).push(plane[j as int]));
            j = j + 1;
        }
        assert(plane.take(plane_len as int) =~= plane);
        c = c + 1;
    }
    proof {
        lemma_stacked_len(plane, config.channels as nat);
        assert(config.channels * plane_len == config.channels * config.input_height * config.input_width)
            by (nonlinear_arith)
            requires plane_len == config.input_height * config.input_width;
    }
    Ok(InputTensor { channels: config.channels, height: config.input_height, width: config.input_width, values })
}

/// Decodes `bytes`, resizes and normalises the image, and packs it for the
/// model that `config` describes. The result depends on `bytes` and `config`
/// alone.
///
/// Bytes that do not decode as an image are an `Image` error.
pub fn prepare(bytes: &Vec<u8>, config: &ModelConfig) -> (r: Result<InputTensor, ModelError>)
    requires
        config.wf(),
    ensures
        r is Ok <==> prepared(bytes@, *config) is Some,
        r is Err ==> r->Err_0 is Image,
        r matches Ok(t) ==> {
            &&& Some(t.values@) == prepared(bytes@, *config)
            &&& t.values@.len() == config.channels * config.input_height * config.input_width
            &&& laid_out(
                t.values@,
                luma_resized(bytes@, config.input_width as nat, config.input_height as nat)->Some_0,
                config.channels as int,
                config.input_height as int,
                config.input_width as int,
            )
            &&& t.channels == config.channels
            &&& t.height == config.input_height
            &&& t.width == config.input_width
        },
{
    let luma = match decode_luma(bytes.as_slice(), config.input_width as u32, config.input_height as u32) {
        Ok(l) => l,
        Err(detail) => return Err(ModelError::Image(detail)),
    };
    proof {
        lemma_tensor_layout(luma@, config.channels as nat, config.input_height as int, config.input_width as int);
    }
    match pack_tensor(&luma, config) {
        Ok(t) => Ok(t),
        Err(e) => Err(e),
    }
}

/// The tensor that `prepare` produces depends on the bytes and on the
/// configuration's sizes alone: equal bytes under equal sizes give the same
/// tensor, whatever the label lists.
pub proof fn lemma_prepared_depends_on_sizes(bytes: Seq<u8>, a: ModelConfig, b: ModelConfig)
    requires
        a.input_height == b.input_height,
        a.input_width == b.input_width,
        a.channels == b.channels,
    ensures
        prepared(bytes, a) == prepared(bytes, b),
{
}

} // verus!
