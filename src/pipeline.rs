use vstd::prelude::*;

use crate::commons::{
    borders,
    borders_in_range,
    get_target_size,
    get_watermark_borders,
    lemma_fitted_size_within_original,
    target_size,
    ImageFormat,
    Point,
    Rotation,
    Size,
    WatermarkPosition,
};
use crate::errors::PipelineError;

verus! {

// ----------------------------------------------------------------------------
// Encoder parameters
// ----------------------------------------------------------------------------

/// The codec parameter that carries the quality number.
#[derive(Debug, Clone, Copy, PartialEq, Eq, Structural)]
pub enum EncodeParam {
    JpegQuality,
    PngCompression,
    WebpQuality,
}

/// A codec parameter and its value.
#[derive(Debug, Clone, Copy, PartialEq, Eq, Structural)]
pub struct EncodeParams {
    pub param: EncodeParam,
    pub value: i32,
}

/// JPEG and WEBP take the request's quality; PNG ignores it and takes the
/// deployment's compression level.
pub open spec fn encode_params(format: ImageFormat, quality: i32, png_quality: u8) -> EncodeParams {
    match format {
        ImageFormat::Jpeg => EncodeParams { param: EncodeParam::JpegQuality, value: quality },
        ImageFormat::Png => EncodeParams {
            param: EncodeParam::PngCompression,
            value: png_quality as i32,
        },
        ImageFormat::Webp => EncodeParams { param: EncodeParam::WebpQuality, value: quality },
    }
}

/// The codec parameter for `format`, with the request's `quality` for JPEG
/// and WEBP and the fixed `png_quality` compression level for PNG.
pub fn get_encode_params(format: &ImageFormat, quality: i32, png_quality: u8) -> (r: EncodeParams)
    ensures
        r == encode_params(*format, quality, png_quality),
{
    match format {
        ImageFormat::Jpeg => EncodeParams { param: EncodeParam::JpegQuality, value: quality },
        ImageFormat::Png => EncodeParams {
            param: EncodeParam::PngCompression,
            value: png_quality as i32,
        },
        ImageFormat::Webp => EncodeParams { param: EncodeParam::WebpQuality, value: quality },
    }
}

// ----------------------------------------------------------------------------
// Rotation geometry
// ----------------------------------------------------------------------------

/// The canvas size after a rotation: a quarter turn swaps the axes.
pub open spec fn rotated(width: int, height: int, rotation: Rotation) -> (int, int) {
    match rotation {
        Rotation::R180 => (width, height),
        _ => (height, width),
    }
}

/// The `(width, height)` of a `width` x `height` canvas once rotated.
pub fn rotated_size(width: i32, height: i32, rotation: &Rotation) -> (r: (i32, i32))
    ensures
        (r.0 as int, r.1 as int) == rotated(width as int, height as int, *rotation),
{
    match rotation {
        Rotation::R180 => (width, height),
        _ => (height, width),
    }
}

// ----------------------------------------------------------------------------
// Orchestration
// ----------------------------------------------------------------------------

/// Where and how large one watermark layer goes.
#[derive(Debug, Clone, Copy, PartialEq, Eq, Structural)]
pub struct WatermarkLayout {
    pub size: Size,
    pub position: Point,
    pub origin: WatermarkPosition,
}

/// A transformation: the base image's desired size, the output codec and
/// quality, the watermark layers in the order they are composited, and an
/// optional rotation.
#[derive(Debug, Clone)]
pub struct ProcessImageRequest {
    pub size: Size,
    pub format: ImageFormat,
    pub quality: i32,
    pub watermarks: Vec<WatermarkLayout>,
    pub rotation: Option<Rotation>,
}

/// The step that has been asked for and not yet reported back.
#[derive(Debug, Clone, Copy, PartialEq, Eq, Structural)]
pub enum Stage {
    /// The base image and every watermark are being fetched.
    Fetching,
    /// The base image is being decoded.
    Decoding,
    /// The base image is being resized.
    Resizing,
    /// The canvas is being rotated.
    Rotating,
    /// The current watermark layer is being decoded.
    MeasuringLayer,
    /// The current watermark layer is being composited.
    Compositing,
    /// The canvas is being encoded.
    Encoding,
    /// The response bytes are ready.
    Done,
    /// The request failed; nothing is returned.
    Failed(PipelineError),
}

/// What the caller reports once the asked-for step has run.
#[derive(Debug, Clone, Copy, PartialEq, Eq, Structural)]
pub enum Event {
    /// Every fetch succeeded.
    Fetched,
    /// The base image decoded to a `width` x `height` canvas.
    Decoded { width: i32, height: i32 },
    /// The current watermark layer decoded to `width` x `height`.
    LayerDecoded { width: i32, height: i32 },
    /// A resize, rotation, composite or encoding step succeeded.
    Completed,
    /// The step failed.
    Failed(PipelineError),
}

/// The step the caller is asked to run next.
#[derive(Debug, Clone, Copy, PartialEq, Eq, Structural)]
pub enum Action {
    /// Decode the fetched base image.
    Decode,
    /// Resize the canvas to `width` x `height`.
    Resize { width: i32, height: i32 },
    /// Rotate the canvas.
    Rotate(Rotation),
    /// Decode the fetched watermark number `index`.
    DecodeLayer { index: usize },
    /// Resize watermark number `index` to `width` x `height` and composite it
    /// with its top-left corner at `(left, top)` on the canvas.
    Composite { index: usize, width: i32, height: i32, left: i32, top: i32 },
    /// Encode the canvas.
    Encode { format: ImageFormat, params: EncodeParams },
    /// Return the encoded bytes.
    Respond,
    /// Stop and report the error; all partial work is discarded.
    Abort(PipelineError),
}

/// The progress of one request: the pending stage, the size the canvas has
/// once that stage is done, and how many watermark layers are composited.
#[derive(Debug, Clone, Copy, PartialEq, Eq, Structural)]
pub struct PipelineState {
    pub stage: Stage,
    pub width: i32,
    pub height: i32,
    pub layer: usize,
}

/// The state and action of a failure.
pub open spec fn fail(s: PipelineState, e: PipelineError) -> (PipelineState, Action) {
    (PipelineState { stage: Stage::Failed(e), ..s }, Action::Abort(e))
}

/// Composite the next layer, or encode once every layer is on the canvas.
pub open spec fn layer_or_encode(
    req: ProcessImageRequest,
    png_quality: u8,
    s: PipelineState,
) -> (PipelineState, Action) {
    if s.layer < req.watermarks@.len() {
        (
            PipelineState { stage: Stage::MeasuringLayer, ..s },
            Action::DecodeLayer { index: s.layer },
        )
    } else {
        (
            PipelineState { stage: Stage::Encoding, ..s },
            Action::Encode {
                format: req.format,
                params: encode_params(req.format, req.quality, png_quality),
            },
        )
    }
}

/// Rotate the resized canvas if asked to, then go on with the layers.
pub open spec fn rotate_or_layer(
    req: ProcessImageRequest,
    png_quality: u8,
    s: PipelineState,
) -> (PipelineState, Action) {
    match req.rotation {
        Some(r) => {
            let (w, h) = rotated(s.width as int, s.height as int, r);
            (
                PipelineState { stage: Stage::Rotating, width: w as i32, height: h as i32, ..s },
                Action::Rotate(r),
            )
        },
        None => layer_or_encode(req, png_quality, s),
    }
}

/// What follows a decoded base image of `width` x `height`.
pub open spec fn after_decode(
    req: ProcessImageRequest,
    png_quality: u8,
    s: PipelineState,
    width: i32,
    height: i32,
) -> (PipelineState, Action) {
    if width <= 0 || height <= 0 {
        fail(s, PipelineError::DecodeError)
    } else if req.size.width is None && req.size.height is None {
        rotate_or_layer(
            req,
            png_quality,
            PipelineState { width: width, height: height, layer: 0, ..s },
        )
    } else {
        match target_size(width as int, height as int, req.size) {
            None => fail(s, PipelineError::InvalidSize { layer: None, size: req.size }),
            Some((w, h)) => (
                PipelineState {
                    stage: Stage::Resizing,
                    width: w as i32,
                    height: h as i32,
                    layer: 0,
                },
                Action::Resize { width: w as i32, height: h as i32 },
            ),
        }
    }
}

/// What follows decoding the current layer to `width` x `height`: fit it to
/// its desired size, then place it on the canvas as it stands now.
pub open spec fn after_layer_decode(
    req: ProcessImageRequest,
    s: PipelineState,
    width: i32,
    height: i32,
) -> (PipelineState, Action) {
    let wm = req.watermarks@[s.layer as int];
    if width <= 0 || height <= 0 {
        fail(s, PipelineError::DecodeError)
    } else {
        match target_size(width as int, height as int, wm.size) {
            None => fail(s, PipelineError::InvalidSize { layer: Some(s.layer), size: wm.size }),
            Some((w, h)) => {
                if wm.origin !is Center && !borders_in_range(
                    s.width as int,
                    s.height as int,
                    w,
                    h,
                    wm.position,
                ) {
                    fail(s, PipelineError::ProcessingError)
                } else {
                    let (left, top, _, _) = borders(
                        s.width as int,
                        s.height as int,
                        w,
                        h,
                        wm.position,
                        wm.origin,
                    );
                    (
                        PipelineState { stage: Stage::Compositing, ..s },
                        Action::Composite {
                            index: s.layer,
                            width: w as i32,
                            height: h as i32,
                            left: left as i32,
                            top: top as i32,
                        },
                    )
                }
            },
        }
    }
}

/// One step of the pipeline: the next state and the action asked for when
/// `e` is reported in state `s`. A finished or failed request stays as it is;
/// a failure reported at any stage ends the request; an event that the
/// pending stage does not expect is a processing error.
pub open spec fn transition(
    req: ProcessImageRequest,
    png_quality: u8,
    s: PipelineState,
    e: Event,
) -> (PipelineState, Action) {
    match s.stage {
        Stage::Done => (s, Action::Respond),
        Stage::Failed(err) => (s, Action::Abort(err)),
        _ => match e {
            Event::Failed(err) => fail(s, err),
            Event::Fetched => if s.stage is Fetching {
                (PipelineState { stage: Stage::Decoding, ..s }, Action::Decode)
            } else {
                fail(s, PipelineError::ProcessingError)
            },
            Event::Decoded { width, height } => if s.stage is Decoding {
                after_decode(req, png_quality, s, width, height)
            } else {
                fail(s, PipelineError::ProcessingError)
            },
            Event::LayerDecoded { width, height } => if s.stage is MeasuringLayer {
                after_layer_decode(req, s, width, height)
            } else {
                fail(s, PipelineError::ProcessingError)
            },
            Event::Completed => match s.stage {
                Stage::Resizing => rotate_or_layer(req, png_quality, s),
                Stage::Rotating => layer_or_encode(req, png_quality, s),
                Stage::Compositing => layer_or_encode(
                    req,
                    png_quality,
                    PipelineState { layer: (s.layer + 1) as usize, ..s },
                ),
                Stage::Encoding => (PipelineState { stage: Stage::Done, ..s }, Action::Respond),
                _ => fail(s, PipelineError::ProcessingError),
            },
        },
    }
}

/// The canvas size is never negative and the layer count never passes the
/// number of watermarks.
pub open spec fn progress_wf(req: ProcessImageRequest, s: PipelineState) -> bool {
    &&& s.width >= 0
    &&& s.height >= 0
    &&& s.layer <= req.watermarks@.len() <= usize::MAX
}

/// The states a request can be in: the canvas size is never negative, the
/// layer count never passes the number of watermarks, and a layer that is
/// being decoded or composited exists.
pub open spec fn state_wf(req: ProcessImageRequest, s: PipelineState) -> bool {
    &&& progress_wf(req, s)
    &&& (s.stage is MeasuringLayer || s.stage is Compositing) ==> s.layer
        < req.watermarks@.len()
}

/// One request on its way from fetched bytes to the response.
///
/// The caller runs each asked-for step (the fetches, decoding, resizing,
/// rotating, compositing, encoding) and reports how it went through
/// [`Pipeline::next`], which answers with the step to run next.
pub struct Pipeline {
    request: ProcessImageRequest,
    png_quality: u8,
    state: PipelineState,
}

impl View for Pipeline {
    type V = PipelineState;

    closed spec fn view(&self) -> PipelineState {
        self.state
    }
}

impl Pipeline {
    /// The request being carried out.
    pub closed spec fn request(&self) -> ProcessImageRequest {
        self.request
    }

    /// The deployment's PNG compression level.
    pub closed spec fn png_quality(&self) -> u8 {
        self.png_quality
    }

    pub open spec fn wf(&self) -> bool {
        state_wf(self.request(), self@)
    }

    /// Starts a request. The caller first fetches the base image and every
    /// watermark, all at once, and reports [`Event::Fetched`] once all of
    /// them have arrived.
    pub fn new(request: ProcessImageRequest, png_quality: u8) -> (r: Pipeline)
        ensures
            r.wf(),
            r.request() == request,
            r.png_quality() == png_quality,
            r@ == (PipelineState { stage: Stage::Fetching, width: 0, height: 0, layer: 0 }),
    {
        // a vector's length bounds the layer count by `usize::MAX`
        let _layers: usize = request.watermarks.len();
        Pipeline {
            request,
            png_quality,
            state: PipelineState { stage: Stage::Fetching, width: 0, height: 0, layer: 0 },
        }
    }

    /// The current state.
    pub fn state(&self) -> (r: PipelineState)
        ensures
            r == self@,
    {
        self.state
    }

    fn fail_with(&mut self, e: PipelineError) -> (r: Action)
        requires
            old(self).wf(),
        ensures
            final(self).request() == old(self).request(),
            final(self).png_quality() == old(self).png_quality(),
            (final(self)@, r) == fail(old(self)@, e),
            final(self).wf(),
    {
        self.state = PipelineState { stage: Stage::Failed(e), ..self.state };
        Action::Abort(e)
    }

    fn layer_or_encode(&mut self) -> (r: Action)
        requires
            progress_wf(old(self).request(), old(self)@),
        ensures
            final(self).request() == old(self).request(),
            final(self).png_quality() == old(self).png_quality(),
            (final(self)@, r) == layer_or_encode(
                old(self).request(),
                old(self).png_quality(),
                old(self)@,
            ),
            final(self).wf(),
    {
        if self.state.layer < self.request.watermarks.len() {
            self.state = PipelineState { stage: Stage::MeasuringLayer, ..self.state };
            Action::DecodeLayer { index: self.state.layer }
        } else {
            self.state = PipelineState { stage: Stage::Encoding, ..self.state };
            Action::Encode {
                format: self.request.format,
                params: get_encode_params(
                    &self.request.format,
                    self.request.quality,
                    self.png_quality,
                ),
            }
        }
    }

    fn rotate_or_layer(&mut self) -> (r: Action)
        requires
            progress_wf(old(self).request(), old(self)@),
        ensures
            final(self).request() == old(self).request(),
            final(self).png_quality() == old(self).png_quality(),
            (final(self)@, r) == rotate_or_layer(
                old(self).request(),
                old(self).png_quality(),
                old(self)@,
            ),
            final(self).wf(),
    {
        match self.request.rotation {
            Some(r) => {
                let (w, h) = rotated_size(self.state.width, self.state.height, &r);
                self.state = PipelineState {
                    stage: Stage::Rotating,
                    width: w,
                    height: h,
                    ..self.state
                };
                Action::Rotate(r)
            },
            None => self.layer_or_encode(),
        }
    }

    fn after_decode(&mut self, width: i32, height: i32) -> (r: Action)
        requires
            old(self).wf(),
        ensures
            final(self).request() == old(self).request(),
            final(self).png_quality() == old(self).png_quality(),
            (final(self)@, r) == after_decode(
                old(self).request(),
                old(self).png_quality(),
                old(self)@,
                width,
                height,
            ),
            final(self).wf(),
    {
        if width <= 0 || height <= 0 {
            self.fail_with(PipelineError::DecodeError)
        } else if self.request.size.width.is_none() && self.request.size.height.is_none() {
            self.state = PipelineState { width, height, layer: 0, ..self.state };
            self.rotate_or_layer()
        } else {
            proof {
                lemma_fitted_size_within_original(width as int, height as int, self.request.size);
            }
            match get_target_size(width, height, &self.request.size) {
                Err(e) => self.fail_with(
                    PipelineError::InvalidSize { layer: None, size: e.rejected_size() },
                ),
                Ok((w, h)) => {
                    self.state = PipelineState {
                        stage: Stage::Resizing,
                        width: w,
                        height: h,
                        layer: 0,
                    };
                    Action::Resize { width: w, height: h }
                },
            }
        }
    }

    fn after_layer_decode(&mut self, width: i32, height: i32) -> (r: Action)
        requires
            old(self).wf(),
            old(self)@.stage is MeasuringLayer,
        ensures
            final(self).request() == old(self).request(),
            final(self).png_quality() == old(self).png_quality(),
            (final(self)@, r) == after_layer_decode(old(self).request(), old(self)@, width, height),
            final(self).wf(),
    {
        let wm = self.request.watermarks[self.state.layer];
        if width <= 0 || height <= 0 {
            return self.fail_with(PipelineError::DecodeError);
        }
        proof {
            lemma_fitted_size_within_original(width as int, height as int, wm.size);
        }
        match get_target_size(width, height, &wm.size) {
            Err(e) => self.fail_with(
                PipelineError::InvalidSize { layer: Some(self.state.layer), size: e.rejected_size() },
            ),
            Ok((w, h)) => {
                let dx: i64 = self.state.width as i64 - wm.position.x as i64 - w as i64;
                let dy: i64 = self.state.height as i64 - wm.position.y as i64 - h as i64;
                let anchored = match wm.origin {
                    WatermarkPosition::Center => false,
                    _ => true,
                };
                // a centred layer never reads its anchor
                if anchored && (dx < i32::MIN as i64 || dx > i32::MAX as i64 || dy < i32::MIN as i64
                    || dy > i32::MAX as i64) {
                    self.fail_with(PipelineError::ProcessingError)
                } else {
                    let (left, top, _, _) = get_watermark_borders(
                        self.state.width,
                        self.state.height,
                        w,
                        h,
                        &wm.position,
                        &wm.origin,
                    );
                    self.state = PipelineState { stage: Stage::Compositing, ..self.state };
                    Action::Composite { index: self.state.layer, width: w, height: h, left, top }
                }
            },
        }
    }

    /// Takes the report `event` on the step asked for last, and answers with
    /// the step to run next.
    ///
    /// The base image is decoded, resized (when a size was asked for),
    /// rotated (when a rotation was asked for), then each watermark is
    /// decoded, fitted and composited in the order of the request onto the
    /// canvas as it stands after the previous steps, and the canvas is
    /// encoded once. Any failure ends the request with no partial result.
    pub fn next(&mut self, event: Event) -> (r: Action)
        requires
            old(self).wf(),
        ensures
            final(self).wf(),
            final(self).request() == old(self).request(),
            final(self).png_quality() == old(self).png_quality(),
            (final(self)@, r) == transition(
                old(self).request(),
                old(self).png_quality(),
                old(self)@,
                event,
            ),
    {
        match self.state.stage {
            Stage::Done => return Action::Respond,
            Stage::Failed(err) => return Action::Abort(err),
            _ => {},
        }
        match event {
            Event::Failed(err) => self.fail_with(err),
            Event::Fetched => {
                if let Stage::Fetching = self.state.stage {
                    self.state = PipelineState { stage: Stage::Decoding, ..self.state };
                    Action::Decode
                } else {
                    self.fail_with(PipelineError::ProcessingError)
                }
            },
            Event::Decoded { width, height } => {
                if let Stage::Decoding = self.state.stage {
                    self.after_decode(width, height)
                } else {
                    self.fail_with(PipelineError::ProcessingError)
                }
            },
            Event::LayerDecoded { width, height } => {
                if let Stage::MeasuringLayer = self.state.stage {
                    self.after_layer_decode(width, height)
                } else {
                    self.fail_with(PipelineError::ProcessingError)
                }
            },
            Event::Completed => match self.state.stage {
                Stage::Resizing => self.rotate_or_layer(),
                Stage::Rotating => self.layer_or_encode(),
                Stage::Compositing => {
                    // the layer being composited exists, so one more still fits
                    let _layers: usize = self.request.watermarks.len();
                    self.state = PipelineState { layer: self.state.layer + 1, ..self.state };
                    self.layer_or_encode()
                },
                Stage::Encoding => {
                    self.state = PipelineState { stage: Stage::Done, ..self.state };
                    Action::Respond
                },
                _ => self.fail_with(PipelineError::ProcessingError),
            },
        }
    }
}

// ----------------------------------------------------------------------------
// Laws
// ----------------------------------------------------------------------------

/// Layers go on in the order of the request: once layer `i` is composited,
/// the next step decodes layer `i + 1`, or encodes after the last one; and
/// the composite asked for after decoding layer `i` is of layer `i`.
pub proof fn lemma_layers_in_request_order(
    req: ProcessImageRequest,
    png_quality: u8,
    s: PipelineState,
    layer_width: i32,
    layer_height: i32,
)
    requires
        state_wf(req, s),
    ensures
        s.stage is Compositing ==> {
            let (next, action) = transition(req, png_quality, s, Event::Completed);
            &&& next.layer == s.layer + 1
            &&& if s.layer + 1 < req.watermarks@.len() {
                action == Action::DecodeLayer { index: (s.layer + 1) as usize }
            } else {
                action is Encode
            }
        },
        s.stage is MeasuringLayer ==> {
            let (next, action) = transition(
                req,
                png_quality,
                s,
                Event::LayerDecoded { width: layer_width, height: layer_height },
            );
            &&& next.layer == s.layer
            &&& action matches Action::Composite { index, .. } ==> index == s.layer
        },
{
}

/// A quarter turn of a non-square canvas changes the space around a centred
/// layer.
pub proof fn lemma_quarter_turn_moves_centered_layer(
    width: int,
    height: int,
    wm_width: int,
    wm_height: int,
    point: Point,
)
    requires
        width != height,
    ensures
        ({
            let (w, h) = rotated(width, height, Rotation::R90);
            borders(w, h, wm_width, wm_height, point, WatermarkPosition::Center) != borders(
                width,
                height,
                wm_width,
                wm_height,
                point,
                WatermarkPosition::Center,
            )
        }),
{
}

/// Rotation comes before placement: with a rotation asked for, the resized
/// canvas is rotated first, and the first layer is then placed on the
/// rotated canvas.
pub proof fn lemma_rotation_precedes_placement(
    req: ProcessImageRequest,
    png_quality: u8,
    s: PipelineState,
    layer_width: i32,
    layer_height: i32,
)
    requires
        state_wf(req, s),
        s.stage is Resizing,
        req.rotation is Some,
        s.layer < req.watermarks@.len(),
    ensures
        ({
            let r = req.rotation->0;
            let (rotating, a1) = transition(req, png_quality, s, Event::Completed);
            let (measuring, a2) = transition(req, png_quality, rotating, Event::Completed);
            let (_, a3) = transition(
                req,
                png_quality,
                measuring,
                Event::LayerDecoded { width: layer_width, height: layer_height },
            );
            let wm = req.watermarks@[s.layer as int];
            &&& a1 == Action::Rotate(r)
            &&& (rotating.width as int, rotating.height as int) == rotated(
                s.width as int,
                s.height as int,
                r,
            )
            &&& a2 == Action::DecodeLayer { index: s.layer }
            &&& a3 matches Action::Composite { width, height, left, top, .. } ==> {
                let (w, h) = rotated(s.width as int, s.height as int, r);
                let (l, t, _, _) = borders(
                    w,
                    h,
                    width as int,
                    height as int,
                    wm.position,
                    wm.origin,
                );
                left == l && top == t
            }
        }),
{
    let r = req.rotation->0;
    let (rotating, a1) = transition(req, png_quality, s, Event::Completed);
    assert(a1 == Action::Rotate(r));
    assert((rotating.width as int, rotating.height as int) == rotated(s.width as int, s.height as int, r));
    let (measuring, a2) = transition(req, png_quality, rotating, Event::Completed);
    assert(a2 == Action::DecodeLayer { index: s.layer });
    if layer_width > 0 && layer_height > 0 {
        let wm = req.watermarks@[s.layer as int];
        lemma_fitted_size_within_original(layer_width as int, layer_height as int, wm.size);
    }
}

} // verus!
