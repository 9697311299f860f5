use rustbier::commons::{get_watermark_borders, ImageFormat, Point, Rotation, Size, WatermarkPosition};
use rustbier::errors::PipelineError;
use rustbier::pipeline::{
    get_encode_params, rotated_size, Action, EncodeParam, EncodeParams, Event, Pipeline,
    ProcessImageRequest, Stage, WatermarkLayout,
};

fn layout(w: i32, h: i32, x: i32, y: i32, origin: WatermarkPosition) -> WatermarkLayout {
    WatermarkLayout {
        size: Size { width: Some(w), height: Some(h) },
        position: Point { x, y },
        origin,
    }
}

fn request(size: Size, watermarks: Vec<WatermarkLayout>, rotation: Option<Rotation>) -> ProcessImageRequest {
    ProcessImageRequest { size, format: ImageFormat::Jpeg, quality: 80, watermarks, rotation }
}

#[test]
fn png_ignores_request_quality() {
    assert_eq!(
        get_encode_params(&ImageFormat::Png, 80, 3),
        EncodeParams { param: EncodeParam::PngCompression, value: 3 }
    );
    assert_eq!(
        get_encode_params(&ImageFormat::Jpeg, 80, 3),
        EncodeParams { param: EncodeParam::JpegQuality, value: 80 }
    );
    assert_eq!(
        get_encode_params(&ImageFormat::Webp, 10, 3),
        EncodeParams { param: EncodeParam::WebpQuality, value: 10 }
    );
}

#[test]
fn quarter_turns_swap_axes() {
    assert_eq!(rotated_size(200, 100, &Rotation::R90), (100, 200));
    assert_eq!(rotated_size(200, 100, &Rotation::R180), (200, 100));
    assert_eq!(rotated_size(200, 100, &Rotation::R270), (100, 200));
}

#[test]
fn full_run_resize_rotate_watermark_encode() {
    let req = request(
        Size { width: Some(100), height: None },
        vec![layout(10, 10, 10, 10, WatermarkPosition::LeftTop)],
        Some(Rotation::R90),
    );
    let mut p = Pipeline::new(req, 3);
    assert_eq!(p.state().stage, Stage::Fetching);
    assert_eq!(p.next(Event::Fetched), Action::Decode);
    assert_eq!(p.next(Event::Decoded { width: 200, height: 100 }), Action::Resize { width: 100, height: 50 });
    assert_eq!(p.next(Event::Completed), Action::Rotate(Rotation::R90));
    assert_eq!((p.state().width, p.state().height), (50, 100));
    assert_eq!(p.next(Event::Completed), Action::DecodeLayer { index: 0 });
    assert_eq!(
        p.next(Event::LayerDecoded { width: 20, height: 20 }),
        Action::Composite { index: 0, width: 10, height: 10, left: 10, top: 10 }
    );
    assert_eq!(
        p.next(Event::Completed),
        Action::Encode {
            format: ImageFormat::Jpeg,
            params: EncodeParams { param: EncodeParam::JpegQuality, value: 80 }
        }
    );
    assert_eq!(p.next(Event::Completed), Action::Respond);
    assert_eq!(p.state().stage, Stage::Done);
    assert_eq!(p.next(Event::Completed), Action::Respond);
}

#[test]
fn no_size_and_no_rotation_goes_straight_to_encoding() {
    let mut p = Pipeline::new(request(Size { width: None, height: None }, vec![], None), 3);
    assert_eq!(p.next(Event::Fetched), Action::Decode);
    assert!(matches!(p.next(Event::Decoded { width: 640, height: 480 }), Action::Encode { .. }));
    assert_eq!((p.state().width, p.state().height), (640, 480));
}

#[test]
fn layers_are_composited_in_request_order() {
    let req = request(
        Size { width: None, height: None },
        vec![
            layout(40, 40, 0, 0, WatermarkPosition::LeftTop),
            layout(40, 40, 0, 0, WatermarkPosition::RightBottom),
        ],
        None,
    );
    let mut p = Pipeline::new(req, 3);
    p.next(Event::Fetched);
    assert_eq!(p.next(Event::Decoded { width: 100, height: 100 }), Action::DecodeLayer { index: 0 });
    assert_eq!(
        p.next(Event::LayerDecoded { width: 40, height: 40 }),
        Action::Composite { index: 0, width: 40, height: 40, left: 0, top: 0 }
    );
    assert_eq!(p.next(Event::Completed), Action::DecodeLayer { index: 1 });
    assert_eq!(
        p.next(Event::LayerDecoded { width: 40, height: 40 }),
        Action::Composite { index: 1, width: 40, height: 40, left: 60, top: 60 }
    );
    assert!(matches!(p.next(Event::Completed), Action::Encode { .. }));
}

#[test]
fn rotation_changes_centered_placement() {
    let center = layout(20, 20, 0, 0, WatermarkPosition::Center);
    let run = |rotation: Option<Rotation>| {
        let mut p = Pipeline::new(request(Size { width: None, height: None }, vec![center], rotation), 3);
        p.next(Event::Fetched);
        let mut a = p.next(Event::Decoded { width: 200, height: 101 });
        if let Action::Rotate(_) = a {
            a = p.next(Event::Completed);
        }
        assert_eq!(a, Action::DecodeLayer { index: 0 });
        p.next(Event::LayerDecoded { width: 20, height: 20 })
    };
    assert_eq!(run(None), Action::Composite { index: 0, width: 20, height: 20, left: 90, top: 40 });
    assert_eq!(run(Some(Rotation::R90)), Action::Composite { index: 0, width: 20, height: 20, left: 40, top: 90 });
    let p = Point { x: 0, y: 0 };
    assert_ne!(
        get_watermark_borders(101, 200, 20, 20, &p, &WatermarkPosition::Center),
        get_watermark_borders(200, 101, 20, 20, &p, &WatermarkPosition::Center)
    );
}

#[test]
fn fetch_failure_aborts_and_sticks() {
    let mut p = Pipeline::new(request(Size { width: None, height: None }, vec![], None), 3);
    let missing = PipelineError::NotFound { index: 2 };
    assert_eq!(p.next(Event::Failed(missing)), Action::Abort(missing));
    assert_eq!(p.state().stage, Stage::Failed(missing));
    assert_eq!(p.next(Event::Fetched), Action::Abort(PipelineError::NotFound { index: 2 }));
}

#[test]
fn invalid_base_size_aborts() {
    let mut p = Pipeline::new(request(Size { width: Some(0), height: None }, vec![], None), 3);
    p.next(Event::Fetched);
    assert_eq!(
        p.next(Event::Decoded { width: 100, height: 100 }),
        Action::Abort(PipelineError::InvalidSize {
            layer: None,
            size: Size { width: Some(0), height: None }
        })
    );
}

#[test]
fn invalid_layer_size_aborts() {
    let req = request(Size { width: None, height: None }, vec![layout(-1, 10, 0, 0, WatermarkPosition::Center)], None);
    let mut p = Pipeline::new(req, 3);
    p.next(Event::Fetched);
    p.next(Event::Decoded { width: 100, height: 100 });
    assert_eq!(
        p.next(Event::LayerDecoded { width: 10, height: 10 }),
        Action::Abort(PipelineError::InvalidSize {
            layer: Some(0),
            size: Size { width: Some(-1), height: Some(10) }
        })
    );
}

#[test]
fn empty_image_is_a_decode_error() {
    let mut p = Pipeline::new(request(Size { width: None, height: None }, vec![], None), 3);
    p.next(Event::Fetched);
    assert_eq!(p.next(Event::Decoded { width: 0, height: 10 }), Action::Abort(PipelineError::DecodeError));
}

#[test]
fn unexpected_event_is_a_processing_error() {
    let mut p = Pipeline::new(request(Size { width: None, height: None }, vec![], None), 3);
    assert_eq!(p.next(Event::Completed), Action::Abort(PipelineError::ProcessingError));
}

#[test]
fn anchor_beyond_integer_range_is_a_processing_error() {
    let req = request(
        Size { width: None, height: None },
        vec![layout(10, 10, i32::MIN, 0, WatermarkPosition::RightBottom)],
        None,
    );
    let mut p = Pipeline::new(req, 3);
    p.next(Event::Fetched);
    p.next(Event::Decoded { width: 100, height: 100 });
    assert_eq!(
        p.next(Event::LayerDecoded { width: 10, height: 10 }),
        Action::Abort(PipelineError::ProcessingError)
    );
}

#[test]
fn failure_during_encoding_aborts() {
    let mut p = Pipeline::new(request(Size { width: None, height: None }, vec![], None), 3);
    p.next(Event::Fetched);
    p.next(Event::Decoded { width: 10, height: 10 });
    assert_eq!(
        p.next(Event::Failed(PipelineError::ProcessingError)),
        Action::Abort(PipelineError::ProcessingError)
    );
    assert_eq!(
        Pipeline::new(request(Size { width: None, height: None }, vec![], None), 3)
            .next(Event::Failed(PipelineError::TransportError)),
        Action::Abort(PipelineError::TransportError)
    );
}

#[test]
fn invalid_second_layer_size_names_that_layer() {
    let req = request(
        Size { width: None, height: None },
        vec![
            layout(10, 10, 0, 0, WatermarkPosition::LeftTop),
            layout(10, 0, 0, 0, WatermarkPosition::LeftTop),
        ],
        None,
    );
    let mut p = Pipeline::new(req, 3);
    p.next(Event::Fetched);
    p.next(Event::Decoded { width: 100, height: 100 });
    p.next(Event::LayerDecoded { width: 10, height: 10 });
    assert_eq!(p.next(Event::Completed), Action::DecodeLayer { index: 1 });
    let abort = p.next(Event::LayerDecoded { width: 10, height: 10 });
    assert_eq!(
        abort,
        Action::Abort(PipelineError::InvalidSize {
            layer: Some(1),
            size: Size { width: Some(10), height: Some(0) }
        })
    );
    if let Action::Abort(e) = abort {
        assert!(e.is_request_error());
    }
}

#[test]
fn centered_layer_ignores_extreme_anchor() {
    let req = request(
        Size { width: None, height: None },
        vec![layout(10, 10, i32::MIN, i32::MAX, WatermarkPosition::Center)],
        None,
    );
    let mut p = Pipeline::new(req, 3);
    p.next(Event::Fetched);
    p.next(Event::Decoded { width: 100, height: 100 });
    assert_eq!(
        p.next(Event::LayerDecoded { width: 10, height: 10 }),
        Action::Composite { index: 0, width: 10, height: 10, left: 45, top: 45 }
    );
}
