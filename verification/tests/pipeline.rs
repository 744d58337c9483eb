use cubic::stage::{ClearStage, ClearStageParams, DepthClear, Stage};
use cubic::{AcquireError, Extent2, RenderChain, RenderError};

fn red_weighted_params(red: f64) -> ClearStageParams {
    ClearStageParams {
        color: wgpu::Color { r: red, g: 0.0, b: 0.0, a: 1.0 },
        depth: DepthClear::One,
    }
}

#[test]
fn stages_keep_registration_order() {
    let expected = [0.1, 0.2, 0.3];
    for _ in 0..1000 {
        let chain = RenderChain::builder()
            .stage(Stage::Clear(ClearStage::setup(red_weighted_params(expected[0]))))
            .stage(Stage::Clear(ClearStage::setup(red_weighted_params(expected[1]))))
            .stage(Stage::Clear(ClearStage::setup(red_weighted_params(expected[2]))))
            .build();
        assert_eq!(chain.len(), 3);
        for (i, want) in expected.iter().enumerate() {
            match chain.stage_at(i) {
                Stage::Clear(stage) => assert_eq!(stage.params().color.r, *want),
            }
        }
    }
}

#[test]
fn empty_builder_builds_an_empty_chain() {
    let chain = RenderChain::builder().build();
    assert_eq!(chain.len(), 0);
}

#[test]
fn clear_stage_keeps_its_parameters() {
    let stage = ClearStage::setup(ClearStageParams {
        color: wgpu::Color::WHITE,
        depth: DepthClear::One,
    });
    assert_eq!(stage.params().color, wgpu::Color::WHITE);
    assert_eq!(stage.params().depth, DepthClear::One);

    let stage = ClearStage::setup(ClearStageParams {
        color: wgpu::Color::BLACK,
        depth: DepthClear::Zero,
    });
    assert_eq!(stage.params().color, wgpu::Color::BLACK);
    assert_eq!(stage.params().depth, DepthClear::Zero);
}

#[test]
fn surface_statuses_classify_as_the_session_recovers_them() {
    assert!(AcquireError::Timeout.recoverable());
    assert!(AcquireError::Outdated.recoverable());
    assert!(AcquireError::Lost.recoverable());
    assert!(!AcquireError::OutOfMemory.recoverable());
    assert!(!AcquireError::Other.recoverable());
}

#[test]
fn render_errors_compare_by_variant() {
    assert_eq!(
        RenderError::SurfaceAcquisition(AcquireError::Lost),
        RenderError::SurfaceAcquisition(AcquireError::Lost)
    );
    assert_ne!(
        RenderError::SurfaceAcquisition(AcquireError::Lost),
        RenderError::SurfaceAcquisition(AcquireError::Timeout)
    );
    assert_ne!(RenderError::DeviceUnavailable, RenderError::SurfaceConfigUnavailable);
}

#[test]
fn extents_are_positive_only_when_both_dimensions_are() {
    assert!(Extent2 { width: 800, height: 600 }.positive());
    assert!(Extent2 { width: u32::MAX, height: u32::MAX }.positive());
    assert!(!Extent2 { width: 0, height: 600 }.positive());
    assert!(!Extent2 { width: 800, height: 0 }.positive());
    assert!(!Extent2 { width: 0, height: 0 }.positive());
}

#[test]
fn extents_fit_only_within_the_device_limit() {
    let limit = cubic::state::MAX_TEXTURE_DIMENSION;
    assert_eq!(limit, 2048);
    assert!(Extent2 { width: 800, height: 600 }.fits(limit));
    assert!(Extent2 { width: limit, height: limit }.fits(limit));
    assert!(!Extent2 { width: limit + 1, height: limit }.fits(limit));
    assert!(!Extent2 { width: limit, height: limit + 1 }.fits(limit));
    assert!(!Extent2 { width: 0, height: limit }.fits(limit));
    assert!(!Extent2 { width: limit, height: 0 }.fits(limit));
}

#[test]
fn extents_compare_by_fields() {
    assert_eq!(Extent2 { width: 800, height: 600 }, Extent2 { width: 800, height: 600 });
    assert_ne!(Extent2 { width: 800, height: 600 }, Extent2 { width: 600, height: 800 });
}
