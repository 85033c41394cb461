use clearloop::surface::{
    choose_format, preferred_index, PresentMode, Recovery, RenderError, SurfaceConfig,
};
use wgpu::{SurfaceError, TextureFormat};

#[test]
fn preferred_index_takes_first_srgb() {
    assert_eq!(preferred_index(&vec![false, true, true]), Some(1));
    assert_eq!(preferred_index(&vec![true, false]), Some(0));
    assert_eq!(preferred_index(&vec![false, false, false, true]), Some(3));
}

#[test]
fn preferred_index_falls_back_to_first() {
    assert_eq!(preferred_index(&vec![false, false, false]), Some(0));
    assert_eq!(preferred_index(&vec![false]), Some(0));
}

#[test]
fn preferred_index_of_nothing_is_none() {
    assert_eq!(preferred_index(&vec![]), None);
}

#[test]
fn choose_format_prefers_srgb() {
    let formats = vec![
        TextureFormat::Bgra8Unorm,
        TextureFormat::Rgba16Float,
        TextureFormat::Bgra8UnormSrgb,
        TextureFormat::Rgba8UnormSrgb,
    ];
    assert_eq!(choose_format(&formats), Some(2));
}

#[test]
fn choose_format_without_srgb_takes_first() {
    let formats = vec![TextureFormat::Rgba16Float, TextureFormat::Bgra8Unorm];
    assert_eq!(choose_format(&formats), Some(0));
}

#[test]
fn choose_format_with_srgb_first() {
    let formats = vec![TextureFormat::Rgba8UnormSrgb, TextureFormat::Bgra8UnormSrgb];
    assert_eq!(choose_format(&formats), Some(0));
}

#[test]
fn choose_format_of_nothing_is_none() {
    assert_eq!(choose_format(&vec![]), None);
}

#[test]
fn surface_errors_keep_their_kind() {
    assert_eq!(RenderError::from_surface_error(&SurfaceError::Lost), RenderError::SurfaceLost);
    assert_eq!(
        RenderError::from_surface_error(&SurfaceError::OutOfMemory),
        RenderError::OutOfMemory
    );
    assert_eq!(RenderError::from_surface_error(&SurfaceError::Outdated), RenderError::Outdated);
    assert_eq!(RenderError::from_surface_error(&SurfaceError::Timeout), RenderError::Timeout);
}

#[test]
fn recovery_by_kind() {
    assert_eq!(RenderError::SurfaceLost.recovery(), Recovery::Reconfigure);
    assert_eq!(RenderError::OutOfMemory.recovery(), Recovery::Fatal);
    assert_eq!(RenderError::Outdated.recovery(), Recovery::Skip);
    assert_eq!(RenderError::Timeout.recovery(), Recovery::Skip);
}

#[test]
fn new_config_has_the_defaults() {
    let c = SurfaceConfig::new(3, 800, 600);
    assert_eq!(
        c,
        SurfaceConfig {
            format: 3,
            width: 800,
            height: 600,
            present_mode: PresentMode::Mailbox,
            alpha_mode: 0,
            frame_latency: 2,
        }
    );
}

#[test]
fn resize_takes_a_positive_size() {
    let mut c = SurfaceConfig::new(1, 800, 600);
    assert!(c.resize(1024, 768));
    assert_eq!(c.width, 1024);
    assert_eq!(c.height, 768);
    assert_eq!(c.format, 1);
    assert_eq!(c.present_mode, PresentMode::Mailbox);
    assert_eq!(c.frame_latency, 2);
}

#[test]
fn resize_twice_is_resize_once() {
    let mut c = SurfaceConfig::new(0, 800, 600);
    assert!(c.resize(640, 480));
    let once = c;
    assert!(c.resize(640, 480));
    assert_eq!(c, once);
    assert_eq!((c.width, c.height), (640, 480));
}

#[test]
fn resize_ignores_zero_width() {
    let mut c = SurfaceConfig::new(0, 800, 600);
    let before = c;
    assert!(!c.resize(0, 480));
    assert_eq!(c, before);
}

#[test]
fn resize_ignores_zero_height() {
    let mut c = SurfaceConfig::new(0, 800, 600);
    let before = c;
    assert!(!c.resize(640, 0));
    assert_eq!(c, before);
    assert!(!c.resize(0, 0));
    assert_eq!(c, before);
}

#[test]
fn config_for_a_surface_takes_preferred_format_and_first_alpha_mode() {
    let formats = vec![TextureFormat::Bgra8Unorm, TextureFormat::Bgra8UnormSrgb];
    assert_eq!(
        SurfaceConfig::for_surface(&formats, 3, 800, 600),
        Some(SurfaceConfig {
            format: 1,
            width: 800,
            height: 600,
            present_mode: PresentMode::Mailbox,
            alpha_mode: 0,
            frame_latency: 2,
        })
    );
    let formats = vec![TextureFormat::Bgra8Unorm];
    assert_eq!(
        SurfaceConfig::for_surface(&formats, 1, 0, 0),
        Some(SurfaceConfig::new(0, 0, 0))
    );
}

#[test]
fn no_config_for_a_surface_that_offers_nothing() {
    let formats = vec![TextureFormat::Bgra8UnormSrgb];
    assert_eq!(SurfaceConfig::for_surface(&formats, 0, 800, 600), None);
    assert_eq!(SurfaceConfig::for_surface(&vec![], 1, 800, 600), None);
    assert_eq!(SurfaceConfig::for_surface(&vec![], 0, 800, 600), None);
}
