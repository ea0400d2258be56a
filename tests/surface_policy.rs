use gpu_manager::config::{plan_surface, SurfaceCaps, FRAME_LATENCY};
use gpu_manager::setup::SetupError;
use gpu_manager::surface::{has_format, select_format, select_usage, ColorFormat, COPY_DST, RENDER_ATTACHMENT};

#[derive(Clone, Copy, Debug, PartialEq)]
enum Present {
    Fifo,
    Mailbox,
    Immediate,
}

#[derive(Clone, Copy, Debug, PartialEq)]
enum Alpha {
    Opaque,
    PreMultiplied,
}

fn caps(formats: Vec<ColorFormat>, usages: u32) -> SurfaceCaps<Present, Alpha> {
    SurfaceCaps {
        formats,
        usages,
        present_modes: vec![Present::Mailbox, Present::Fifo, Present::Immediate],
        alpha_modes: vec![Alpha::PreMultiplied, Alpha::Opaque],
    }
}

#[test]
fn rgba_wins_when_listed_first() {
    let f = vec![ColorFormat::Rgba8Unorm, ColorFormat::Bgra8Unorm];
    assert_eq!(select_format(&f), Some(ColorFormat::Rgba8Unorm));
}

#[test]
fn rgba_wins_when_listed_last() {
    let f = vec![ColorFormat::Other, ColorFormat::Bgra8Unorm, ColorFormat::Rgba8Unorm];
    assert_eq!(select_format(&f), Some(ColorFormat::Rgba8Unorm));
}

#[test]
fn only_bgra_gives_bgra() {
    let f = vec![ColorFormat::Bgra8Unorm];
    assert_eq!(select_format(&f), Some(ColorFormat::Bgra8Unorm));
    let plan = plan_surface(&caps(f, RENDER_ATTACHMENT | COPY_DST), 640, 480).unwrap();
    assert_eq!(plan.format, ColorFormat::Bgra8Unorm);
}

#[test]
fn neither_format_is_unsupported() {
    let f = vec![ColorFormat::Other, ColorFormat::Other];
    assert_eq!(select_format(&f), None);
    let r = plan_surface(&caps(f, 31), 800, 600);
    assert_eq!(r.err(), Some(SetupError::UnsupportedSurfaceFormat));
}

#[test]
fn no_formats_at_all() {
    let f: Vec<ColorFormat> = vec![];
    assert!(!has_format(&f, ColorFormat::Rgba8Unorm));
    assert_eq!(select_format(&f), None);
    let r = plan_surface(&caps(f, 31), 1, 1);
    assert_eq!(r.err(), Some(SetupError::UnsupportedSurfaceFormat));
}

#[test]
fn has_format_finds_later_entries() {
    let f = vec![ColorFormat::Other, ColorFormat::Other, ColorFormat::Bgra8Unorm];
    assert!(has_format(&f, ColorFormat::Bgra8Unorm));
    assert!(!has_format(&f, ColorFormat::Rgba8Unorm));
}

#[test]
fn usage_without_copy_dst_falls_back() {
    assert_eq!(select_usage(RENDER_ATTACHMENT), 16);
    assert_eq!(select_usage(1 | 4 | 16), 16);
    let plan = plan_surface(&caps(vec![ColorFormat::Rgba8Unorm], 16), 10, 20).unwrap();
    assert_eq!(plan.usage, RENDER_ATTACHMENT);
    assert_eq!(plan.usage & COPY_DST, 0);
    assert!(plan.compatibility_mode);
}

#[test]
fn usage_with_copy_dst() {
    assert_eq!(select_usage(2), 18);
    assert_eq!(select_usage(31), 18);
    let plan = plan_surface(&caps(vec![ColorFormat::Rgba8Unorm], 2 | 16), 10, 20).unwrap();
    assert_eq!(plan.usage, RENDER_ATTACHMENT | COPY_DST);
    assert!(!plan.compatibility_mode);
}

#[test]
fn first_present_and_alpha_modes_are_taken() {
    let plan = plan_surface(&caps(vec![ColorFormat::Bgra8Unorm, ColorFormat::Rgba8Unorm], 18), 3, 4).unwrap();
    assert_eq!(plan.present_mode, Present::Mailbox);
    assert_eq!(plan.alpha_mode, Alpha::PreMultiplied);
    let single = SurfaceCaps {
        formats: vec![ColorFormat::Rgba8Unorm],
        usages: 16,
        present_modes: vec![Present::Immediate],
        alpha_modes: vec![Alpha::Opaque],
    };
    let plan = plan_surface(&single, 3, 4).unwrap();
    assert_eq!(plan.present_mode, Present::Immediate);
    assert_eq!(plan.alpha_mode, Alpha::Opaque);
}

#[test]
fn size_latency_and_view_formats() {
    let plan = plan_surface(&caps(vec![ColorFormat::Rgba8Unorm], 18), 1920, 1080).unwrap();
    assert_eq!(plan.width, 1920);
    assert_eq!(plan.height, 1080);
    assert_eq!(plan.frame_latency, 2);
    assert_eq!(FRAME_LATENCY, 2);
    assert!(plan.view_formats.is_empty());
    assert_eq!(plan.format, ColorFormat::Rgba8Unorm);
}

#[test]
fn largest_size_is_kept() {
    let plan = plan_surface(&caps(vec![ColorFormat::Rgba8Unorm], 18), u32::MAX, 0).unwrap();
    assert_eq!(plan.width, u32::MAX);
    assert_eq!(plan.height, 0);
}
