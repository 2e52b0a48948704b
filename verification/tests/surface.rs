use gtk_window::draw::ResizePlan;
use gtk_window::geometry::{PxSize, Real, Scale, ScaledArea};
use gtk_window::surface::{next_size, Content, SurfaceError, SurfaceOutcome};
use gtk_window::window::{SurfaceUse, WindowState};

fn number(x: f64) -> Real {
    Real { bits: x.to_bits() }
}

fn window(transparent: bool) -> WindowState {
    let scale = Scale { x: number(1.0), y: number(1.0) };
    let size_px = PxSize { width: 500, height: 400 };
    WindowState::new(scale, ScaledArea { size_px, scale }, transparent, None, None)
}

#[test]
fn small_sizes_round_to_multiples_of_32() {
    assert_eq!(next_size(0), 0);
    assert_eq!(next_size(1), 32);
    assert_eq!(next_size(32), 32);
    assert_eq!(next_size(33), 64);
    assert_eq!(next_size(65), 96);
    assert_eq!(next_size(100), 128);
    assert_eq!(next_size(127), 128);
}

#[test]
fn large_sizes_round_to_coarser_multiples() {
    assert_eq!(next_size(128), 128);
    assert_eq!(next_size(129), 192);
    assert_eq!(next_size(255), 256);
    assert_eq!(next_size(1000), 1024);
    assert_eq!(next_size(1025), 1536);
    assert_eq!(next_size(1920), 2048);
    assert_eq!(next_size(0x4000_0001), 0x6000_0000);
    assert_eq!(next_size(0x6000_0000), 0x6000_0000);
}

#[test]
fn negative_sizes_round_up_too() {
    assert_eq!(next_size(-1), 0);
    assert_eq!(next_size(-0x4000_0000), -0x4000_0000);
    assert_eq!(next_size(-0x4000_0001), -0x4000_0000);
    assert_eq!(next_size(i32::MIN), i32::MIN);
}

#[test]
fn rounding_follows_its_laws() {
    let mut last: i32 = 0;
    for x in 1..5000 {
        let r = next_size(x);
        assert!(x <= r);
        assert!(last <= r);
        assert_eq!(next_size(r), r);
        if x >= 64 {
            let accuracy = 1 << (30 - x.leading_zeros());
            assert_eq!(r % accuracy, 0);
            assert!(r - x < accuracy);
            assert!(2 * accuracy <= x && x < 4 * accuracy);
        } else {
            assert_eq!(r % 32, 0);
            assert!(r - x < 32);
        }
        last = r;
    }
}

#[test]
fn surface_is_made_once_for_a_size() {
    let mut w = window(false);
    let plan = w.resize_surface(500, 400);
    let size = PxSize { width: 512, height: 512 };
    assert_eq!(plan, ResizePlan::Recreate { finish_old: false, content: Content::Color, size });
    assert_eq!(w.surface_use, SurfaceUse::Exclusive);
    assert_eq!(w.finish_resize(SurfaceOutcome::Created), Ok(()));
    assert!(w.has_surface);
    assert_eq!(w.surface_size, size);
    assert_eq!(w.resize_surface(500, 400), ResizePlan::Keep);
    assert_eq!(w.resize_surface(512, 512), ResizePlan::Keep);
    assert_eq!(w.resize_surface(390, 510), ResizePlan::Keep);
    let larger = PxSize { width: 768, height: 512 };
    assert_eq!(
        w.resize_surface(513, 400),
        ResizePlan::Recreate { finish_old: true, content: Content::Color, size: larger }
    );
}

#[test]
fn transparent_windows_have_alpha() {
    let mut w = window(true);
    let size = PxSize { width: 32, height: 32 };
    assert_eq!(
        w.resize_surface(10, 20),
        ResizePlan::Recreate { finish_old: false, content: Content::ColorAlpha, size }
    );
}

#[test]
fn failed_surfaces_are_reported() {
    let mut w = window(false);
    w.resize_surface(100, 100);
    assert_eq!(w.finish_resize(SurfaceOutcome::Failed), Err(SurfaceError::CreateFailed));
    assert!(!w.has_surface);
    let size = PxSize { width: 128, height: 128 };
    assert_eq!(
        w.resize_surface(100, 100),
        ResizePlan::Recreate { finish_old: false, content: Content::Color, size }
    );
    assert_eq!(w.finish_resize(SurfaceOutcome::NoWindow), Err(SurfaceError::NoWindow));
    assert_eq!(SurfaceError::CreateFailed.message(), "create_similar_surface failed");
    assert_eq!(SurfaceError::NoWindow.message(), "drawing area has no window");
}

#[test]
fn reals_compare_as_numbers() {
    let values = [
        0.0,
        -0.0,
        1.0,
        -1.0,
        1.5,
        96.0,
        f64::INFINITY,
        f64::NEG_INFINITY,
        f64::NAN,
        -f64::NAN,
        f64::MIN_POSITIVE,
        f64::MAX,
    ];
    for a in values {
        for b in values {
            assert_eq!(number(a).equals(&number(b)), a == b, "{a} {b}");
            let left = Scale { x: number(a), y: number(2.0) };
            let right = Scale { x: number(b), y: number(2.0) };
            assert_eq!(left.equals(&right), a == b);
            let left = Scale { x: number(2.0), y: number(a) };
            let right = Scale { x: number(2.0), y: number(b) };
            assert_eq!(left.equals(&right), a == b);
        }
    }
}
