use interphace::capabilities::{bind, BindError, Globals};
use interphace::geometry::Size;
use interphace::gpu::{
    bind_context, negotiate_context, select_config, ApiProfile, CanvasFate, ContextError,
    DriverCaps, GpuConfig, API_GLES2, API_GLES3, API_OPENGL,
};

fn all_globals() -> Globals {
    Globals {
        compositor: true,
        window_shell: true,
        layer_shell: true,
        seat: true,
        output: true,
    }
}

#[test]
fn bind_succeeds_with_required_extensions() {
    let caps = bind(all_globals()).unwrap();
    assert!(caps.seat);
    assert!(caps.output);
}

#[test]
fn bind_reports_optional_extensions_absent() {
    let mut globals = all_globals();
    globals.seat = false;
    globals.output = false;
    let caps = bind(globals).unwrap();
    assert!(!caps.seat);
    assert!(!caps.output);
}

#[test]
fn bind_fails_without_compositor() {
    let mut globals = all_globals();
    globals.compositor = false;
    assert_eq!(bind(globals), Err(BindError::CompositorMissing));
}

#[test]
fn bind_fails_without_window_shell() {
    let mut globals = all_globals();
    globals.window_shell = false;
    assert_eq!(bind(globals), Err(BindError::WindowShellMissing));
}

#[test]
fn bind_fails_without_layer_shell() {
    let mut globals = all_globals();
    globals.layer_shell = false;
    assert_eq!(bind(globals), Err(BindError::LayerShellMissing));
}

fn window_config(api_mask: u32) -> GpuConfig {
    GpuConfig {
        window_surface: true,
        api_mask,
        sample_count: 4,
        stencil_bits: 8,
    }
}

#[test]
fn select_config_picks_first_compatible() {
    let offscreen = GpuConfig {
        window_surface: false,
        api_mask: API_OPENGL,
        sample_count: 0,
        stencil_bits: 0,
    };
    let no_api = GpuConfig {
        window_surface: true,
        api_mask: 0,
        sample_count: 0,
        stencil_bits: 0,
    };
    let configs = vec![offscreen, no_api, window_config(API_GLES2), window_config(API_GLES3)];
    assert_eq!(select_config(&configs), Some(2));
}

#[test]
fn select_config_rejects_incompatible_lists() {
    let configs = vec![
        GpuConfig {
            window_surface: false,
            api_mask: API_OPENGL | API_GLES2 | API_GLES3,
            sample_count: 0,
            stencil_bits: 0,
        },
        GpuConfig {
            window_surface: true,
            api_mask: 0,
            sample_count: 0,
            stencil_bits: 0,
        },
    ];
    assert_eq!(select_config(&configs), None);
    assert_eq!(select_config(&Vec::new()), None);
}

#[test]
fn negotiation_grants_desktop_on_first_attempt() {
    let n = negotiate_context(&DriverCaps { accepts_desktop: true, accepts_es: true });
    assert_eq!(n.granted, Some(ApiProfile::Desktop));
    assert_eq!(n.attempts, 1);
}

#[test]
fn negotiation_falls_back_to_es_exactly_once() {
    let n = negotiate_context(&DriverCaps { accepts_desktop: false, accepts_es: true });
    assert_eq!(n.granted, Some(ApiProfile::Es));
    assert_eq!(n.attempts, 2);
}

#[test]
fn negotiation_never_issues_a_third_request() {
    let n = negotiate_context(&DriverCaps { accepts_desktop: false, accepts_es: false });
    assert_eq!(n.granted, None);
    assert_eq!(n.attempts, 2);
}

#[test]
fn bind_context_checks_liveness_first() {
    let configs = vec![window_config(API_OPENGL)];
    let driver = DriverCaps { accepts_desktop: true, accepts_es: true };
    let size = Size { width: 256, height: 256 };
    assert_eq!(
        bind_context(false, &configs, &driver, size),
        Err(ContextError::ConnectionClosed)
    );
}

#[test]
fn bind_context_fails_without_compatible_config() {
    let configs: Vec<GpuConfig> = Vec::new();
    let driver = DriverCaps { accepts_desktop: true, accepts_es: true };
    let size = Size { width: 256, height: 256 };
    assert_eq!(
        bind_context(true, &configs, &driver, size),
        Err(ContextError::NoCompatibleConfig)
    );
}

#[test]
fn bind_context_fails_when_both_profiles_rejected() {
    let configs = vec![window_config(API_OPENGL | API_GLES2)];
    let driver = DriverCaps { accepts_desktop: false, accepts_es: false };
    let size = Size { width: 256, height: 256 };
    assert_eq!(
        bind_context(true, &configs, &driver, size),
        Err(ContextError::ContextRejected)
    );
}

#[test]
fn bind_context_carries_chosen_config_properties() {
    let other = GpuConfig {
        window_surface: false,
        api_mask: API_OPENGL,
        sample_count: 16,
        stencil_bits: 16,
    };
    let configs = vec![other, window_config(API_OPENGL | API_GLES2)];
    let driver = DriverCaps { accepts_desktop: false, accepts_es: true };
    let size = Size { width: 640, height: 480 };
    let ctx = bind_context(true, &configs, &driver, size).unwrap();
    assert_eq!(ctx.profile, ApiProfile::Es);
    assert_eq!(ctx.sample_count, 4);
    assert_eq!(ctx.stencil_bits, 8);
    assert_eq!(ctx.target, size);
    assert_eq!(ctx.canvas.size, size);
    assert_eq!(ctx.canvas.sample_count, 4);
    assert_eq!(ctx.canvas.stencil_bits, 8);
}

#[test]
fn resize_to_same_size_keeps_canvas() {
    let configs = vec![window_config(API_OPENGL)];
    let driver = DriverCaps { accepts_desktop: true, accepts_es: false };
    let size = Size { width: 300, height: 200 };
    let mut ctx = bind_context(true, &configs, &driver, size).unwrap();
    let before = ctx.canvas;
    let fate = ctx.resize(Size { width: 300, height: 200 });
    assert_eq!(fate, CanvasFate::Kept);
    assert_eq!(ctx.canvas, before);
    assert_eq!(ctx.target, size);
}

#[test]
fn resize_to_new_size_recreates_canvas() {
    let configs = vec![window_config(API_OPENGL)];
    let driver = DriverCaps { accepts_desktop: true, accepts_es: false };
    let mut ctx = bind_context(true, &configs, &driver, Size { width: 300, height: 200 }).unwrap();
    let fate = ctx.resize(Size { width: 301, height: 200 });
    assert_eq!(fate, CanvasFate::Recreated);
    assert_eq!(ctx.target, Size { width: 301, height: 200 });
    assert_eq!(ctx.canvas.size, Size { width: 301, height: 200 });
    assert_eq!(ctx.canvas.sample_count, 4);
    assert_eq!(ctx.canvas.stencil_bits, 8);
}
