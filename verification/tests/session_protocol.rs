//! The shared-environment session protocol, the page geometry of the
//! native adapters, and the legacy command lines.

use sitro::Backend;
use sitro::RenderError;
use sitro::RenderOptions;
use sitro::exec_args;
use sitro::exec_outcome;
use sitro::fresh_workspace_name;
use sitro::geometry::rotated_extent;
use sitro::geometry::scaled_pixels;
use sitro::geometry::page_pixel_size;
use sitro::legacy::mupdf_cli_args;
use sitro::legacy::pdfbox_cli_args;
use sitro::legacy::pdfium_cli_args;
use sitro::legacy::pdfjs_cli_args;
use sitro::legacy::quartz_cli_args;
use sitro::legacy::xpdf_cli_args;
use sitro::session::ProbeVerdict;
use sitro::session::ReadinessProbe;
use sitro::session::bootstrap_args;
use sitro::session::container_workspace_path;
use sitro::session::default_environment_image;
use sitro::session::input_file_name;
use sitro::session::mount_arg;
use sitro::session::resolve_environment_image;
use sitro::session::trim_ascii_whitespace;

#[test]
fn trimming_readiness_output() {
    assert_eq!(trim_ascii_whitespace(b"  abc123\n"), b"abc123".to_vec());
    assert_eq!(trim_ascii_whitespace(b"\r\n\t x \r\n"), b"x".to_vec());
    assert_eq!(trim_ascii_whitespace(b"id"), b"id".to_vec());
    assert_eq!(trim_ascii_whitespace(b"   \n\t"), Vec::<u8>::new());
    assert_eq!(trim_ascii_whitespace(b""), Vec::<u8>::new());
}

#[test]
fn readiness_probe_protocol() {
    let mut probe = ReadinessProbe::new(3);
    match probe.observe(b"\n") {
        ProbeVerdict::RetryLater => {}
        _ => panic!("expected a retry"),
    }
    assert_eq!(probe.attempts_left, 2);
    match probe.observe(b"  4fe2a1c9b0d8  \n") {
        ProbeVerdict::Ready(id) => assert_eq!(id, b"4fe2a1c9b0d8".to_vec()),
        _ => panic!("expected readiness"),
    }
    assert_eq!(probe.attempts_left, 2);

    let mut last = ReadinessProbe::new(1);
    match last.observe(b"") {
        ProbeVerdict::GiveUp => {}
        _ => panic!("expected the budget to be exhausted"),
    }
    assert_eq!(last.attempts_left, 0);
}

#[test]
fn environment_image_resolution() {
    assert_eq!(default_environment_image(), "vallaris/sitro-backends:latest");
    assert_eq!(resolve_environment_image(None), "vallaris/sitro-backends:latest");
    assert_eq!(
        resolve_environment_image(Some("example/backends:2".to_string())),
        "example/backends:2"
    );
}

#[test]
fn bootstrap_command_surface() {
    let args = bootstrap_args("/tmp/sitro-root", "vallaris/sitro-backends:latest");
    assert_eq!(
        args,
        vec![
            "run".to_string(),
            "--rm".to_string(),
            "-i".to_string(),
            "--entrypoint".to_string(),
            "cat".to_string(),
            "-v".to_string(),
            "/tmp/sitro-root:/work".to_string(),
            "vallaris/sitro-backends:latest".to_string(),
        ]
    );
    assert_eq!(mount_arg("/data/ws"), "/data/ws:/work");
    assert_eq!(input_file_name(), "file.pdf");
}

#[test]
fn exec_command_surface() {
    let options = RenderOptions::new(1500);
    let args = exec_args("c0ffee", &Backend::Poppler, &options, "abc-123");
    assert_eq!(
        args,
        vec![
            "exec".to_string(),
            "c0ffee".to_string(),
            "/opt/bin/entrypoint.sh".to_string(),
            "poppler".to_string(),
            "1.5".to_string(),
            "/work/abc-123".to_string(),
        ]
    );
}

#[test]
fn workspace_names_are_fresh_and_well_formed() {
    let a = fresh_workspace_name();
    let b = fresh_workspace_name();
    assert_eq!(a.len(), 36);
    assert_eq!(b.len(), 36);
    for (i, c) in a.chars().enumerate() {
        if i == 8 || i == 13 || i == 18 || i == 23 {
            assert_eq!(c, '-');
        } else {
            assert!(c.is_ascii_hexdigit() && !c.is_ascii_uppercase());
        }
    }
    assert_ne!(a, b);
    assert_ne!(container_workspace_path(&a), container_workspace_path(&b));
    assert_eq!(container_workspace_path("abc"), "/work/abc");
}

#[test]
fn exec_outcome_reports_the_captured_diagnostics() {
    assert!(exec_outcome(true, "").is_ok());
    let e = exec_outcome(false, "boom").unwrap_err();
    assert!(matches!(e, RenderError::Execution(_)));
    assert_eq!(e.message(), "render failed: boom");
    assert!(!e.is_fatal());
    assert!(RenderError::SessionConstruction("gone".to_string()).is_fatal());
}

#[test]
fn rotation_swaps_quarter_turns_only() {
    assert_eq!(rotated_extent(612_000, 792_000, 0), (612_000, 792_000));
    assert_eq!(rotated_extent(612_000, 792_000, 90), (792_000, 612_000));
    assert_eq!(rotated_extent(612_000, 792_000, 180), (612_000, 792_000));
    assert_eq!(rotated_extent(612_000, 792_000, 270), (792_000, 612_000));
    assert_eq!(rotated_extent(612_000, 792_000, -90), (792_000, 612_000));
    assert_eq!(rotated_extent(612_000, 792_000, -180), (612_000, 792_000));
    assert_eq!(rotated_extent(612_000, 792_000, -270), (792_000, 612_000));
    assert_eq!(rotated_extent(612_000, 792_000, 45), (612_000, 792_000));
}

#[test]
fn pixel_sizes_scale_and_round_up() {
    // A US-letter page: 612 x 792 points.
    assert_eq!(scaled_pixels(612_000, 1000), 612);
    assert_eq!(scaled_pixels(612_000, 2000), 1224);
    assert_eq!(scaled_pixels(612_000, 1500), 918);
    // 612 x 0.25 = 153 exactly; 612 x 1.001 rounds up.
    assert_eq!(scaled_pixels(612_000, 250), 153);
    assert_eq!(scaled_pixels(612_000, 1001), 613);
    assert_eq!(scaled_pixels(0, 1000), 0);
}

#[test]
fn doubling_the_scale_doubles_the_dimensions() {
    let base = RenderOptions::new(1000);
    let doubled = RenderOptions::new(2000);
    let (w1, h1) = page_pixel_size(612_000, 792_000, 0, &base).unwrap();
    let (w2, h2) = page_pixel_size(612_000, 792_000, 0, &doubled).unwrap();
    assert_eq!((w2, h2), (2 * w1, 2 * h1));
    // An odd extent rounds: the doubled size may fall one pixel short of
    // exactly double.
    let d1 = scaled_pixels(612_500, 1000);
    let d2 = scaled_pixels(612_500, 2000);
    assert_eq!(d1, 613);
    assert_eq!(d2, 1225);
    assert!(2 * d1 - 1 <= d2 && d2 <= 2 * d1);
}

#[test]
fn zero_sized_pages_are_hard_errors() {
    let options = RenderOptions::new(1000);
    let e = page_pixel_size(0, 792_000, 0, &options).unwrap_err();
    assert!(matches!(e, RenderError::NativeAdapter(_)));
    assert_eq!(e.message(), "invalid page dimensions");
    assert!(page_pixel_size(612_000, 0, 90, &options).is_err());
    assert!(page_pixel_size(612_000, 792_000, 90, &options).is_ok());
}

#[test]
fn legacy_command_lines() {
    let options = RenderOptions::new(1500);
    assert_eq!(
        pdfium_cli_args("/t/file.pdf", "/t/out-%d.png", &options),
        vec!["/t/file.pdf".to_string(), "/t/out-%d.png".to_string(), "1.5".to_string()]
    );
    assert_eq!(
        mupdf_cli_args("/t/file.pdf", "/t/out-%d.png", &options),
        vec![
            "draw".to_string(),
            "-r".to_string(),
            "108".to_string(),
            "-o".to_string(),
            "/t/out-%d.png".to_string(),
            "/t/file.pdf".to_string(),
        ]
    );
    assert_eq!(
        xpdf_cli_args("/t/file.pdf", "/t/", &options),
        vec![
            "-r".to_string(),
            "108".to_string(),
            "/t/file.pdf".to_string(),
            "/t/".to_string(),
        ]
    );
    assert_eq!(
        quartz_cli_args("/t/file.pdf", "/t/", &options),
        vec!["/t/file.pdf".to_string(), "/t/".to_string(), "1.5".to_string()]
    );
    assert_eq!(
        pdfjs_cli_args("/opt/pdfjs.js", "/t/file.pdf", "/t/", &options),
        vec![
            "/opt/pdfjs.js".to_string(),
            "/t/file.pdf".to_string(),
            "/t/".to_string(),
            "1.5".to_string(),
        ]
    );
    assert_eq!(
        pdfbox_cli_args("/opt/pdfbox.jar", "/t/file.pdf", &options),
        vec![
            "-jar".to_string(),
            "/opt/pdfbox.jar".to_string(),
            "render".to_string(),
            "-format".to_string(),
            "png".to_string(),
            "-i".to_string(),
            "/t/file.pdf".to_string(),
            "-dpi".to_string(),
            "108".to_string(),
        ]
    );
}

#[test]
fn execution_budget_counts_down_to_timeout() {
    let mut budget = sitro::session::ExecutionBudget::new(3);
    assert!(budget.tick());
    assert!(budget.tick());
    assert!(budget.tick());
    assert_eq!(budget.polls_left, 0);
    assert!(!budget.tick());
    assert!(!budget.tick());
}
