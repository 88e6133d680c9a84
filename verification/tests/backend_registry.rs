//! The backend registry, render options and decimal text.

use sitro::Backend;
use sitro::ExecutionMode;
use sitro::RenderOptions;
use sitro::decimal::decimal_string;
use sitro::decimal::parse_decimal;

#[test]
fn backend_names() {
    assert_eq!(Backend::Pdfium.name(), "pdfium");
    assert_eq!(Backend::Mupdf.name(), "mupdf");
    assert_eq!(Backend::Poppler.name(), "poppler");
    assert_eq!(Backend::Quartz.name(), "quartz");
    assert_eq!(Backend::Pdfjs.name(), "pdfjs");
    assert_eq!(Backend::Pdfbox.name(), "pdfbox");
    assert_eq!(Backend::Ghostscript.name(), "ghostscript");
    assert_eq!(Backend::Hayro.name(), "hayro");
    assert_eq!(Backend::Serenity.name(), "serenity");
}

#[test]
fn backend_colors() {
    assert_eq!(Backend::Pdfium.color(), (79, 184, 35));
    assert_eq!(Backend::Mupdf.color(), (34, 186, 184));
    assert_eq!(Backend::Poppler.color(), (227, 137, 20));
    assert_eq!(Backend::Quartz.color(), (234, 250, 60));
    assert_eq!(Backend::Pdfjs.color(), (48, 17, 207));
    assert_eq!(Backend::Pdfbox.color(), (237, 38, 98));
    assert_eq!(Backend::Ghostscript.color(), (235, 38, 218));
    assert_eq!(Backend::Hayro.color(), (57, 212, 116));
    assert_eq!(Backend::Serenity.color(), (148, 87, 235));
}

#[test]
fn backend_execution_modes() {
    assert_eq!(Backend::Quartz.execution_mode(), ExecutionMode::Native);
    assert_eq!(Backend::Hayro.execution_mode(), ExecutionMode::Native);
    assert_eq!(Backend::Pdfium.execution_mode(), ExecutionMode::SharedEnvironment);
    assert_eq!(Backend::Mupdf.execution_mode(), ExecutionMode::SharedEnvironment);
    assert_eq!(Backend::Poppler.execution_mode(), ExecutionMode::SharedEnvironment);
    assert_eq!(Backend::Pdfjs.execution_mode(), ExecutionMode::SharedEnvironment);
    assert_eq!(Backend::Pdfbox.execution_mode(), ExecutionMode::SharedEnvironment);
    assert_eq!(Backend::Ghostscript.execution_mode(), ExecutionMode::SharedEnvironment);
    assert_eq!(Backend::Serenity.execution_mode(), ExecutionMode::SharedEnvironment);
}

#[test]
fn default_options_render_at_native_size() {
    let options = RenderOptions::default();
    assert_eq!(options.scale_milli, 1000);
    assert_eq!(options.scale_text(), "1");
}

#[test]
fn scale_text_trims_fractions() {
    assert_eq!(RenderOptions::new(1000).scale_text(), "1");
    assert_eq!(RenderOptions::new(1500).scale_text(), "1.5");
    assert_eq!(RenderOptions::new(2000).scale_text(), "2");
    assert_eq!(RenderOptions::new(250).scale_text(), "0.25");
    assert_eq!(RenderOptions::new(1050).scale_text(), "1.05");
    assert_eq!(RenderOptions::new(1005).scale_text(), "1.005");
    assert_eq!(RenderOptions::new(12_345).scale_text(), "12.345");
}

#[test]
fn dpi_text_is_seventy_two_times_scale() {
    assert_eq!(RenderOptions::new(1000).dpi_text(), "72");
    assert_eq!(RenderOptions::new(1500).dpi_text(), "108");
    assert_eq!(RenderOptions::new(2000).dpi_text(), "144");
    assert_eq!(RenderOptions::new(500).dpi_text(), "36");
    assert_eq!(RenderOptions::new(250).dpi_text(), "18");
    assert_eq!(RenderOptions::new(1250).dpi_text(), "90");
}

#[test]
fn decimal_rendering() {
    assert_eq!(decimal_string(0), "0");
    assert_eq!(decimal_string(7), "7");
    assert_eq!(decimal_string(10), "10");
    assert_eq!(decimal_string(12045), "12045");
    assert_eq!(decimal_string(u64::MAX), "18446744073709551615");
}

#[test]
fn decimal_parsing() {
    assert_eq!(parse_decimal(b"0"), Some(0));
    assert_eq!(parse_decimal(b"123"), Some(123));
    assert_eq!(parse_decimal(b"007"), Some(7));
    assert_eq!(parse_decimal(b"18446744073709551615"), Some(u64::MAX));
    assert_eq!(parse_decimal(b""), None);
    assert_eq!(parse_decimal(b"12a"), None);
    assert_eq!(parse_decimal(b"-3"), None);
    assert_eq!(parse_decimal(b"18446744073709551616"), None);
    assert_eq!(parse_decimal(b"99999999999999999999999"), None);
}
