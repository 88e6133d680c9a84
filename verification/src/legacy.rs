//! Command lines of the legacy per-binary backends.
//!
//! Before the shared environment existed, each backend was a separately
//! installed program, found through its own configuration key and invoked
//! on a scratch directory. These builders fix each program's argument
//! conventions; the caller supplies the resolved binary and file paths and
//! runs the command.

use vstd::prelude::*;
use crate::options::RenderOptions;
use crate::options::spec_milli_text;

verus! {

/// The pdfium helper's arguments: input file, output template, scale.
pub fn pdfium_cli_args(input_path: &str, out_template: &str, options: &RenderOptions) -> (r: Vec<
    String,
>)
    ensures
        r@.len() == 3,
        r@[0]@ == input_path@,
        r@[1]@ == out_template@,
        r@[2]@ == spec_milli_text(options.scale_milli as nat),
{
    let mut args: Vec<String> = Vec::new();
    args.push(input_path.to_owned());
    args.push(out_template.to_owned());
    args.push(options.scale_text());
    args
}

/// mupdf's arguments: its draw subcommand at the scale's DPI, writing the
/// output template from the input file.
pub fn mupdf_cli_args(input_path: &str, out_template: &str, options: &RenderOptions) -> (r: Vec<
    String,
>)
    requires
        options.valid(),
    ensures
        r@.len() == 6,
        r@[0]@ == "draw"@,
        r@[1]@ == "-r"@,
        r@[2]@ == spec_milli_text((72 * options.scale_milli) as nat),
        r@[3]@ == "-o"@,
        r@[4]@ == out_template@,
        r@[5]@ == input_path@,
{
    let mut args: Vec<String> = Vec::new();
    args.push("draw".to_owned());
    args.push("-r".to_owned());
    args.push(options.dpi_text());
    args.push("-o".to_owned());
    args.push(out_template.to_owned());
    args.push(input_path.to_owned());
    args
}

/// xpdf's arguments: the scale's DPI, the input file, the output
/// directory.
pub fn xpdf_cli_args(input_path: &str, out_dir: &str, options: &RenderOptions) -> (r: Vec<String>)
    requires
        options.valid(),
    ensures
        r@.len() == 4,
        r@[0]@ == "-r"@,
        r@[1]@ == spec_milli_text((72 * options.scale_milli) as nat),
        r@[2]@ == input_path@,
        r@[3]@ == out_dir@,
{
    let mut args: Vec<String> = Vec::new();
    args.push("-r".to_owned());
    args.push(options.dpi_text());
    args.push(input_path.to_owned());
    args.push(out_dir.to_owned());
    args
}

/// The quartz helper's arguments: input file, output directory, scale.
pub fn quartz_cli_args(input_path: &str, out_dir: &str, options: &RenderOptions) -> (r: Vec<
    String,
>)
    ensures
        r@.len() == 3,
        r@[0]@ == input_path@,
        r@[1]@ == out_dir@,
        r@[2]@ == spec_milli_text(options.scale_milli as nat),
{
    let mut args: Vec<String> = Vec::new();
    args.push(input_path.to_owned());
    args.push(out_dir.to_owned());
    args.push(options.scale_text());
    args
}

/// The pdf.js driver's arguments for the node runtime: the driver script,
/// the input file, the output directory, the scale.
pub fn pdfjs_cli_args(
    script_path: &str,
    input_path: &str,
    out_dir: &str,
    options: &RenderOptions,
) -> (r: Vec<String>)
    ensures
        r@.len() == 4,
        r@[0]@ == script_path@,
        r@[1]@ == input_path@,
        r@[2]@ == out_dir@,
        r@[3]@ == spec_milli_text(options.scale_milli as nat),
{
    let mut args: Vec<String> = Vec::new();
    args.push(script_path.to_owned());
    args.push(input_path.to_owned());
    args.push(out_dir.to_owned());
    args.push(options.scale_text());
    args
}

/// pdfbox's arguments for the java runtime: its jar, the render
/// subcommand, PNG format, the input file and the scale's DPI.
pub fn pdfbox_cli_args(jar_path: &str, input_path: &str, options: &RenderOptions) -> (r: Vec<
    String,
>)
    requires
        options.valid(),
    ensures
        r@.len() == 9,
        r@[0]@ == "-jar"@,
        r@[1]@ == jar_path@,
        r@[2]@ == "render"@,
        r@[3]@ == "-format"@,
        r@[4]@ == "png"@,
        r@[5]@ == "-i"@,
        r@[6]@ == input_path@,
        r@[7]@ == "-dpi"@,
        r@[8]@ == spec_milli_text((72 * options.scale_milli) as nat),
{
    let mut args: Vec<String> = Vec::new();
    args.push("-jar".to_owned());
    args.push(jar_path.to_owned());
    args.push("render".to_owned());
    args.push("-format".to_owned());
    args.push("png".to_owned());
    args.push("-i".to_owned());
    args.push(input_path.to_owned());
    args.push("-dpi".to_owned());
    args.push(options.dpi_text());
    args
}

} // verus!
