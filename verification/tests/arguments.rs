use drawio_exporter::ExportArguments;
use drawio_exporter::os_default_application;

fn minimal_arguments() -> ExportArguments {
    ExportArguments {
        recursive: false,
        output: None,
        input: String::from("diagram.drawio"),
        format: String::from("pdf"),
        border: String::from("0"),
        scale: None,
        width: None,
        height: None,
        crop: false,
        embed_diagram: false,
        transparent: false,
        quality: String::from("90"),
        uncompressed: false,
        all_pages: false,
        page_index: None,
        page_range: None,
        embed_svg_images: false,
        enable_plugins: false,
        raw: None,
    }
}

fn full_arguments() -> ExportArguments {
    ExportArguments {
        recursive: true,
        output: Some(String::from("out dir/result.pdf")),
        input: String::from("in dir/diagram.drawio"),
        format: String::from("png"),
        border: String::from("5"),
        scale: Some(String::from("2")),
        width: Some(String::from("800")),
        height: Some(String::from("600")),
        crop: true,
        embed_diagram: true,
        transparent: true,
        quality: String::from("75"),
        uncompressed: true,
        all_pages: true,
        page_index: Some(String::from("3")),
        page_range: Some(String::from("1..2")),
        embed_svg_images: true,
        enable_plugins: true,
        raw: Some(String::from("--extra-flag")),
    }
}

#[test]
fn renders_minimal_configuration() {
    let rendered = minimal_arguments().as_shell_arguments();
    let expected = vec![
        String::from("--export"),
        String::from("--format"),
        String::from("pdf"),
        String::from("--quality"),
        String::from("90"),
        String::from("--border"),
        String::from("0"),
        String::from("diagram.drawio"),
    ];
    assert_eq!(rendered, expected);
}

#[test]
fn renders_full_configuration_in_fixed_order() {
    let rendered = full_arguments().as_shell_arguments();
    let expected = vec![
        String::from("--export"),
        String::from("--recursive"),
        String::from("--extra-flag"),
        String::from("--output"),
        String::from("out dir/result.pdf"),
        String::from("--format"),
        String::from("png"),
        String::from("--quality"),
        String::from("75"),
        String::from("--transparent"),
        String::from("--embed-diagram"),
        String::from("--border"),
        String::from("5"),
        String::from("--scale"),
        String::from("2"),
        String::from("--width"),
        String::from("800"),
        String::from("--height"),
        String::from("600"),
        String::from("--crop"),
        String::from("--all-pages"),
        String::from("--page-index"),
        String::from("3"),
        String::from("--page-range"),
        String::from("1..2"),
        String::from("--uncompressed"),
        String::from("--embed-svg-images"),
        String::from("--enable-plugins"),
        String::from("in dir/diagram.drawio"),
    ];
    assert_eq!(rendered, expected);
}

#[test]
fn input_is_always_the_last_token() {
    let minimal = minimal_arguments().as_shell_arguments();
    assert_eq!(minimal.last().unwrap(), "diagram.drawio");

    let full = full_arguments().as_shell_arguments();
    assert_eq!(full.last().unwrap(), "in dir/diagram.drawio");

    let mut odd = minimal_arguments();
    odd.input = String::from("a path with spaces.drawio");
    odd.all_pages = true;
    let rendered = odd.as_shell_arguments();
    assert_eq!(rendered.last().unwrap(), "a path with spaces.drawio");
}

#[test]
fn raw_flag_stands_before_structured_flags() {
    let mut arguments = minimal_arguments();
    arguments.raw = Some(String::from("--disable-acceleration"));
    arguments.output = Some(String::from("out.pdf"));
    let rendered = arguments.as_shell_arguments();
    let expected = vec![
        String::from("--export"),
        String::from("--disable-acceleration"),
        String::from("--output"),
        String::from("out.pdf"),
        String::from("--format"),
        String::from("pdf"),
        String::from("--quality"),
        String::from("90"),
        String::from("--border"),
        String::from("0"),
        String::from("diagram.drawio"),
    ];
    assert_eq!(rendered, expected);
}

#[test]
fn default_application_paths_per_platform() {
    assert_eq!(
        os_default_application("macos"),
        "/Applications/draw.io.app/Contents/MacOS/draw.io"
    );
    assert_eq!(
        os_default_application("windows"),
        "C:\\Program Files\\draw.io\\draw.io.exe"
    );
    assert_eq!(os_default_application("linux"), "/opt/drawio/drawio");
    assert_eq!(os_default_application("freebsd"), "");
}
