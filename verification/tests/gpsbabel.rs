use gpsami::devices::Capability;
use gpsami::drivers::{check_run, CommandLine, Driver, Error, ToolOutput};
use gpsami::gpsbabel::GpsBabel;
use gpsami::Format;

fn capability(can_erase: bool, can_erase_only: bool) -> Capability {
    Capability { can_erase, can_erase_only, can_log_enable: false, can_shutoff: false }
}

/// The program and its arguments, each in quotes, as a command shows itself.
fn shown(command: &CommandLine) -> String {
    let mut words = vec![format!("{:?}", command.program)];
    words.extend(command.args.iter().map(|arg| format!("{:?}", arg)));
    words.join(" ")
}

fn texts(args: &[&str]) -> Vec<String> {
    args.iter().map(|arg| arg.to_string()).collect()
}

#[test]
fn test_command_builder() {
    let command = GpsBabel::build_basic_command_line("foo", "ttyS0", false, false);
    assert_eq!(
        shown(&command),
        "\"gpsbabel\" \"-t\" \"-w\" \"-i\" \"foo\" \"-f\" \"ttyS0\""
    )
}

#[test]
fn test_format() {
    let result = GpsBabel::format_to_string(&Format::Gpx);
    assert!(result.is_some());
    assert_eq!(result, Some("gpx"));

    let result = GpsBabel::format_to_string(&Format::NoFormat);
    assert!(result.is_none());
}

#[test]
fn test_extensions() {
    let result = GpsBabel::format_to_extension(&Format::Gpx);
    assert!(result.is_some());
    assert_eq!(result, Some(".gpx"));

    let result = GpsBabel::format_to_string(&Format::NoFormat);
    assert!(result.is_none());
}

#[test]
fn command_names_program_and_arguments() {
    let command = GpsBabel::build_basic_command_line("foo", "ttyS0", false, false);
    assert_eq!(command.program, "gpsbabel");
    assert_eq!(command.args, texts(&["-t", "-w", "-i", "foo", "-f", "ttyS0"]));
}

#[test]
fn command_with_erase_after_download() {
    let command = GpsBabel::build_basic_command_line("foo", "ttyS0", true, false);
    assert_eq!(command.args, texts(&["-t", "-w", "-i", "foo,erase", "-f", "ttyS0"]));
}

#[test]
fn command_with_erase_only() {
    let command = GpsBabel::build_basic_command_line("foo", "ttyS0", false, true);
    assert_eq!(command.args, texts(&["-t", "-w", "-i", "foo,erase_only", "-f", "ttyS0"]));
}

#[test]
fn format_mapping_is_gpx_kml_or_nothing() {
    assert_eq!(GpsBabel::format_to_string(&Format::Gpx), Some("gpx"));
    assert_eq!(GpsBabel::format_to_extension(&Format::Gpx), Some(".gpx"));
    assert_eq!(GpsBabel::format_to_string(&Format::Kml), Some("kml"));
    assert_eq!(GpsBabel::format_to_extension(&Format::Kml), Some(".kml"));
    assert_eq!(GpsBabel::format_to_string(&Format::NoFormat), None);
    assert_eq!(GpsBabel::format_to_extension(&Format::NoFormat), None);
}

#[test]
fn open_needs_a_port() {
    let with_port = GpsBabel::new("m241".to_string(), "/dev/ttyACM0", capability(true, true));
    assert!(with_port.open());
    assert!(with_port.close());
    let without_port = GpsBabel::new("m241".to_string(), "", capability(true, true));
    assert!(!without_port.open());
    assert!(without_port.close());
}

#[test]
fn download_plans_the_command_and_the_output_file() {
    let driver = GpsBabel::new("m241".to_string(), "/dev/ttyACM0", capability(true, true));
    let tempdir = std::path::Path::new("/tmp").join("gpsami-test");
    let expected = tempdir.join("gpsami.gpx").to_str().unwrap().to_string();

    let download = driver.download(Format::Gpx, false, tempdir.to_str().unwrap()).unwrap();
    assert_eq!(download.output, expected);
    assert_ne!(download.output, tempdir.to_str().unwrap());
    assert_eq!(download.command.program, "gpsbabel");
    assert_eq!(
        download.command.args,
        texts(&["-t", "-w", "-i", "m241", "-f", "/dev/ttyACM0", "-o", "gpx", "-F", &expected])
    );
}

#[test]
fn download_with_erase_and_kml() {
    let driver = GpsBabel::new("mtk".to_string(), "/dev/rfcomm0", capability(true, false));
    let download = driver.download(Format::Kml, true, "/tmp/work").unwrap();
    assert_eq!(download.output, "/tmp/work/gpsami.kml");
    assert_eq!(
        download.command.args,
        texts(&[
            "-t",
            "-w",
            "-i",
            "mtk,erase",
            "-f",
            "/dev/rfcomm0",
            "-o",
            "kml",
            "-F",
            "/tmp/work/gpsami.kml"
        ])
    );
}

#[test]
fn download_with_erase_is_unsupported_without_the_capability() {
    let driver = GpsBabel::new("m241".to_string(), "/dev/ttyACM0", capability(false, true));
    assert!(matches!(driver.download(Format::Gpx, true, "/tmp/work"), Err(Error::Unsupported)));
    assert!(matches!(driver.download(Format::Kml, true, "/tmp/work"), Err(Error::Unsupported)));
    // the capability is looked at before the format
    assert!(matches!(
        driver.download(Format::NoFormat, true, "/tmp/work"),
        Err(Error::Unsupported)
    ));
    assert!(driver.download(Format::Gpx, false, "/tmp/work").is_ok());
}

#[test]
fn download_of_no_format_is_a_wrong_argument() {
    let driver = GpsBabel::new("m241".to_string(), "/dev/ttyACM0", capability(true, true));
    assert!(matches!(driver.download(Format::NoFormat, false, "/tmp/work"), Err(Error::WrongArg)));
    assert!(matches!(driver.download(Format::NoFormat, true, "/tmp/work"), Err(Error::WrongArg)));
}

#[test]
fn erase_plans_the_erase_only_command() {
    let driver = GpsBabel::new("m241".to_string(), "/dev/ttyACM0", capability(false, true));
    let command = driver.erase().unwrap();
    assert_eq!(command.program, "gpsbabel");
    assert_eq!(command.args, texts(&["-t", "-w", "-i", "m241,erase_only", "-f", "/dev/ttyACM0"]));
}

#[test]
fn erase_is_unsupported_without_the_capability() {
    let driver = GpsBabel::new("m241".to_string(), "/dev/ttyACM0", capability(true, false));
    assert!(matches!(driver.erase(), Err(Error::Unsupported)));
}

#[test]
fn holux_may_erase_but_not_erase_after_download() {
    let holux =
        Capability { can_erase: false, can_erase_only: true, can_log_enable: true, can_shutoff: false };
    let driver = GpsBabel::new("m241".to_string(), "/dev/ttyUSB0", holux);
    assert!(driver.erase().is_ok());
    assert!(matches!(driver.download(Format::Gpx, true, "/tmp/work"), Err(Error::Unsupported)));
}

#[test]
fn a_run_that_exits_with_zero_is_good() {
    let run = Ok(ToolOutput { success: true, stderr: "a warning".to_string() });
    assert!(matches!(check_run(run), Ok(())));
}

#[test]
fn a_run_that_exits_with_nonzero_has_failed_with_its_standard_error() {
    let run = Ok(ToolOutput { success: false, stderr: "no such device\n".to_string() });
    match check_run(run) {
        Err(Error::Failed(message)) => assert_eq!(message, "no such device\n"),
        other => panic!("{:?}", other),
    }
}

#[test]
fn a_run_that_could_not_start_is_an_io_error() {
    let run = Err("No such file or directory (os error 2)".to_string());
    match check_run(run) {
        Err(Error::Io(message)) => assert_eq!(message, "No such file or directory (os error 2)"),
        other => panic!("{:?}", other),
    }
}

#[test]
fn error_messages() {
    assert_eq!(Error::Unsupported.message(), "Unsupported");
    assert_eq!(Error::NoDriver.message(), "No driver");
    assert_eq!(Error::Cancelled.message(), "Cancelled");
    assert_eq!(Error::WrongArg.message(), "Incorrect argument");
    assert_eq!(Error::Failed("boom".to_string()).message(), "Failed: boom");
    assert_eq!(Error::Io("gone".to_string()).message(), "IO error gone");
}
