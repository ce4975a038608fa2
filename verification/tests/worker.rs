use gpsami::devices::Capability;
use gpsami::drivers::{check_run, Error, ToolOutput};
use gpsami::gpsbabel::GpsBabel;
use std::path::PathBuf;
use gpsami::worker::{copied, download_planned, downloaded, erase_planned, opened, OPEN_FAILED};

fn driver(port: &str, can_erase: bool, can_erase_only: bool) -> GpsBabel {
    let capability =
        Capability { can_erase, can_erase_only, can_log_enable: false, can_shutoff: false };
    GpsBabel::new("m241".to_string(), port, capability)
}

#[test]
fn a_device_without_a_port_does_not_open() {
    let device = driver("", true, true);
    match opened(&device, OPEN_FAILED) {
        Err(Error::Failed(message)) => assert_eq!(message, "Open failed."),
        other => panic!("{:?}", other),
    }
    match erase_planned(&device, "Open failed.") {
        Err(Error::Failed(message)) => assert_eq!(message, "Open failed."),
        other => panic!("{:?}", other),
    }
    assert!(opened(&driver("/dev/ttyUSB0", true, true), "Open failed.").is_ok());
}

#[test]
fn downloads_are_planned_as_gpx_in_the_temporary_directory() {
    let device = driver("/dev/ttyUSB0", true, true);
    let download = download_planned(&device, true, Ok("/tmp/.tmpAbCdEf".to_string())).unwrap();
    assert_eq!(download.output, "/tmp/.tmpAbCdEf/gpsami.gpx");
    assert_eq!(
        download.command.args,
        vec![
            "-t",
            "-w",
            "-i",
            "m241,erase",
            "-f",
            "/dev/ttyUSB0",
            "-o",
            "gpx",
            "-F",
            "/tmp/.tmpAbCdEf/gpsami.gpx"
        ]
    );
}

#[test]
fn a_temporary_directory_that_could_not_be_made_is_an_io_error() {
    let device = driver("/dev/ttyUSB0", true, true);
    match download_planned(&device, false, Err("Read-only file system".to_string())) {
        Err(Error::Io(message)) => assert_eq!(message, "Read-only file system"),
        other => panic!("{:?}", other),
    }
}

#[test]
fn a_download_that_the_device_cannot_do_is_not_planned() {
    let device = driver("/dev/ttyUSB0", false, true);
    assert!(matches!(
        download_planned(&device, true, Ok("/tmp/work".to_string())),
        Err(Error::Unsupported)
    ));
}

#[test]
fn after_a_good_run_the_output_is_copied_to_the_destination() {
    let device = driver("/dev/ttyUSB0", true, true);
    let pending = download_planned(&device, false, Ok("/tmp/work".to_string())).unwrap();
    let run = Ok(ToolOutput { success: true, stderr: String::new() });
    let copy = downloaded(pending, PathBuf::from("/home/me/track.gpx"), run).unwrap();
    assert_eq!(copy.from, "/tmp/work/gpsami.gpx");
    assert_eq!(copy.to, PathBuf::from("/home/me/track.gpx"));
}

#[test]
fn after_a_bad_run_nothing_is_copied() {
    let device = driver("/dev/ttyUSB0", true, true);
    let pending = download_planned(&device, false, Ok("/tmp/work".to_string())).unwrap();
    let run = Ok(ToolOutput { success: false, stderr: "timeout".to_string() });
    match downloaded(pending, PathBuf::from("/home/me/track.gpx"), run) {
        Err(Error::Failed(message)) => assert_eq!(message, "timeout"),
        other => panic!("{:?}", other),
    }
    let pending = download_planned(&device, false, Ok("/tmp/work".to_string())).unwrap();
    match downloaded(pending, PathBuf::from("/home/me/track.gpx"), Err("not found".to_string())) {
        Err(Error::Io(message)) => assert_eq!(message, "not found"),
        other => panic!("{:?}", other),
    }
}

#[test]
fn a_copy_that_failed_is_an_io_error() {
    assert!(copied(Ok(())).is_ok());
    match copied(Err("disk full".to_string())) {
        Err(Error::Io(message)) => assert_eq!(message, "disk full"),
        other => panic!("{:?}", other),
    }
}

#[test]
fn an_erase_is_planned_and_its_run_judged() {
    let device = driver("/dev/ttyUSB0", false, true);
    let command = erase_planned(&device, "Open failed.").unwrap();
    assert_eq!(command.args, vec!["-t", "-w", "-i", "m241,erase_only", "-f", "/dev/ttyUSB0"]);
    assert!(check_run(Ok(ToolOutput { success: true, stderr: String::new() })).is_ok());

    let device = driver("/dev/ttyUSB0", true, false);
    assert!(matches!(erase_planned(&device, "Open failed."), Err(Error::Unsupported)));
}
