//! The steps of the work that a download or an erase is, as a worker takes
//! them off the coordinating thread.
//!
//! Between two steps stands something that only the host can do: make a
//! temporary directory, run a command, copy a file. The worker does that and
//! hands what came of it to the next step, the host's words for the failure
//! where it failed. A step that answers `Err` ends the work: that error is
//! the outcome which goes to the coordinator with the operation's end. A
//! download is `opened`, `download_planned`, `downloaded`, `copied`; an erase
//! is `erase_planned`, then `check_run`.

use crate::drivers::{
    check_run, result_view, run_result, CommandLine, CommandLineView, Download, DownloadView,
    Driver, Error, ErrorView, ToolOutput,
};
use crate::Format;
use std::path::PathBuf;
use vstd::prelude::*;

verus! {

/// What is said of a device that does not open, before it is put into the
/// language of the user.
pub const OPEN_FAILED: &'static str = "Open failed.";

/// A file to copy.
#[derive(Debug)]
pub struct FileCopy {
    pub from: String,
    pub to: PathBuf,
}

pub struct FileCopyView {
    pub from: Seq<char>,
    pub to: PathBuf,
}

impl View for FileCopy {
    type V = FileCopyView;

    open spec fn view(&self) -> FileCopyView {
        FileCopyView { from: self.from@, to: self.to }
    }
}

/// What opening a device comes to: nothing, or failure with the words given.
pub open spec fn open_result(ready: bool, open_failed: Seq<char>) -> Result<(), ErrorView> {
    if ready {
        Ok(())
    } else {
        Err(ErrorView::Failed(open_failed))
    }
}

/// The download planned once the temporary directory is there, or was to be.
/// Downloads are written as GPX.
pub open spec fn planned_download<D: Driver>(
    device: &D,
    erase: bool,
    tempdir: Result<Seq<char>, Seq<char>>,
) -> Result<DownloadView, ErrorView> {
    match tempdir {
        Ok(dir) => device.download_plan(Format::Gpx, erase, dir),
        Err(reason) => Err(ErrorView::Io(reason)),
    }
}

/// What is left to do once the command of a download has run: copy the file
/// it wrote to where the user wants it.
pub open spec fn download_result(
    pending: DownloadView,
    destination: PathBuf,
    run: Result<(), ErrorView>,
) -> Result<FileCopyView, ErrorView> {
    match run {
        Ok(_) => Ok(FileCopyView { from: pending.output, to: destination }),
        Err(error) => Err(error),
    }
}

/// The erase planned for a device, if the device opens.
pub open spec fn planned_erase<D: Driver>(device: &D, open_failed: Seq<char>) -> Result<
    CommandLineView,
    ErrorView,
> {
    match open_result(device.ready(), open_failed) {
        Ok(_) => device.erase_plan(),
        Err(error) => Err(error),
    }
}

/// First step of a download: open the device. A device that does not open
/// fails the download with the words `open_failed`.
pub fn opened<D: Driver>(device: &D, open_failed: &str) -> (r: Result<(), Error>)
    ensures
        result_view(r) == open_result(device.ready(), open_failed@),
{
    if device.open() {
        Ok(())
    } else {
        Err(Error::Failed(open_failed.to_owned()))
    }
}

/// Second step of a download: plan it into the temporary directory that was
/// made, whose path `tempdir` holds. Where none could be made, that is an
/// I/O error.
pub fn download_planned<D: Driver>(device: &D, erase: bool, tempdir: Result<String, String>) -> (r:
    Result<Download, Error>)
    ensures
        result_view(r) == planned_download(device, erase, result_view(tempdir)),
{
    match tempdir {
        Ok(dir) => device.download(Format::Gpx, erase, dir.as_str()),
        Err(reason) => Err(Error::Io(reason)),
    }
}

/// Third step of a download: judge the run of its command. After a good run
/// the file that was written is to be copied to `destination`.
pub fn downloaded(pending: Download, destination: PathBuf, run: Result<ToolOutput, String>) -> (r:
    Result<FileCopy, Error>)
    ensures
        result_view(r) == download_result(pending@, destination, run_result(result_view(run))),
{
    match check_run(run) {
        Ok(_) => Ok(FileCopy { from: pending.output, to: destination }),
        Err(error) => Err(error),
    }
}

/// Last step of a download: a copy that failed is an I/O error.
pub fn copied(copy: Result<(), String>) -> (r: Result<(), Error>)
    ensures
        result_view(r) == match copy {
            Ok(_) => Ok::<(), ErrorView>(()),
            Err(reason) => Err(ErrorView::Io(reason@)),
        },
{
    match copy {
        Ok(_) => Ok(()),
        Err(reason) => Err(Error::Io(reason)),
    }
}

/// First step of an erase: open the device and plan the erase. A device that
/// does not open fails the erase with the words `open_failed`.
pub fn erase_planned<D: Driver>(device: &D, open_failed: &str) -> (r: Result<CommandLine, Error>)
    ensures
        result_view(r) == planned_erase(device, open_failed@),
{
    if device.open() {
        device.erase()
    } else {
        Err(Error::Failed(open_failed.to_owned()))
    }
}

} // verus!
