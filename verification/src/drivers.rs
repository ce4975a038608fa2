//! Ports, driver descriptors, errors, and the contract every driver meets.
//!
//! A driver never runs anything itself. `download` and `erase` say which
//! command has to be run; the caller runs it off the coordinating thread and
//! hands what came of it to [`check_run`].

use crate::devices::Capability;
use crate::Format;
use vstd::prelude::*;
use vstd::string::StringExecFns;

verus! {

/// One host device node that may lead to the selected logger.
#[derive(Debug)]
pub struct Port {
    pub id: String,
    pub label: String,
    /// Path of the device node; paths are held as Unicode text.
    pub path: String,
}

pub struct PortView {
    pub id: Seq<char>,
    pub label: Seq<char>,
    pub path: Seq<char>,
}

impl View for Port {
    type V = PortView;

    open spec fn view(&self) -> PortView {
        PortView { id: self.id@, label: self.label@, path: self.path@ }
    }
}

impl DeepView for Port {
    type V = PortView;

    open spec fn deep_view(&self) -> PortView {
        self@
    }
}

/// The kind of host device node a logger may appear under.
#[derive(Copy, Clone, Debug, PartialEq, Eq, Structural)]
pub enum PortType {
    /// Matches no device at all.
    NoPort,
    UsbSerial,
    /// Bluetooth serial.
    RfComm,
}

/// Describes a driver: its id, and where to look for its devices.
#[derive(Clone, Debug)]
pub struct Desc {
    pub id: String,
    /// The port types to look for, in the order in which they are scanned.
    pub ports: Vec<PortType>,
}

pub struct DescView {
    pub id: Seq<char>,
    pub ports: Seq<PortType>,
}

impl View for Desc {
    type V = DescView;

    open spec fn view(&self) -> DescView {
        DescView { id: self.id@, ports: self.ports@ }
    }
}

impl DeepView for Desc {
    type V = DescView;

    open spec fn deep_view(&self) -> DescView {
        self@
    }
}

/// Why an operation did not succeed.
#[derive(Debug)]
pub enum Error {
    /// The device's capability does not permit the operation.
    Unsupported,
    /// No driver can be had for the current model and port.
    NoDriver,
    /// The user gave up while choosing where to save.
    Cancelled,
    /// The requested format is not one the tool can write.
    WrongArg,
    /// The tool ran and reported failure; holds what it wrote to standard error.
    Failed(String),
    /// The host could not run the tool or handle a file; holds the host's words.
    Io(String),
}

pub enum ErrorView {
    Unsupported,
    NoDriver,
    Cancelled,
    WrongArg,
    Failed(Seq<char>),
    Io(Seq<char>),
}

impl ErrorView {
    /// The text shown to the user for this error.
    pub open spec fn message(self) -> Seq<char> {
        match self {
            ErrorView::Unsupported => "Unsupported"@,
            ErrorView::NoDriver => "No driver"@,
            ErrorView::Cancelled => "Cancelled"@,
            ErrorView::WrongArg => "Incorrect argument"@,
            ErrorView::Failed(reason) => "Failed: "@ + reason,
            ErrorView::Io(reason) => "IO error "@ + reason,
        }
    }
}

impl View for Error {
    type V = ErrorView;

    open spec fn view(&self) -> ErrorView {
        match self {
            Error::Unsupported => ErrorView::Unsupported,
            Error::NoDriver => ErrorView::NoDriver,
            Error::Cancelled => ErrorView::Cancelled,
            Error::WrongArg => ErrorView::WrongArg,
            Error::Failed(reason) => ErrorView::Failed(reason@),
            Error::Io(reason) => ErrorView::Io(reason@),
        }
    }
}

impl DeepView for Error {
    type V = ErrorView;

    open spec fn deep_view(&self) -> ErrorView {
        self@
    }
}

impl Error {
    /// The text shown to the user for this error.
    pub fn message(&self) -> (text: String)
        ensures
            text@ == self@.message(),
    {
        match self {
            Error::Unsupported => "Unsupported".to_owned(),
            Error::NoDriver => "No driver".to_owned(),
            Error::Cancelled => "Cancelled".to_owned(),
            Error::WrongArg => "Incorrect argument".to_owned(),
            Error::Failed(reason) => {
                let mut text = "Failed: ".to_owned();
                text.append(reason.as_str());
                text
            },
            Error::Io(reason) => {
                let mut text = "IO error ".to_owned();
                text.append(reason.as_str());
                text
            },
        }
    }
}

/// The view of a `Result`: the view of whichever side it holds.
pub open spec fn result_view<T: View, E: View>(r: Result<T, E>) -> Result<T::V, E::V> {
    match r {
        Ok(value) => Ok(value@),
        Err(error) => Err(error@),
    }
}

/// A program and the arguments to run it with.
#[derive(Debug)]
pub struct CommandLine {
    pub program: String,
    pub args: Vec<String>,
}

pub struct CommandLineView {
    pub program: Seq<char>,
    pub args: Seq<Seq<char>>,
}

impl View for CommandLine {
    type V = CommandLineView;

    open spec fn view(&self) -> CommandLineView {
        CommandLineView { program: self.program@, args: self.args.deep_view() }
    }
}

impl DeepView for CommandLine {
    type V = CommandLineView;

    open spec fn deep_view(&self) -> CommandLineView {
        self@
    }
}

/// A download that has been decided on: the command to run, and the file
/// that the command will leave the track log in.
#[derive(Debug)]
pub struct Download {
    pub command: CommandLine,
    pub output: String,
}

pub struct DownloadView {
    pub command: CommandLineView,
    pub output: Seq<char>,
}

impl View for Download {
    type V = DownloadView;

    open spec fn view(&self) -> DownloadView {
        DownloadView { command: self.command@, output: self.output@ }
    }
}

impl DeepView for Download {
    type V = DownloadView;

    open spec fn deep_view(&self) -> DownloadView {
        self@
    }
}

/// What a command that ran to completion left behind.
#[derive(Debug)]
pub struct ToolOutput {
    /// Whether the exit status was zero.
    pub success: bool,
    /// What the command wrote to standard error.
    pub stderr: String,
}

pub struct ToolOutputView {
    pub success: bool,
    pub stderr: Seq<char>,
}

impl View for ToolOutput {
    type V = ToolOutputView;

    open spec fn view(&self) -> ToolOutputView {
        ToolOutputView { success: self.success, stderr: self.stderr@ }
    }
}

impl DeepView for ToolOutput {
    type V = ToolOutputView;

    open spec fn deep_view(&self) -> ToolOutputView {
        self@
    }
}

/// How a run is judged. `Err` holds the host's words when the command could
/// not be started or waited for; that is an I/O error. A command that ran and
/// exited with a status other than zero has failed, and its standard error
/// is the message.
pub open spec fn run_result(run: Result<ToolOutputView, Seq<char>>) -> Result<(), ErrorView> {
    match run {
        Err(reason) => Err(ErrorView::Io(reason)),
        Ok(output) => if output.success {
            Ok(())
        } else {
            Err(ErrorView::Failed(output.stderr))
        },
    }
}

/// Judges what came of running a command.
pub fn check_run(run: Result<ToolOutput, String>) -> (r: Result<(), Error>)
    ensures
        result_view(r) == run_result(result_view(run)),
{
    match run {
        Err(reason) => Err(Error::Io(reason)),
        Ok(output) => if output.success {
            Ok(())
        } else {
            Err(Error::Failed(output.stderr))
        },
    }
}

/// What every driver offers. `open` and `close` report coarse readiness and
/// never fail. `download` and `erase` decide, from the device's capability,
/// whether the operation may go ahead, and if so which command performs it.
pub trait Driver {
    /// The capability that this driver holds the device to.
    spec fn capability(&self) -> Capability;

    /// Whether the device can be talked to.
    spec fn ready(&self) -> bool;

    /// Whether the device lets go when closed.
    spec fn closes(&self) -> bool;

    /// What `download` answers.
    spec fn download_plan(&self, format: Format, erase: bool, tempdir: Seq<char>) -> Result<
        DownloadView,
        ErrorView,
    >;

    /// What `erase` answers.
    spec fn erase_plan(&self) -> Result<CommandLineView, ErrorView>;

    /// Open the device.
    fn open(&self) -> (ready: bool)
        ensures
            ready == self.ready(),
    ;

    /// Close the device.
    fn close(&self) -> (closed: bool)
        ensures
            closed == self.closes(),
    ;

    /// Plan a download of the track log in `format` into a file under
    /// `tempdir`, erasing the log afterwards if `erase` is set. A device that
    /// cannot erase after a download refuses the request.
    fn download(&self, format: Format, erase: bool, tempdir: &str) -> (r: Result<Download, Error>)
        ensures
            result_view(r) == self.download_plan(format, erase, tempdir@),
            erase && !self.capability().can_erase ==> r matches Err(Error::Unsupported),
    ;

    /// Plan erasing the track log. A device that cannot erase on its own
    /// refuses the request.
    fn erase(&self) -> (r: Result<CommandLine, Error>)
        ensures
            result_view(r) == self.erase_plan(),
            !self.capability().can_erase_only ==> r matches Err(Error::Unsupported),
    ;
}

} // verus!
