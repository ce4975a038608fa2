//! The driver that talks to a logger through the `gpsbabel` command-line tool.
//!
//! The tool is called as
//! `gpsbabel -t -w -i <device> -f <port> [-o <format> -F <output>]`, where
//! `<device>` is the driver id, followed by `,erase` to erase the log after a
//! download or by `,erase_only` to erase it without one.

use crate::devices::Capability;
use crate::drivers::{CommandLine, CommandLineView, Download, DownloadView, Driver, Error, ErrorView};
use crate::Format;
use vstd::prelude::*;
use vstd::string::StringExecFns;

verus! {

/// The code by which the tool knows a format, if it can write it.
pub open spec fn format_code(format: Format) -> Option<Seq<char>> {
    match format {
        Format::Gpx => Some("gpx"@),
        Format::Kml => Some("kml"@),
        Format::NoFormat => None,
    }
}

/// The file extension, dot included, of a format the tool can write.
pub open spec fn format_extension(format: Format) -> Option<Seq<char>> {
    match format {
        Format::Gpx => Some(".gpx"@),
        Format::Kml => Some(".kml"@),
        Format::NoFormat => None,
    }
}

/// The device argument: the driver id and, after a comma, what to erase.
pub open spec fn device_spec(device_id: Seq<char>, erase: bool, erase_only: bool) -> Seq<char> {
    if erase {
        device_id + ",erase"@
    } else if erase_only {
        device_id + ",erase_only"@
    } else {
        device_id
    }
}

/// The command line that every operation starts from.
pub open spec fn basic_command_line(
    device_id: Seq<char>,
    port: Seq<char>,
    erase: bool,
    erase_only: bool,
) -> CommandLineView {
    CommandLineView {
        program: "gpsbabel"@,
        args: seq!["-t"@, "-w"@, "-i"@, device_spec(device_id, erase, erase_only), "-f"@, port],
    }
}

/// The command line of a download: the basic one, then the format to write
/// and the file to write it to.
pub open spec fn download_command_line(
    device_id: Seq<char>,
    port: Seq<char>,
    erase: bool,
    code: Seq<char>,
    output: Seq<char>,
) -> CommandLineView {
    let basic = basic_command_line(device_id, port, erase, false);
    CommandLineView { program: basic.program, args: basic.args + seq!["-o"@, code, "-F"@, output] }
}

/// The name of the file a download is written to, without its extension.
pub open spec fn output_stem() -> Seq<char> {
    "gpsami"@
}

/// The path that `std::path::Path::join` makes of a directory and a path
/// inside it.
pub uninterp spec fn path_join(dir: Seq<char>, name: Seq<char>) -> Seq<char>;

/// `std::path::Path::join` on a directory and a name, both Unicode text. The
/// result is the joined path as text, which is what `path_join` names; a path
/// joined from two texts is itself text, so nothing is lost on the way back.
/// Nothing is proved of this function: that it gives the same path whenever
/// it is given the same directory and name is taken on trust.
#[verifier::external_body]
fn join_path(dir: &str, name: &str) -> (path: String)
    ensures
        path@ == path_join(dir@, name@),
{
    std::path::Path::new(dir).join(name).to_string_lossy().into_owned()
}

/// Adds one argument to an argument list.
fn push_arg(args: &mut Vec<String>, arg: &str)
    ensures
        final(args).deep_view() == old(args).deep_view().push(arg@),
{
    let ghost before = args.deep_view();
    args.push(arg.to_owned());
    assert(args.deep_view() =~= before.push(arg@));
}

/// The `gpsbabel` driver: the tool's name for the device, the port the
/// device is on, and what the device can do.
#[derive(Debug)]
pub struct GpsBabel {
    device_id: String,
    port: String,
    cap: Capability,
}

pub struct GpsBabelView {
    pub device_id: Seq<char>,
    pub port: Seq<char>,
    pub cap: Capability,
}

impl GpsBabelView {
    /// What `download` answers for this driver.
    pub open spec fn download_plan(self, format: Format, erase: bool, tempdir: Seq<char>) -> Result<
        DownloadView,
        ErrorView,
    > {
        if erase && !self.cap.can_erase {
            Err(ErrorView::Unsupported)
        } else {
            match (format_code(format), format_extension(format)) {
                (Some(code), Some(extension)) => {
                    let output = path_join(tempdir, output_stem() + extension);
                    Ok(
                        DownloadView {
                            command: download_command_line(
                                self.device_id,
                                self.port,
                                erase,
                                code,
                                output,
                            ),
                            output,
                        },
                    )
                },
                _ => Err(ErrorView::WrongArg),
            }
        }
    }

    /// What `erase` answers for this driver.
    pub open spec fn erase_plan(self) -> Result<CommandLineView, ErrorView> {
        if !self.cap.can_erase_only {
            Err(ErrorView::Unsupported)
        } else {
            Ok(basic_command_line(self.device_id, self.port, false, true))
        }
    }
}

impl View for GpsBabel {
    type V = GpsBabelView;

    closed spec fn view(&self) -> GpsBabelView {
        GpsBabelView { device_id: self.device_id@, port: self.port@, cap: self.cap }
    }
}

impl DeepView for GpsBabel {
    type V = GpsBabelView;

    open spec fn deep_view(&self) -> GpsBabelView {
        self@
    }
}

impl GpsBabel {
    pub fn new(device: String, port: &str, capability: Capability) -> (driver: GpsBabel)
        ensures
            driver@ == (GpsBabelView { device_id: device@, port: port@, cap: capability }),
    {
        GpsBabel { device_id: device, port: port.to_owned(), cap: capability }
    }

    /// Return a string associated with the format, or `None`.
    pub fn format_to_string(format: &Format) -> (code: Option<&'static str>)
        ensures
            code.deep_view() == format_code(*format),
    {
        match *format {
            Format::Gpx => Some("gpx"),
            Format::Kml => Some("kml"),
            _ => None,
        }
    }

    /// Return an extension (with `.`) associated with the format, or `None`.
    pub fn format_to_extension(format: &Format) -> (extension: Option<&'static str>)
        ensures
            extension.deep_view() == format_extension(*format),
    {
        match *format {
            Format::Gpx => Some(".gpx"),
            Format::Kml => Some(".kml"),
            _ => None,
        }
    }

    /// Build the basic command line for the device on port, eventually for
    /// erasing after a download or for erasing only. At most one of the two
    /// may be asked for.
    pub fn build_basic_command_line(
        device_id: &str,
        port: &str,
        erase: bool,
        erase_only: bool,
    ) -> (command: CommandLine)
        requires
            !(erase && erase_only),
        ensures
            command@ == basic_command_line(device_id@, port@, erase, erase_only),
    {
        let mut device_string = device_id.to_owned();
        if erase {
            device_string.append(",erase");
        } else if erase_only {
            device_string.append(",erase_only");
        }
        let mut args: Vec<String> = Vec::new();
        assert(args.deep_view() =~= Seq::<Seq<char>>::empty());
        push_arg(&mut args, "-t");
        push_arg(&mut args, "-w");
        push_arg(&mut args, "-i");
        push_arg(&mut args, device_string.as_str());
        push_arg(&mut args, "-f");
        push_arg(&mut args, port);
        assert(args.deep_view() =~= basic_command_line(device_id@, port@, erase, erase_only).args);
        CommandLine { program: "gpsbabel".to_owned(), args }
    }
}

impl Driver for GpsBabel {
    open spec fn capability(&self) -> Capability {
        self@.cap
    }

    open spec fn ready(&self) -> bool {
        self@.port.len() != 0
    }

    open spec fn closes(&self) -> bool {
        true
    }

    open spec fn download_plan(&self, format: Format, erase: bool, tempdir: Seq<char>) -> Result<
        DownloadView,
        ErrorView,
    > {
        self@.download_plan(format, erase, tempdir)
    }

    open spec fn erase_plan(&self) -> Result<CommandLineView, ErrorView> {
        self@.erase_plan()
    }

    /// The device is ready as soon as a port is set.
    fn open(&self) -> (ready: bool) {
        !self.port.as_str().is_empty()
    }

    /// There is nothing to let go of.
    fn close(&self) -> (closed: bool) {
        true
    }

    /// Plan a download into a file of the format's extension under `tempdir`.
    /// A request to erase that the device cannot meet is refused first, then
    /// a format that the tool cannot write.
    fn download(&self, format: Format, erase: bool, tempdir: &str) -> (r: Result<Download, Error>) {
        // we requested erase at the same time and it is not supported.
        if erase && !self.cap.can_erase {
            return Err(Error::Unsupported);
        }
        let code = match Self::format_to_string(&format) {
            Some(code) => code,
            None => {
                return Err(Error::WrongArg);
            },
        };
        let extension = match Self::format_to_extension(&format) {
            Some(extension) => extension,
            None => {
                return Err(Error::WrongArg);
            },
        };
        let mut name = "gpsami".to_owned();
        name.append(extension);
        let output = join_path(tempdir, name.as_str());

        let mut command = Self::build_basic_command_line(
            self.device_id.as_str(),
            self.port.as_str(),
            erase,
            false,
        );
        let ghost basic = command@;
        push_arg(&mut command.args, "-o");
        push_arg(&mut command.args, code);
        push_arg(&mut command.args, "-F");
        push_arg(&mut command.args, output.as_str());
        assert(command@.args =~= basic.args + seq!["-o"@, code@, "-F"@, output@]);
        Ok(Download { command, output })
    }

    /// Plan erasing the log; refused if the device cannot erase on its own.
    fn erase(&self) -> (r: Result<CommandLine, Error>) {
        // Device doesn't support "erase only"
        if !self.cap.can_erase_only {
            return Err(Error::Unsupported);
        }
        Ok(
            Self::build_basic_command_line(
                self.device_id.as_str(),
                self.port.as_str(),
                false,
                true,
            ),
        )
    }
}

} // verus!
