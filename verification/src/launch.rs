//! Planning a launch: what must be in place, and what is started.
//!
//! The caller probes the launcher's directory and reports what it found;
//! `plan_launch` answers with the missing file that stops the launch, or with
//! the argument list and process flags of the launch.

use vstd::prelude::*;
use vstd::string::*;
use crate::config::{Config, Mode};
use crate::profile::{build_args, profile_args, texts};

verus! {

/// The process creation flag that keeps the tool from opening a console
/// window.
pub const CREATE_NO_WINDOW: u32 = 0x0800_0000;

/// A file that must sit in the launcher's directory.
#[derive(Clone, Copy, Debug, PartialEq, Eq, Structural)]
pub enum RequiredFile {
    /// The tool itself.
    Executable,
    /// The fake QUIC initial packet.
    QuicPayload,
    /// The fake TLS client hello.
    TlsPayload,
    /// The list of hosts that the tool acts on.
    HostList,
}

impl RequiredFile {
    /// The file's name inside the launcher's directory.
    pub open spec fn name(self) -> Seq<char> {
        match self {
            RequiredFile::Executable => "winws.exe"@,
            RequiredFile::QuicPayload => "quic_initial_www_google_com.bin"@,
            RequiredFile::TlsPayload => "tls_clienthello_www_google_com.bin"@,
            RequiredFile::HostList => "list-discord.txt"@,
        }
    }

    /// The file's place in the order in which the files are checked.
    pub open spec fn rank(self) -> nat {
        match self {
            RequiredFile::Executable => 0,
            RequiredFile::QuicPayload => 1,
            RequiredFile::TlsPayload => 2,
            RequiredFile::HostList => 3,
        }
    }

    /// Returns the file's name inside the launcher's directory.
    pub fn file_name(&self) -> (name: &'static str)
        ensures
            name@ == self.name(),
    {
        match self {
            RequiredFile::Executable => "winws.exe",
            RequiredFile::QuicPayload => "quic_initial_www_google_com.bin",
            RequiredFile::TlsPayload => "tls_clienthello_www_google_com.bin",
            RequiredFile::HostList => "list-discord.txt",
        }
    }
}

/// Which of the required files were found in the launcher's directory.
#[derive(Clone, Copy, Debug, PartialEq, Eq, Structural)]
pub struct Found {
    /// The tool itself is there.
    pub executable: bool,
    /// The QUIC payload is there.
    pub quic_payload: bool,
    /// The TLS payload is there.
    pub tls_payload: bool,
    /// The host list is there.
    pub hostlist: bool,
}

impl Found {
    /// Whether `file` was found.
    pub open spec fn has(self, file: RequiredFile) -> bool {
        match file {
            RequiredFile::Executable => self.executable,
            RequiredFile::QuicPayload => self.quic_payload,
            RequiredFile::TlsPayload => self.tls_payload,
            RequiredFile::HostList => self.hostlist,
        }
    }

    /// The first required file, in checking order, that was not found.
    pub open spec fn first_absent(self) -> Option<RequiredFile> {
        if !self.executable {
            Some(RequiredFile::Executable)
        } else if !self.quic_payload {
            Some(RequiredFile::QuicPayload)
        } else if !self.tls_payload {
            Some(RequiredFile::TlsPayload)
        } else if !self.hostlist {
            Some(RequiredFile::HostList)
        } else {
            None
        }
    }

    /// Whether every required file was found.
    pub open spec fn complete(self) -> bool {
        forall|file: RequiredFile| self.has(file)
    }

    /// Whether `file` was not found while every file checked before it was.
    pub open spec fn stops_at(self, file: RequiredFile) -> bool {
        &&& !self.has(file)
        &&& forall|earlier: RequiredFile| earlier.rank() < file.rank() ==> self.has(earlier)
    }

    /// Returns the first required file, in checking order, that was not
    /// found, or `None` when all are there.
    pub fn first_missing(&self) -> (missing: Option<RequiredFile>)
        ensures
            missing == self.first_absent(),
    {
        if !self.executable {
            Some(RequiredFile::Executable)
        } else if !self.quic_payload {
            Some(RequiredFile::QuicPayload)
        } else if !self.tls_payload {
            Some(RequiredFile::TlsPayload)
        } else if !self.hostlist {
            Some(RequiredFile::HostList)
        } else {
            None
        }
    }

    /// Nothing is reported missing exactly when every required file was
    /// found.
    pub proof fn lemma_none_absent_iff_complete(self)
        ensures
            self.first_absent() is None <==> self.complete(),
    {
        if self.first_absent() is None {
            assert forall|file: RequiredFile| self.has(file) by {
                match file {
                    RequiredFile::Executable => {},
                    RequiredFile::QuicPayload => {},
                    RequiredFile::TlsPayload => {},
                    RequiredFile::HostList => {},
                }
            }
        } else {
            let file = self.first_absent()->Some_0;
            assert(!self.has(file));
        }
    }

    /// A file is the one reported missing exactly when it was not found and
    /// every file checked before it was.
    pub proof fn lemma_absent_iff_stops_at(self, file: RequiredFile)
        ensures
            self.first_absent() == Some(file) <==> self.stops_at(file),
    {
        if self.stops_at(file) {
            // Name each earlier file, so that what holds of all of them is
            // known of each.
            assert(self.has(RequiredFile::Executable) == self.executable);
            assert(self.has(RequiredFile::QuicPayload) == self.quic_payload);
            assert(self.has(RequiredFile::TlsPayload) == self.tls_payload);
        }
        if self.first_absent() == Some(file) {
            assert forall|earlier: RequiredFile| earlier.rank() < file.rank() implies self.has(
                earlier,
            ) by {
                match earlier {
                    RequiredFile::Executable => {},
                    RequiredFile::QuicPayload => {},
                    RequiredFile::TlsPayload => {},
                    RequiredFile::HostList => {},
                }
            }
        }
    }
}

/// Why a launch did not happen.
#[derive(Clone, Copy, Debug, PartialEq, Eq, Structural)]
pub enum LaunchError {
    /// A required file is not in the launcher's directory.
    MissingFile(RequiredFile),
    /// The operating system did not start the tool.
    SpawnFailed,
}

impl LaunchError {
    /// The text shown to the user for this error.
    pub open spec fn text(self) -> Seq<char> {
        match self {
            LaunchError::MissingFile(file) => "Не найден файл "@ + file.name(),
            LaunchError::SpawnFailed => "Не удалось запустить процесс"@,
        }
    }

    /// Returns the text shown to the user for this error.
    pub fn message(&self) -> (message: String)
        ensures
            message@ == self.text(),
    {
        match self {
            LaunchError::MissingFile(file) => {
                let prefix = "Не найден файл ".to_owned();
                prefix.concat(file.file_name())
            },
            LaunchError::SpawnFailed => "Не удалось запустить процесс".to_owned(),
        }
    }
}

/// The text that stands for a path in the argument list: the path itself, or
/// the empty text for a path that is not valid Unicode.
pub open spec fn path_text(path: Option<&str>) -> Seq<char> {
    match path {
        Some(text) => text@,
        None => Seq::empty(),
    }
}

/// Returns the text that stands for `path` in the argument list.
pub fn path_arg<'a>(path: Option<&'a str>) -> (text: &'a str)
    ensures
        text@ == path_text(path),
{
    match path {
        Some(text) => text,
        None => {
            proof {
                reveal_strlit("");
            }
            assert(""@ =~= Seq::<char>::empty());
            ""
        },
    }
}

/// The model of a launch.
pub struct LaunchView {
    /// The file to start.
    pub program: RequiredFile,
    /// The texts of the arguments, in order.
    pub args: Seq<Seq<char>>,
    /// The process creation flags.
    pub creation_flags: u32,
}

/// What the caller hands to the operating system to start the tool.
#[derive(Debug, PartialEq, Eq)]
pub struct Launch {
    /// The file to start.
    pub program: RequiredFile,
    /// The arguments, in order.
    pub args: Vec<String>,
    /// The process creation flags.
    pub creation_flags: u32,
}

impl View for Launch {
    type V = LaunchView;

    open spec fn view(&self) -> LaunchView {
        LaunchView {
            program: self.program,
            args: texts(self.args@),
            creation_flags: self.creation_flags,
        }
    }
}

/// The launch that `mode` asks for: the tool itself, started without a
/// console window, with the mode's profile over the three paths.
pub open spec fn launch_of(
    mode: Mode,
    hostlist: Option<&str>,
    quic: Option<&str>,
    tls: Option<&str>,
) -> LaunchView {
    LaunchView {
        program: RequiredFile::Executable,
        args: profile_args(mode, path_text(hostlist), path_text(quic), path_text(tls)),
        creation_flags: CREATE_NO_WINDOW,
    }
}

/// Plans the launch for `config`.
///
/// `found` says which required files are in the launcher's directory;
/// `hostlist`, `quic` and `tls` are the paths of the host list and of the two
/// payloads, each `None` where the path is not valid Unicode.
///
/// The files are checked in the order executable, QUIC payload, TLS payload,
/// host list, and the first one that is missing is the error. With all four
/// in place the plan holds the profile of the configured mode.
pub fn plan_launch(
    config: &Config,
    found: &Found,
    hostlist: Option<&str>,
    quic: Option<&str>,
    tls: Option<&str>,
) -> (plan: Result<Launch, LaunchError>)
    ensures
        match found.first_absent() {
            Some(file) => plan == Err::<Launch, LaunchError>(LaunchError::MissingFile(file)),
            None => plan is Ok && plan->Ok_0@ == launch_of(config.mode, hostlist, quic, tls),
        },
{
    match found.first_missing() {
        Some(file) => Err(LaunchError::MissingFile(file)),
        None => {
            let args = build_args(config.mode, path_arg(hostlist), path_arg(quic), path_arg(tls));
            Ok(Launch { program: RequiredFile::Executable, args, creation_flags: CREATE_NO_WINDOW })
        },
    }
}

} // verus!
