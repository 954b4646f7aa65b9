use vstd::prelude::*;
use crate::text::same_text;

verus! {

/// What the program was asked to do, with the options of that subcommand.
#[derive(Clone, Debug, PartialEq, Eq)]
pub enum Command {
    /// Log in with a QR code, drawn in the console where `console_qrcode` is set.
    Login { console_qrcode: bool },
    /// Show the account's details.
    User,
    /// Download what `url` names.
    Down { format: String, url: String, ss: bool, choose_ep: bool, resume_download: bool },
}

/// The settings of one run, made once and handed to whoever needs them.
#[derive(Clone, Debug, PartialEq, Eq)]
pub struct Args {
    /// The subcommand, where one was given.
    pub command: Option<Command>,
}

/// The stream layout that a video is asked for in.
#[derive(Clone, Copy, Debug, PartialEq, Eq, Structural)]
pub enum Format {
    /// One file that holds sound and picture.
    Mp4,
    /// Sound and picture as separate streams, merged after the transfer.
    Dash,
}

/// Whether `format` is one of the three values that the format option takes.
pub open spec fn is_format(format: Seq<char>) -> bool {
    format == "mp4"@ || format == "dash"@ || format == "choose"@
}

/// What is said of a format that is none of the three.
pub const FORMAT_HELP: &'static str = "视频格式 只能为 mp4/dash/choose 其中之一";

impl Args {
    /// Whether the format of a download, where there is one, is valid.
    pub open spec fn wf(&self) -> bool {
        match self.command {
            Some(Command::Down { format, .. }) => is_format(format@),
            _ => true,
        }
    }

    /// Whether the subcommand is a login.
    pub open spec fn is_login(&self) -> bool {
        self.command matches Some(Command::Login { .. })
    }

    /// Whether the subcommand is a download.
    pub open spec fn is_down(&self) -> bool {
        self.command matches Some(Command::Down { .. })
    }
}

/// Checks the value of the format option: `mp4`, `dash` and `choose` are
/// handed back as they are, anything else is refused with [`FORMAT_HELP`].
pub fn format_v(format: &str) -> (checked: Result<String, String>)
    ensures
        checked is Ok <==> is_format(format@),
        checked is Ok ==> (checked->Ok_0)@ == format@,
        checked is Err ==> (checked->Err_0)@ == FORMAT_HELP@,
{
    if same_text(format, "mp4") {
        Ok("mp4".to_owned())
    } else if same_text(format, "dash") {
        Ok("dash".to_owned())
    } else if same_text(format, "choose") {
        Ok("choose".to_owned())
    } else {
        Err(FORMAT_HELP.to_owned())
    }
}

/// Makes the settings of a run from the parsed command line.
///
/// The format of a download is checked as [`format_v`] does; the message of a
/// refused format is the error.
pub fn init_app(command: Option<Command>) -> (made: Result<Args, String>)
    ensures
        made is Ok <==> (Args { command }).wf(),
        made is Ok ==> made->Ok_0 == (Args { command }),
        made is Err ==> (made->Err_0)@ == FORMAT_HELP@,
{
    let valid = match &command {
        Some(Command::Down { format, .. }) => format_v(format.as_str()),
        _ => Ok(String::new()),
    };
    match valid {
        Ok(_) => Ok(Args { command }),
        Err(message) => Err(message),
    }
}

/// The name of the subcommand, where one was given.
pub fn subcommand(args: &Args) -> (name: Option<String>)
    ensures
        name is Some <==> args.command is Some,
        args.command matches Some(Command::Login { .. }) ==> (name->0)@ == "login"@,
        args.command matches Some(Command::User) ==> (name->0)@ == "user"@,
        args.command matches Some(Command::Down { .. }) ==> (name->0)@ == "down"@,
{
    match &args.command {
        Some(Command::Login { .. }) => Some("login".to_owned()),
        Some(Command::User) => Some("user".to_owned()),
        Some(Command::Down { .. }) => Some("down".to_owned()),
        None => None,
    }
}

/// Whether the login draws its QR code in the console.
pub fn qr_console_value(args: &Args) -> (console: bool)
    requires
        args.is_login(),
    ensures
        args.command == Some(Command::Login { console_qrcode: console }),
{
    match &args.command {
        Some(Command::Login { console_qrcode }) => *console_qrcode,
        _ => false,
    }
}

/// Whether a series is looked up by its URL instead of its identifier.
pub fn ss_value(args: &Args) -> (ss: bool)
    requires
        args.is_down(),
    ensures
        args.command matches Some(Command::Down { ss: flag, .. }) && flag == ss,
{
    match &args.command {
        Some(Command::Down { ss, .. }) => *ss,
        _ => false,
    }
}

/// Whether the episodes to download are chosen instead of all being taken.
pub fn choose_ep_value(args: &Args) -> (choose_ep: bool)
    requires
        args.is_down(),
    ensures
        args.command matches Some(Command::Down { choose_ep: flag, .. }) && flag == choose_ep,
{
    match &args.command {
        Some(Command::Down { choose_ep, .. }) => *choose_ep,
        _ => false,
    }
}

/// Whether a transfer goes on from what an earlier run left on disk.
pub fn resume_download_value(args: &Args) -> (resume: bool)
    requires
        args.is_down(),
    ensures
        args.command matches Some(Command::Down { resume_download: flag, .. }) && flag == resume,
{
    match &args.command {
        Some(Command::Down { resume_download, .. }) => *resume_download,
        _ => false,
    }
}

/// The URL given on the command line; `None` where it is missing or empty
/// and has to be asked for.
pub fn url_value(args: &Args) -> (url: Option<String>)
    requires
        args.is_down(),
    ensures
        args.command matches Some(Command::Down { url: given, .. }) && (if given@.len() == 0 {
            url is None
        } else {
            url is Some && (url->0)@ == given@
        }),
{
    match &args.command {
        Some(Command::Down { url, .. }) => {
            if url.as_str().unicode_len() == 0 {
                None
            } else {
                Some(url.clone())
            }
        },
        _ => None,
    }
}

/// The format as text for a valid format option, where `choice` is the entry
/// picked from the list "dash, mp4" when the option says `choose`.
pub open spec fn chosen_format(format: Seq<char>, choice: int) -> Seq<char> {
    if format == "choose"@ {
        if choice == 0 {
            "dash"@
        } else {
            "mp4"@
        }
    } else {
        format
    }
}

/// Whether the format still has to be chosen from the list.
pub fn format_needs_choice(args: &Args) -> (needed: bool)
    requires
        args.is_down(),
    ensures
        args.command matches Some(Command::Down { format, .. }) && needed == (format@ == "choose"@),
{
    match &args.command {
        Some(Command::Down { format, .. }) => same_text(format.as_str(), "choose"),
        _ => false,
    }
}

/// The format of the download: the option's value, or where that is `choose`
/// the entry of the list "dash, mp4" with the index `choice`.
pub fn format_value(args: &Args, choice: usize) -> (format: String)
    requires
        args.is_down(),
        choice < 2,
    ensures
        args.command matches Some(Command::Down { format: given, .. }) && format@ == chosen_format(
            given@,
            choice as int,
        ),
{
    match &args.command {
        Some(Command::Down { format, .. }) => {
            if same_text(format.as_str(), "choose") {
                if choice == 0 {
                    "dash".to_owned()
                } else {
                    "mp4".to_owned()
                }
            } else {
                format.clone()
            }
        },
        _ => String::new(),
    }
}

/// The layout that a format text names: `mp4` or `dash`, nothing else.
pub fn format_kind(format: &str) -> (kind: Option<Format>)
    ensures
        kind == if format@ == "mp4"@ {
            Some(Format::Mp4)
        } else if format@ == "dash"@ {
            Some(Format::Dash)
        } else {
            None
        },
{
    if same_text(format, "mp4") {
        Some(Format::Mp4)
    } else if same_text(format, "dash") {
        Some(Format::Dash)
    } else {
        None
    }
}

} // verus!
