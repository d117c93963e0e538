use vstd::prelude::*;

verus! {

/// Declares `std::io::Error`, the error of a failed process spawn, so that it
/// can be carried inside [`WallpaperError::CommandIo`].
#[verifier::external_type_specification]
#[verifier::external_body]
pub struct ExIoError(std::io::Error);

/// The closed set of reasons why changing the wallpaper can fail.
#[derive(Debug)]
pub enum WallpaperError {
    /// The settings command could not be started.
    CommandIo(std::io::Error),
    /// The settings command ran and exited with a failure status; holds what
    /// it wrote to standard error.
    CommandFailed(Vec<u8>),
    /// The wallpaper directory could not be listed.
    DirectoryNotFound,
    /// No entry of the directory is a JPEG or PNG file.
    ImageNotFound,
    /// The selected path is not valid text.
    InvalidPath,
}

/// The text that `String::from_utf8_lossy` makes of a byte sequence.
pub uninterp spec fn lossy_text(bytes: Seq<u8>) -> Seq<char>;

/// Relies on `String::from_utf8_lossy`: it depends on the bytes alone, and it
/// decodes valid UTF-8 without replacing anything.
#[verifier::external_body]
fn utf8_lossy(bytes: &Vec<u8>) -> (r: String)
    ensures
        r@ == lossy_text(bytes@),
        vstd::utf8::valid_utf8(bytes@) ==> r@ == vstd::utf8::decode_utf8(bytes@),
{
    String::from_utf8_lossy(bytes).into_owned()
}

/// The prefix of every message about the settings command.
pub open spec fn command_prefix() -> Seq<char> {
    seq![
        'e', 'r', 'r', 'o', 'r', ' ', 't', 'r', 'y', 'i', 'n', 'g', ' ', 't', 'o', ' ', 's', 'e',
        't', ' ', 'G', 'N', 'O', 'M', 'E', ' ', 's', 'e', 't', 't', 'i', 'n', 'g', ':', ' ',
    ]
}

impl WallpaperError {
    /// What `message` says for this error. For `CommandIo` this is only the
    /// prefix: the detail after it is the operating system's description of
    /// the failed spawn.
    pub open spec fn fixed_message(self) -> Seq<char> {
        match self {
            WallpaperError::CommandIo(_) => command_prefix(),
            WallpaperError::CommandFailed(stderr) => command_prefix() + lossy_text(stderr@),
            WallpaperError::DirectoryNotFound => "directory not found"@,
            WallpaperError::ImageNotFound => "unable to find a JPEG or PNG"@,
            WallpaperError::InvalidPath => "does not appear to be valid path"@,
        }
    }

    /// A human-readable description of the error.
    pub fn message(&self) -> (r: String)
        ensures
            !(self is CommandIo) ==> r@ == self.fixed_message(),
            self is CommandIo ==> r@.len() >= command_prefix().len() && r@.subrange(
                0,
                command_prefix().len() as int,
            ) == command_prefix(),
    {
        match self {
            WallpaperError::CommandIo(err) => {
                let mut r = command_prefix_text();
                let detail = err.to_string();
                r.append(detail.as_str());
                assert(r@.subrange(0, command_prefix().len() as int) =~= command_prefix());
                r
            },
            WallpaperError::CommandFailed(stderr) => {
                let mut r = command_prefix_text();
                let detail = utf8_lossy(stderr);
                r.append(detail.as_str());
                r
            },
            WallpaperError::DirectoryNotFound => String::from_str("directory not found"),
            WallpaperError::ImageNotFound => String::from_str("unable to find a JPEG or PNG"),
            WallpaperError::InvalidPath => String::from_str("does not appear to be valid path"),
        }
    }
}

fn command_prefix_text() -> (r: String)
    ensures
        r@ == command_prefix(),
{
    let r = String::from_str("error trying to set GNOME setting: ");
    proof {
        reveal_strlit("error trying to set GNOME setting: ");
    }
    assert(r@ =~= command_prefix());
    r
}

} // verus!
