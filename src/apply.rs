use crate::error::WallpaperError;
use crate::select::{candidates_of, select_wallpaper, selection, Entry};
use vstd::prelude::*;

verus! {

/// One invocation of the settings tool: `gsettings set <schema> <key> <value>`.
pub struct Setting {
    pub schema: String,
    pub key: String,
    pub value: String,
}

impl View for Setting {
    type V = (Seq<char>, Seq<char>, Seq<char>);

    open spec fn view(&self) -> (Seq<char>, Seq<char>, Seq<char>) {
        (self.schema@, self.key@, self.value@)
    }
}

/// What running the settings tool gave, where it could be started.
pub struct CommandOutput {
    /// Whether it exited with a success status.
    pub success: bool,
    /// What it wrote to standard error.
    pub stderr: Vec<u8>,
}

pub open spec fn background_schema() -> Seq<char> {
    "org.gnome.desktop.background"@
}

pub open spec fn screensaver_schema() -> Seq<char> {
    "org.gnome.desktop.screensaver"@
}

/// The URI that names a file by its path.
pub open spec fn file_uri(file_name: Seq<char>) -> Seq<char> {
    "file://"@ + file_name
}

/// The settings applied for a wallpaper, in the order in which they are
/// applied: the picture URIs first, then the placement options.
pub open spec fn settings_plan_of(file_name: Seq<char>, option: Seq<char>) -> Seq<
    (Seq<char>, Seq<char>, Seq<char>),
> {
    seq![
        (background_schema(), "picture-uri"@, file_uri(file_name)),
        (background_schema(), "picture-uri-dark"@, file_uri(file_name)),
        (screensaver_schema(), "picture-uri"@, file_uri(file_name)),
        (background_schema(), "picture-options"@, option),
        (screensaver_schema(), "picture-options"@, option),
    ]
}

/// The error that a run of the settings tool ends in, if any.
pub open spec fn command_error(outcome: Result<CommandOutput, std::io::Error>) -> Option<
    WallpaperError,
> {
    match outcome {
        Err(e) => Some(WallpaperError::CommandIo(e)),
        Ok(out) => if out.success {
            None
        } else {
            Some(WallpaperError::CommandFailed(out.stderr))
        },
    }
}

/// The invocation that sets `key` of `schema` to `option`.
pub fn gsettings_set(schema: &str, key: &str, option: &str) -> (r: Setting)
    ensures
        r@ == (schema@, key@, option@),
{
    Setting {
        schema: String::from_str(schema),
        key: String::from_str(key),
        value: String::from_str(option),
    }
}

/// The invocation that sets `key` of `schema` to the URI of `file_name`.
pub fn set_picture_uri(schema: &str, key: &str, file_name: &str) -> (r: Setting)
    ensures
        r@ == (schema@, key@, file_uri(file_name@)),
{
    let uri = String::from_str("file://").concat(file_name);
    gsettings_set(schema, key, uri.as_str())
}

/// The settings that make `file_name` the wallpaper, placed as `option` says.
pub fn settings_plan(file_name: &str, option: &str) -> (r: Vec<Setting>)
    ensures
        r@.len() == settings_plan_of(file_name@, option@).len(),
        forall|i: int|
            0 <= i < r@.len() ==> #[trigger] r@[i]@ == settings_plan_of(file_name@, option@)[i],
{
    let mut r: Vec<Setting> = Vec::new();
    r.push(set_picture_uri("org.gnome.desktop.background", "picture-uri", file_name));
    r.push(set_picture_uri("org.gnome.desktop.background", "picture-uri-dark", file_name));
    r.push(set_picture_uri("org.gnome.desktop.screensaver", "picture-uri", file_name));
    r.push(gsettings_set("org.gnome.desktop.background", "picture-options", option));
    r.push(gsettings_set("org.gnome.desktop.screensaver", "picture-options", option));
    r
}

/// Judges one run of the settings tool: a failure to start it is `CommandIo`,
/// a failure status is `CommandFailed` with its standard error output.
pub fn check_command(outcome: Result<CommandOutput, std::io::Error>) -> (r: Result<(), WallpaperError>)
    ensures
        r is Ok <==> command_error(outcome) is None,
        r is Err ==> command_error(outcome) == Some(r->Err_0),
{
    match outcome {
        Err(e) => Err(WallpaperError::CommandIo(e)),
        Ok(out) => if out.success {
            Ok(())
        } else {
            Err(WallpaperError::CommandFailed(out.stderr))
        },
    }
}

/// Applying the settings for a chosen wallpaper, one run of the settings tool
/// at a time. The caller asks for the next setting, runs the tool, and records
/// what it gave; the first failure ends the session, and the settings applied
/// before it stay applied.
pub struct Applier {
    /// The chosen wallpaper's path.
    pub file_name: String,
    /// The settings to apply, in order.
    pub plan: Vec<Setting>,
    /// How many settings have been applied.
    pub applied: usize,
    /// The failure that ended the session, if one did.
    pub failure: Option<WallpaperError>,
}

impl Applier {
    pub open spec fn wf(&self) -> bool {
        &&& self.applied <= self.plan@.len()
        &&& self.failure is Some ==> self.applied < self.plan@.len()
    }

    /// Whether a setting is still to be applied.
    pub open spec fn running(&self) -> bool {
        self.failure is None && self.applied < self.plan@.len()
    }

    /// The session after the run of the next setting gave `outcome`.
    pub open spec fn recorded(self, outcome: Result<CommandOutput, std::io::Error>) -> Applier {
        match command_error(outcome) {
            Some(e) => Applier { failure: Some(e), ..self },
            None => Applier { applied: (self.applied + 1) as usize, ..self },
        }
    }

    /// What the session ends in: the wallpaper's path, or the failure.
    pub open spec fn outcome(self) -> Result<String, WallpaperError> {
        match self.failure {
            Some(e) => Err(e),
            None => Ok(self.file_name),
        }
    }

    /// A session that applies the settings for `file_name`, placed as `option`
    /// says.
    pub fn new(file_name: String, option: &str) -> (r: Applier)
        ensures
            r.wf(),
            r.running(),
            r.file_name == file_name,
            r.applied == 0,
            r.failure is None,
            r.plan@.len() == settings_plan_of(file_name@, option@).len(),
            forall|i: int|
                0 <= i < r.plan@.len() ==> #[trigger] r.plan@[i]@ == settings_plan_of(
                    file_name@,
                    option@,
                )[i],
    {
        let plan = settings_plan(file_name.as_str(), option);
        Applier { file_name, plan, applied: 0, failure: None }
    }

    /// Whether a setting is still to be applied.
    pub fn is_running(&self) -> (r: bool)
        ensures
            r == self.running(),
    {
        self.failure.is_none() && self.applied < self.plan.len()
    }

    /// The setting to apply next, if any.
    pub fn next_setting(&self) -> (r: Option<&Setting>)
        requires
            self.wf(),
        ensures
            self.running() ==> r is Some && *r->Some_0 == self.plan@[self.applied as int],
            !self.running() ==> r is None,
    {
        if self.is_running() {
            Some(&self.plan[self.applied])
        } else {
            None
        }
    }

    /// Records what the run of the next setting gave.
    pub fn record(&mut self, outcome: Result<CommandOutput, std::io::Error>)
        requires
            old(self).wf(),
            old(self).running(),
        ensures
            final(self).wf(),
            *final(self) == old(self).recorded(outcome),
    {
        let planned = self.plan.len();
        match check_command(outcome) {
            Ok(()) => {
                assert(self.applied < planned);
                self.applied = self.applied + 1;
            },
            Err(e) => {
                self.failure = Some(e);
            },
        }
    }

    /// Ends the session: the wallpaper's path where every setting was applied,
    /// else the failure that stopped it.
    pub fn finish(self) -> (r: Result<String, WallpaperError>)
        requires
            self.wf(),
            !self.running(),
        ensures
            r == self.outcome(),
    {
        match self.failure {
            Some(e) => Err(e),
            None => Ok(self.file_name),
        }
    }
}

/// A failed run of the settings tool ends the session: no further setting is
/// asked for, and the session ends in an error that carries the tool's
/// standard error output. In particular, where the first setting fails, it is
/// the only one that was run.
pub proof fn lemma_failure_stops(a: Applier, out: CommandOutput)
    requires
        a.wf(),
        a.running(),
        !out.success,
    ensures
        a.recorded(Ok(out)).wf(),
        !a.recorded(Ok(out)).running(),
        a.recorded(Ok(out)).applied == a.applied,
        a.recorded(Ok(out)).outcome() == Err::<String, WallpaperError>(
            WallpaperError::CommandFailed(out.stderr),
        ),
{
}

/// The selected wallpaper's path where `r` started a session, else the error.
pub open spec fn started_with(r: Result<Applier, WallpaperError>) -> Result<String, WallpaperError> {
    match r {
        Ok(a) => Ok(a.file_name),
        Err(e) => Err(e),
    }
}

/// Selects a wallpaper at random from a directory listing, which is `None`
/// where the directory could not be listed, and starts the session that
/// applies its settings, placed as `option` says.
pub fn change_wallpaper(listing: Option<Vec<Entry>>, option: &str) -> (r: Result<
    Applier,
    WallpaperError,
>)
    ensures
        listing is None ==> r matches Err(WallpaperError::DirectoryNotFound),
        listing is Some ==> exists|draw: int|
            (candidates_of(listing->Some_0@).len() == 0 || 0 <= draw < candidates_of(
                listing->Some_0@,
            ).len()) && #[trigger] selection(candidates_of(listing->Some_0@), draw, started_with(r)),
        r is Ok ==> {
            let a = r->Ok_0;
            &&& a.wf()
            &&& a.running()
            &&& a.applied == 0
            &&& a.failure is None
            &&& a.plan@.len() == settings_plan_of(a.file_name@, option@).len()
            &&& forall|i: int|
                0 <= i < a.plan@.len() ==> #[trigger] a.plan@[i]@ == settings_plan_of(
                    a.file_name@,
                    option@,
                )[i]
        },
{
    match select_wallpaper(listing) {
        Ok(file_name) => Ok(Applier::new(file_name, option)),
        Err(e) => Err(e),
    }
}

} // verus!
