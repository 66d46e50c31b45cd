//! Where the application keeps its files.
//!
//! A development build keeps everything in one directory under `/tmp`, named
//! after the application. Any other build uses the directories that the
//! platform assigns to the application.

use vstd::prelude::*;
use crate::text::{replace_char, replaced, text_view, texts_view};

verus! {

/// The directories that the platform assigns to the application.
#[derive(Debug, PartialEq, Eq)]
pub struct ProjectDirs {
    pub config_dir: String,
    pub config_local_dir: String,
    pub data_local_dir: String,
}

/// A [`ProjectDirs`] as mathematical values.
pub struct ProjectDirsView {
    pub config_dir: Seq<char>,
    pub config_local_dir: Seq<char>,
    pub data_local_dir: Seq<char>,
}

impl View for ProjectDirs {
    type V = ProjectDirsView;

    open spec fn view(&self) -> ProjectDirsView {
        ProjectDirsView {
            config_dir: self.config_dir@,
            config_local_dir: self.config_local_dir@,
            data_local_dir: self.data_local_dir@,
        }
    }
}

/// How the program was built.
#[derive(Clone, Copy, Debug, PartialEq, Eq, Structural)]
pub enum BuildProfile {
    /// A development build, with debug assertions.
    Debug,
    /// A build for use.
    Release,
}

/// The lower-case form of a text, as the standard library computes it.
pub uninterp spec fn lowercase_of(text: Seq<char>) -> Seq<char>;

/// The lower-case form of `text`.
///
/// Trusted: this is `str::to_lowercase` of the standard library. Its result
/// depends on the text alone, not on a locale or on the machine; nothing more
/// is claimed of it.
#[verifier::external_body]
fn to_lowercase(text: &str) -> (lower: String)
    ensures
        lower@ == lowercase_of(text@),
{
    text.to_lowercase()
}

/// The directory of a development build: under `/tmp`, the application's name
/// with each space replaced by a hyphen, in lower case.
pub open spec fn dev_data_dir(application: Seq<char>) -> Seq<char> {
    "/tmp/"@ + lowercase_of(replace_char(application, ' ', '-'))
}

/// `name` below the directory `base`: the two joined by one `/`, unless
/// `base` is empty or ends in `/` already.
pub open spec fn joined(base: Seq<char>, name: Seq<char>) -> Seq<char> {
    if base.len() == 0 || base.last() == '/' {
        base + name
    } else {
        base + "/"@ + name
    }
}

/// The configuration directory.
pub open spec fn config_dir_of(
    profile: BuildProfile,
    application: Seq<char>,
    dirs: ProjectDirsView,
) -> Seq<char> {
    if profile is Debug {
        dev_data_dir(application)
    } else {
        dirs.config_local_dir
    }
}

/// The data directory.
pub open spec fn data_dir_of(
    profile: BuildProfile,
    application: Seq<char>,
    dirs: ProjectDirsView,
) -> Seq<char> {
    if profile is Debug {
        dev_data_dir(application)
    } else {
        dirs.data_local_dir
    }
}

/// The directory of the log files: `logs` below the data directory, except
/// in a development build, which keeps them with everything else.
pub open spec fn logs_dir_of(
    profile: BuildProfile,
    application: Seq<char>,
    dirs: ProjectDirsView,
) -> Seq<char> {
    if profile is Debug {
        dev_data_dir(application)
    } else {
        joined(dirs.data_local_dir, "logs"@)
    }
}

/// The directories that must exist before the application runs: for the
/// configuration, for the data, and for the logs below the data.
pub open spec fn required_dirs_of(dirs: ProjectDirsView) -> Seq<Seq<char>> {
    seq![dirs.config_dir, dirs.data_local_dir, joined(dirs.data_local_dir, "logs"@)]
}

/// Where the database lies: a development build is told by its environment,
/// any other build keeps the file `file_name` in the configuration
/// directory. `None` where a development build was told nothing.
pub open spec fn database_url_of(
    profile: BuildProfile,
    from_environment: Option<Seq<char>>,
    config_dir: Seq<char>,
    file_name: Seq<char>,
) -> Option<Seq<char>> {
    if profile is Debug {
        from_environment
    } else {
        Some(joined(config_dir, file_name))
    }
}

/// Whether this is a development build.
pub fn is_debug(profile: BuildProfile) -> (debug: bool)
    ensures
        debug == (profile is Debug),
{
    match profile {
        BuildProfile::Debug => true,
        BuildProfile::Release => false,
    }
}

/// The directory that a development build of `application` keeps its files
/// in.
pub fn get_dev_data_dir(application: &str) -> (path: String)
    ensures
        path@ == dev_data_dir(application@),
{
    let hyphened: String = replaced(application, ' ', '-');
    let lower: String = to_lowercase(hyphened.as_str());
    tmp_dir_named(lower.as_str())
}

/// The directory `name` under `/tmp`.
pub fn tmp_dir_named(name: &str) -> (path: String)
    ensures
        path@ == "/tmp/"@ + name@,
{
    let mut path: String = String::from_str("/tmp/");
    path.append(name);
    path
}

/// Joins `name` to the directory `base`.
pub fn join(base: &str, name: &str) -> (path: String)
    ensures
        path@ == joined(base@, name@),
{
    let n: usize = base.unicode_len();
    let mut path: String = String::from_str(base);
    if n > 0 {
        let last: char = base.get_char(n - 1);
        if last != '/' {
            proof {
                reveal_strlit("/");
            }
            path.append("/");
        }
    }
    path.append(name);
    path
}

/// The directory of the configuration.
pub fn get_config_dir(profile: BuildProfile, application: &str, dirs: &ProjectDirs) -> (path:
    String)
    ensures
        path@ == config_dir_of(profile, application@, dirs@),
{
    if is_debug(profile) {
        get_dev_data_dir(application)
    } else {
        dirs.config_local_dir.clone()
    }
}

/// The directory of the data.
pub fn get_data_dir(profile: BuildProfile, application: &str, dirs: &ProjectDirs) -> (path: String)
    ensures
        path@ == data_dir_of(profile, application@, dirs@),
{
    if is_debug(profile) {
        get_dev_data_dir(application)
    } else {
        dirs.data_local_dir.clone()
    }
}

/// The directory of the log files.
pub fn get_logs_dir(profile: BuildProfile, application: &str, dirs: &ProjectDirs) -> (path: String)
    ensures
        path@ == logs_dir_of(profile, application@, dirs@),
{
    if is_debug(profile) {
        get_dev_data_dir(application)
    } else {
        join(dirs.data_local_dir.as_str(), "logs")
    }
}

/// Lists the directories that must exist before the application runs.
pub fn required_dirs(dirs: &ProjectDirs) -> (paths: Vec<String>)
    ensures
        texts_view(paths@) == required_dirs_of(dirs@),
{
    let mut paths: Vec<String> = Vec::new();
    paths.push(dirs.config_dir.clone());
    paths.push(dirs.data_local_dir.clone());
    paths.push(join(dirs.data_local_dir.as_str(), "logs"));
    assert(texts_view(paths@) =~= required_dirs_of(dirs@));
    paths
}

/// Decides where the database lies. `from_environment` is what the
/// environment names as the database, if it names one.
pub fn database_url(
    profile: BuildProfile,
    from_environment: Option<String>,
    config_dir: &str,
    file_name: &str,
) -> (url: Option<String>)
    ensures
        text_view(url) == database_url_of(
            profile,
            text_view(from_environment),
            config_dir@,
            file_name@,
        ),
{
    if is_debug(profile) {
        from_environment
    } else {
        Some(join(config_dir, file_name))
    }
}

} // verus!
