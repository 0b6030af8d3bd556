//! The application's own configuration: where the tailed log and the watched
//! tracker configuration live, and how the overlay is addressed.
//!
//! The value is an explicitly owned snapshot; the runtime loads overrides
//! from the configuration file on top of the defaults below and passes the
//! snapshot to the components that need it.
use vstd::prelude::*;

verus! {

/// Where the tracker's files live.
#[derive(Clone, Debug)]
pub struct AppConfigSlimeVR {
    pub dir: String,
    pub log: String,
    pub vrconfig: String,
}

/// How the overlay service is reached and which text elements it updates.
#[derive(Clone, Debug)]
pub struct AppConfigOBS {
    pub host: String,
    pub port: u16,
    pub password: String,
    pub text_time: String,
    pub text_time_format: String,
    pub text_config: String,
}

/// The whole configuration snapshot.
#[derive(Clone, Debug)]
pub struct AppConfig {
    pub slimevr: AppConfigSlimeVR,
    pub obs: AppConfigOBS,
}

/// `dir` and `file` joined into one path: a separator is inserted unless the
/// directory already ends with one (either kind) or is empty.
pub open spec fn join_path_spec(dir: Seq<char>, file: Seq<char>) -> Seq<char> {
    if dir.len() == 0 {
        file
    } else if dir.last() == '/' || dir.last() == '\\' {
        dir + file
    } else {
        dir + "/"@ + file
    }
}

/// Joins a directory and a file name as `join_path_spec` says.
fn join_path(dir: &str, file: &str) -> (r: String)
    ensures
        r@ == join_path_spec(dir@, file@),
{
    let n = dir.unicode_len();
    if n == 0 {
        return String::from_str(file);
    }
    let last = dir.get_char(n - 1);
    let mut out = String::from_str(dir);
    if !(last == '/' || last == '\\') {
        out.append("/");
    }
    out.append(file);
    out
}

impl AppConfig {
    /// The default configuration: the values every field takes before the
    /// configuration file overrides any of them.
    pub fn new() -> (c: Self)
        ensures
            c.slimevr.dir@ == "C:\\Program Files (x86)\\SlimeVR Server\\"@,
            c.slimevr.log@ == "log_last_0.log"@,
            c.slimevr.vrconfig@ == "vrconfig.yml"@,
            c.obs.host@ == "localhost"@,
            c.obs.port == 4455,
            c.obs.password@ == ""@,
            c.obs.text_time@ == "slimetime"@,
            c.obs.text_time_format@ == "Reset #{num} {time}"@,
            c.obs.text_config@ == "slimeconfig"@,
    {
        AppConfig {
            slimevr: AppConfigSlimeVR {
                dir: String::from_str("C:\\Program Files (x86)\\SlimeVR Server\\"),
                log: String::from_str("log_last_0.log"),
                vrconfig: String::from_str("vrconfig.yml"),
            },
            obs: AppConfigOBS {
                host: String::from_str("localhost"),
                port: 4455,
                password: String::from_str(""),
                text_time: String::from_str("slimetime"),
                text_time_format: String::from_str("Reset #{num} {time}"),
                text_config: String::from_str("slimeconfig"),
            },
        }
    }

    /// Full path of the tailed log file.
    pub fn get_log_path_string(&self) -> (r: String)
        ensures
            r@ == join_path_spec(self.slimevr.dir@, self.slimevr.log@),
    {
        join_path(self.slimevr.dir.as_str(), self.slimevr.log.as_str())
    }

    /// Full path of the watched tracker configuration file.
    pub fn get_vrconfig_path_string(&self) -> (r: String)
        ensures
            r@ == join_path_spec(self.slimevr.dir@, self.slimevr.vrconfig@),
    {
        join_path(self.slimevr.dir.as_str(), self.slimevr.vrconfig.as_str())
    }
}

} // verus!
