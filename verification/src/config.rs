//! The server's settings.
use vstd::prelude::*;
use vstd::string::*;

verus! {

/// The port on which the server listens.
pub const PORT: u16 = 3000;

/// How many links may wait for the background worker.
pub const QUEUE_CAPACITY: usize = 128;

/// The folders that the server works with.
#[derive(Debug)]
pub struct Folders {
    pub download: String,
    pub transcode: String,
    pub frontend: String,
}

/// The text of a setting, or of its default where it is not set.
pub open spec fn setting_or(setting: Option<String>, default: Seq<char>) -> Seq<char> {
    match setting {
        Some(text) => text@,
        None => default,
    }
}

impl Folders {
    /// The folders that the settings name. Each has a default.
    pub fn from_settings(
        download: Option<String>,
        transcode: Option<String>,
        frontend: Option<String>,
    ) -> (folders: Folders)
        ensures
            folders.download@ == setting_or(download, "./download"@),
            folders.transcode@ == setting_or(transcode, "./transcode"@),
            folders.frontend@ == setting_or(frontend, "./frontend"@),
            match download {
                Some(folder) => folders.download@ == folder@,
                None => folders.download@ == "./download"@,
            },
            match transcode {
                Some(folder) => folders.transcode@ == folder@,
                None => folders.transcode@ == "./transcode"@,
            },
            match frontend {
                Some(folder) => folders.frontend@ == folder@,
                None => folders.frontend@ == "./frontend"@,
            },
    {
        Folders {
            download: download.unwrap_or("./download".to_owned()),
            transcode: transcode.unwrap_or("./transcode".to_owned()),
            frontend: frontend.unwrap_or("./frontend".to_owned()),
        }
    }

    /// The page that is sent where the frontend has no file of the requested name.
    pub fn fallback_page(&self) -> (path: String)
        ensures
            path@ == self.frontend@ + "/200.html"@,
    {
        let mut path = self.frontend.clone();
        path.append("/200.html");
        path
    }
}

/// A setting that is there is taken as it is. One that is not gives way to its default.
pub proof fn lemma_setting_comes_before_its_default(setting: Option<String>, default: Seq<char>)
    ensures
        setting matches Some(text) ==> setting_or(setting, default) == text@,
        setting is None ==> setting_or(setting, default) == default,
{
}

/// Where the server listens, and how many links may wait.
pub proof fn lemma_fixed_settings()
    ensures
        PORT == 3000,
        QUEUE_CAPACITY == 128,
{
}

} // verus!
