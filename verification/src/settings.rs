//! Settings of the tool as plain values. Reading and writing the
//! settings file, and the environment lookup of the configuration
//! folder, are I/O and live with the surrounding application; the
//! path arithmetic and the defaults are here.
use vstd::prelude::*;

verus! {

/// Downloader-specific configuration: how many pipelines may run at
/// once.
#[derive(Clone, Copy, Debug, PartialEq, Eq, Structural)]
pub struct DownloaderConfig {
    pub concurrent_downloads: usize,
}

impl DownloaderConfig {
    pub fn new() -> (c: DownloaderConfig)
        ensures
            c.concurrent_downloads == 4,
    {
        DownloaderConfig { concurrent_downloads: 4 }
    }
}

/// All the settings the tool keeps between runs. The market code is
/// held as its two-letter country string.
#[derive(Clone, Debug, PartialEq, Eq)]
pub struct Settings {
    pub username: String,
    pub password: String,
    pub client_id: String,
    pub client_secret: String,
    pub refresh_ui_seconds: u64,
    pub downloader: DownloaderConfig,
    pub market_country_code: Option<String>,
}

impl Settings {
    /// Fresh settings carrying the given credentials and the defaults:
    /// a one-second display refresh, the default downloader
    /// configuration, and no market restriction.
    pub fn new(username: &str, password: &str, client_id: &str, client_secret: &str) -> (s:
        Settings)
        ensures
            s.username@ == username@,
            s.password@ == password@,
            s.client_id@ == client_id@,
            s.client_secret@ == client_secret@,
            s.refresh_ui_seconds == 1,
            s.downloader.concurrent_downloads == 4,
            s.market_country_code is None,
    {
        Settings {
            username: username.to_owned(),
            password: password.to_owned(),
            client_id: client_id.to_owned(),
            client_secret: client_secret.to_owned(),
            refresh_ui_seconds: 1,
            downloader: DownloaderConfig::new(),
            market_country_code: None,
        }
    }
}

/// Full path of the settings file under the given configuration
/// folder. (The folder itself comes from the platform's environment,
/// which the surrounding application reads.)
pub fn get_config_settings_path(config_folder: &str) -> (p: String)
    ensures
        p@ == config_folder@ + "/settings.json"@,
{
    let mut p = config_folder.to_owned();
    p.append("/settings.json");
    p
}

} // verus!
