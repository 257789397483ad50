//! Where the backend is reached.

use vstd::prelude::*;

verus! {

/// Which backend a device emulator talks to.
#[derive(Debug, Clone)]
pub enum ApiType {
    Local,
    Production,
    /// A backend at the given base address.
    Custom(String),
}

/// The device emulator's settings.
#[derive(Debug, Clone)]
pub struct AppConfig {
    pub api_base_url: String,
    pub api_type: ApiType,
}

/// The base address that belongs to a kind of backend.
pub open spec fn base_url_of(api_type: ApiType) -> Seq<char> {
    match api_type {
        ApiType::Local => "http://localhost:3000/api"@,
        ApiType::Production => "https://chasepay.pro/api"@,
        ApiType::Custom(url) => url@,
    }
}

impl Default for AppConfig {
    fn default() -> (config: AppConfig)
        ensures
            config.api_type == ApiType::Local,
            config.api_base_url@ == base_url_of(ApiType::Local),
    {
        AppConfig { api_base_url: "http://localhost:3000/api".to_owned(), api_type: ApiType::Local }
    }
}

impl AppConfig {
    /// Switches to another backend and sets the base address that belongs to
    /// it.
    pub fn set_api_type(&mut self, api_type: ApiType)
        ensures
            final(self).api_type == api_type,
            final(self).api_base_url@ == base_url_of(api_type),
    {
        match &api_type {
            ApiType::Local => {
                self.api_base_url = "http://localhost:3000/api".to_owned();
            },
            ApiType::Production => {
                self.api_base_url = "https://chasepay.pro/api".to_owned();
            },
            ApiType::Custom(url) => {
                self.api_base_url = url.clone();
            },
        }
        self.api_type = api_type;
    }
}

/// The merchant emulator's settings. Directories are paths as text.
#[derive(Debug, Clone)]
pub struct Config {
    pub api_base_url: String,
    pub callback_server_port: u16,
    pub data_dir: String,
    pub export_dir: String,
    pub log_level: String,
    pub device_emulator_enabled: bool,
}

impl Config {
    /// The settings a merchant emulator starts with, for the two directories
    /// that its environment gives it.
    pub fn with_dirs(data_dir: String, export_dir: String) -> (config: Config)
        ensures
            config.api_base_url@ == "http://localhost:3000"@,
            config.callback_server_port == 8080,
            config.data_dir == data_dir,
            config.export_dir == export_dir,
            config.log_level@ == "info"@,
            config.device_emulator_enabled,
    {
        Config {
            api_base_url: "http://localhost:3000".to_owned(),
            callback_server_port: 8080,
            data_dir,
            export_dir,
            log_level: "info".to_owned(),
            device_emulator_enabled: true,
        }
    }
}

} // verus!
