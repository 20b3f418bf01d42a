use vstd::prelude::*;
use crate::config::Config;

verus! {

/// The command line: where the identifiers, the catalog and the settings are.
pub struct Args {
    pub input_file: Option<String>,
    pub output_file: String,
    pub config_file: String,
    pub isbn_list: Vec<String>,
}

/// Why no usable settings could be had.
pub enum BuildError {
    ConfigDirCannotBeCreated,
    ConfigDirNotDefined,
    ConfigFileIoError,
    InvalidConfig,
}

impl BuildError {
    pub open spec fn spec_message(&self) -> Seq<char> {
        match self {
            BuildError::ConfigDirCannotBeCreated => "Impossible to create dir"@,
            BuildError::ConfigDirNotDefined => "Error defining base dir"@,
            BuildError::ConfigFileIoError => "Impossible to write config file"@,
            BuildError::InvalidConfig => "Invalid configuration provided"@,
        }
    }

    /// What went wrong, in words.
    pub fn message(&self) -> (r: &'static str)
        ensures
            r@ == self.spec_message(),
    {
        match self {
            BuildError::ConfigDirCannotBeCreated => "Impossible to create dir",
            BuildError::ConfigDirNotDefined => "Error defining base dir",
            BuildError::ConfigFileIoError => "Impossible to write config file",
            BuildError::InvalidConfig => "Invalid configuration provided",
        }
    }
}

/// Turns the command line and the settings file into the settings of a run.
pub struct ConfigBuilder;

impl ConfigBuilder {
    /// The settings of a run, from what was loaded from the settings file (or
    /// the error met while making it), with the catalog location taken from the
    /// command line. Settings without a service address or key are refused.
    pub fn from_cli_args(cli: &Args, loaded: Result<Config, BuildError>) -> (r: Result<
        Config,
        BuildError,
    >)
        ensures
            match loaded {
                Err(e) => r == Err::<Config, BuildError>(e),
                Ok(c) => if c.base_url@.len() > 0 && c.api_key@.len() > 0 {
                    r matches Ok(d) && d.base_url == c.base_url && d.api_key == c.api_key
                        && d.output@ == cli.output_file@
                } else {
                    r matches Err(BuildError::InvalidConfig)
                },
            },
    {
        match loaded {
            Err(e) => Err(e),
            Ok(c) => {
                let mut config = c;
                config.set_default(cli);
                if !config.is_valid() {
                    return Err(BuildError::InvalidConfig);
                }
                Ok(config)
            },
        }
    }
}

} // verus!
