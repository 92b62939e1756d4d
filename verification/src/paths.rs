//! Cross-platform application paths.
//!
//! The configuration directory holds the settings and vocabulary files; the
//! local data directory holds downloaded model files.  The platform base
//! directories come from the `dirs` crate through trusted wrappers; the path
//! assembly on top is verified.

use vstd::prelude::*;

verus! {

/// Relies on `dirs::config_dir`: the platform's configuration base
/// directory, as a UTF-8 string.  The result depends on the environment, so
/// nothing is promised of it; a missing or non-UTF-8 path yields `None`.
#[verifier::external_body]
fn platform_config_dir() -> Option<String> {
    dirs::config_dir().and_then(|p| p.to_str().map(|s| s.to_string()))
}

/// Relies on `dirs::data_local_dir`: the platform's local data base
/// directory, as a UTF-8 string.  The result depends on the environment, so
/// nothing is promised of it; a missing or non-UTF-8 path yields `None`.
#[verifier::external_body]
fn platform_data_local_dir() -> Option<String> {
    dirs::data_local_dir().and_then(|p| p.to_str().map(|s| s.to_string()))
}

/// Holds all resolved application directory and file paths.
#[derive(Debug, Clone)]
pub struct AppPaths {
    /// Directory for the settings and user-vocabulary files.
    pub config_dir: String,
    /// Full path to the settings file.
    pub settings_file: String,
    /// Full path to the user-vocabulary file.
    pub user_vocab_file: String,
    /// Directory for downloaded model files.
    pub models_dir: String,
}

impl AppPaths {
    /// Whether the four paths hang together: the files live under the
    /// configuration directory under their fixed names, and both
    /// directories end in the application's own directory name.
    pub open spec fn wf(&self) -> bool {
        &&& (exists|base: Seq<char>| self.config_dir@ == base + "/voice-to-text"@)
        &&& (exists|base: Seq<char>| self.models_dir@ == base + "/voice-to-text/models"@)
        &&& self.settings_file@ == self.config_dir@ + "/settings.toml"@
        &&& self.user_vocab_file@ == self.config_dir@ + "/user-vocab.json"@
    }

    /// Resolve all paths from the platform base directories, falling back
    /// to the current directory where the platform provides none.
    pub fn new() -> (r: Self)
        ensures
            r.wf(),
    {
        let config_base: String = match platform_config_dir() {
            Some(d) => d,
            None => ".".to_owned(),
        };
        let data_base: String = match platform_data_local_dir() {
            Some(d) => d,
            None => ".".to_owned(),
        };

        let mut config_dir = config_base;
        config_dir.append("/voice-to-text");

        let mut models_dir = data_base;
        models_dir.append("/voice-to-text/models");

        let mut settings_file = config_dir.clone();
        settings_file.append("/settings.toml");

        let mut user_vocab_file = config_dir.clone();
        user_vocab_file.append("/user-vocab.json");

        let r = AppPaths { config_dir, settings_file, user_vocab_file, models_dir };
        proof {
            assert(exists|base: Seq<char>| r.config_dir@ == base + "/voice-to-text"@) by {
                assert(r.config_dir@ == r.config_dir@.take(
                    r.config_dir@.len() - "/voice-to-text"@.len(),
                ) + "/voice-to-text"@) by {
                    assert(r.config_dir@ =~= r.config_dir@.take(
                        r.config_dir@.len() - "/voice-to-text"@.len(),
                    ) + "/voice-to-text"@);
                }
            }
            assert(exists|base: Seq<char>| r.models_dir@ == base + "/voice-to-text/models"@) by {
                assert(r.models_dir@ == r.models_dir@.take(
                    r.models_dir@.len() - "/voice-to-text/models"@.len(),
                ) + "/voice-to-text/models"@) by {
                    assert(r.models_dir@ =~= r.models_dir@.take(
                        r.models_dir@.len() - "/voice-to-text/models"@.len(),
                    ) + "/voice-to-text/models"@);
                }
            }
        }
        r
    }
}

} // verus!
