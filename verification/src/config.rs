//! Configuration: the command-line arguments, the layered file/environment
//! configuration, and the final configuration that the program runs with.
//!
//! Reading the command line, the environment and `hirai.toml` happens at the
//! program's edge; what is decided from what was read is here.
use vstd::prelude::*;

verus! {

/// `std::path::PathBuf`, carried through unread.
#[verifier::external_type_specification]
#[verifier::external_body]
pub struct ExPathBuf(std::path::PathBuf);

/// The multicast address used when no source names one.
pub const DEFAULT_MULTICAST_ADDR: &'static str = "239.0.0.1:9999";

/// The web UI address used when no source names one.
pub const DEFAULT_WEB_ADDR: &'static str = "0.0.0.0:8080";

/// The log level used when neither `HIRAI_LOG_LEVEL` nor any other source names one.
pub const FALLBACK_LOG_LEVEL: &'static str = "info";

/// The configuration file read when `--config` is absent.
pub const DEFAULT_CONFIG_FILE: &'static str = "hirai.toml";

/// Command-line arguments for the application.
#[derive(Debug, Default)]
pub struct CliArgs {
    /// Run in listener mode (receive and print events)
    pub listen: bool,
    /// Enable web UI for monitoring changes
    pub browse: bool,
    /// UDP multicast address (e.g., "239.0.0.1:9999")
    pub multicast: Option<String>,
    /// HTTP address for web UI (e.g., "0.0.0.0:8080")
    pub webaddr: Option<String>,
    /// Path to a configuration file (e.g., hirai.toml)
    pub config: Option<std::path::PathBuf>,
    /// One or more directories to monitor
    pub folders: Vec<String>,
    /// Log level (e.g., trace, debug, info, warn, error)
    pub log_level: Option<String>,
}

/// Configuration loaded from file, environment, or defaults.
#[derive(Debug, Default)]
pub struct FileConfig {
    /// Folders to watch
    pub folders: Option<Vec<String>>,
    /// Multicast address
    pub multicast: Option<String>,
    /// Web address
    pub webaddr: Option<String>,
    /// Listener mode
    pub listen: Option<bool>,
    /// Web UI browsing
    pub browse: Option<bool>,
    /// Log level
    pub log_level: Option<String>,
}

/// Final application configuration after merging all sources.
#[derive(Debug)]
pub struct AppConfig {
    /// Whether to run in listener mode
    pub listen: bool,
    /// Whether to enable web UI
    pub browse: bool,
    /// UDP multicast address
    pub multicast_addr: String,
    /// HTTP address for web UI
    pub web_addr: String,
    /// Directories to monitor
    pub folders_to_watch: Vec<String>,
    /// Log level
    pub log_level: String,
}

/// The text of an optional setting.
pub open spec fn text_of(v: Option<String>) -> Option<Seq<char>> {
    match v {
        Some(s) => Some(s@),
        None => None,
    }
}

/// The first of two optional settings that is present, else the fallback.
pub open spec fn first_present(
    higher: Option<String>,
    lower: Option<String>,
    fallback: Seq<char>,
) -> Seq<char> {
    match higher {
        Some(s) => s@,
        None => match lower {
            Some(s) => s@,
            None => fallback,
        },
    }
}

/// The folders of a file configuration, none when absent.
pub open spec fn folders_or_empty(folders: Option<Vec<String>>) -> Seq<String> {
    match folders {
        Some(v) => v@,
        None => Seq::empty(),
    }
}

/// The log level that stands when no source names one: the value of
/// `HIRAI_LOG_LEVEL` when it was set, else "info".
pub open spec fn spec_default_log_level(env_value: Option<String>) -> Seq<char> {
    match env_value {
        Some(s) => s@,
        None => FALLBACK_LOG_LEVEL@,
    }
}

/// The log level that stands when no source names one, given the value of
/// the environment variable `HIRAI_LOG_LEVEL` (`None` when it is unset or not
/// valid Unicode).
pub fn default_log_level(env_value: Option<String>) -> (r: String)
    ensures
        r@ == spec_default_log_level(env_value),
{
    match env_value {
        Some(s) => s,
        None => String::from_str(FALLBACK_LOG_LEVEL),
    }
}

impl FileConfig {
    /// The lowest-precedence layer: every setting at its built-in default, the
    /// log level at `default_log_level`, and no folders.
    pub fn defaults(default_log_level: String) -> (r: FileConfig)
        ensures
            text_of(r.multicast) == Some(DEFAULT_MULTICAST_ADDR@),
            text_of(r.webaddr) == Some(DEFAULT_WEB_ADDR@),
            r.listen == Some(false),
            r.browse == Some(false),
            text_of(r.log_level) == Some(default_log_level@),
            r.folders matches Some(f) && f@.len() == 0,
    {
        FileConfig {
            multicast: Some(String::from_str(DEFAULT_MULTICAST_ADDR)),
            webaddr: Some(String::from_str(DEFAULT_WEB_ADDR)),
            listen: Some(false),
            browse: Some(false),
            log_level: Some(default_log_level),
            folders: Some(Vec::new()),
        }
    }

    /// Lays `higher` over `lower`: each setting that `higher` names wins, the
    /// others keep `lower`'s value.
    pub fn layered(lower: FileConfig, higher: FileConfig) -> (r: FileConfig)
        ensures
            r.folders == overlay(lower.folders, higher.folders),
            r.multicast == overlay(lower.multicast, higher.multicast),
            r.webaddr == overlay(lower.webaddr, higher.webaddr),
            r.listen == overlay(lower.listen, higher.listen),
            r.browse == overlay(lower.browse, higher.browse),
            r.log_level == overlay(lower.log_level, higher.log_level),
    {
        FileConfig {
            folders: match higher.folders {
                Some(v) => Some(v),
                None => lower.folders,
            },
            multicast: match higher.multicast {
                Some(v) => Some(v),
                None => lower.multicast,
            },
            webaddr: match higher.webaddr {
                Some(v) => Some(v),
                None => lower.webaddr,
            },
            listen: match higher.listen {
                Some(v) => Some(v),
                None => lower.listen,
            },
            browse: match higher.browse {
                Some(v) => Some(v),
                None => lower.browse,
            },
            log_level: match higher.log_level {
                Some(v) => Some(v),
                None => lower.log_level,
            },
        }
    }
}

/// A setting of a higher layer over that of a lower one: the higher one when
/// it is present.
pub open spec fn overlay<T>(lower: Option<T>, higher: Option<T>) -> Option<T> {
    match higher {
        Some(v) => Some(v),
        None => lower,
    }
}

/// The configuration file to read: the one given with `--config`, else
/// `default_path`.
pub fn config_file_path(
    given: Option<std::path::PathBuf>,
    default_path: std::path::PathBuf,
) -> (r: std::path::PathBuf)
    ensures
        r == (match given {
            Some(p) => p,
            None => default_path,
        }),
{
    match given {
        Some(p) => p,
        None => default_path,
    }
}

/// A setting is taken, in this order, from the command line, the
/// environment, the configuration file, the built-in defaults layer, and the
/// fallback: when the layers are laid defaults, then file, then environment,
/// and the command line is applied by `AppConfig::load`.
pub proof fn law_sources_in_precedence_order(
    cli: Option<String>,
    env: Option<String>,
    file: Option<String>,
    defaults: Option<String>,
    fallback: Seq<char>,
)
    ensures
        ({
            let r = first_present(cli, overlay(overlay(defaults, file), env), fallback);
            &&& cli is Some ==> Some(r) == text_of(cli)
            &&& cli is None && env is Some ==> Some(r) == text_of(env)
            &&& cli is None && env is None && file is Some ==> Some(r) == text_of(file)
            &&& cli is None && env is None && file is None && defaults is Some ==> Some(r)
                == text_of(defaults)
            &&& cli is None && env is None && file is None && defaults is None ==> r == fallback
        }),
{
}

impl AppConfig {
    /// The final configuration from the command line, the configuration that
    /// the defaults, the file and the environment merged into (laid in that
    /// order with `FileConfig::layered`), and the default log level.
    ///
    /// Command-line values win over merged ones; a command-line flag that is set
    /// turns its mode on; folders named on the command line replace the merged
    /// list; built-in defaults fill whatever no source names.
    pub fn load(cli: CliArgs, merged: FileConfig, default_log_level: String) -> (cfg: AppConfig)
        ensures
            cfg.listen == (cli.listen || merged.listen == Some(true)),
            cfg.browse == (cli.browse || merged.browse == Some(true)),
            cfg.multicast_addr@ == first_present(
                cli.multicast,
                merged.multicast,
                DEFAULT_MULTICAST_ADDR@,
            ),
            cfg.web_addr@ == first_present(cli.webaddr, merged.webaddr, DEFAULT_WEB_ADDR@),
            cfg.log_level@ == first_present(cli.log_level, merged.log_level, default_log_level@),
            cfg.folders_to_watch@ == (if cli.folders@.len() > 0 {
                cli.folders@
            } else {
                folders_or_empty(merged.folders)
            }),
    {
        let listen = cli.listen || match merged.listen {
            Some(b) => b,
            None => false,
        };
        let browse = cli.browse || match merged.browse {
            Some(b) => b,
            None => false,
        };
        let multicast_addr = match cli.multicast {
            Some(s) => s,
            None => match merged.multicast {
                Some(s) => s,
                None => String::from_str(DEFAULT_MULTICAST_ADDR),
            },
        };
        let web_addr = match cli.webaddr {
            Some(s) => s,
            None => match merged.webaddr {
                Some(s) => s,
                None => String::from_str(DEFAULT_WEB_ADDR),
            },
        };
        let log_level = match cli.log_level {
            Some(s) => s,
            None => match merged.log_level {
                Some(s) => s,
                None => default_log_level,
            },
        };
        let folders_to_watch = if cli.folders.len() > 0 {
            cli.folders
        } else {
            match merged.folders {
                Some(f) => f,
                None => Vec::new(),
            }
        };
        AppConfig { listen, browse, multicast_addr, web_addr, folders_to_watch, log_level }
    }
}

/// The built-in values: multicast group 239.0.0.1 on port 9999, web UI on
/// 0.0.0.0 port 8080, log level "info", configuration file "hirai.toml".
pub proof fn law_built_in_values()
    ensures
        DEFAULT_MULTICAST_ADDR@ == seq!['2', '3', '9', '.', '0', '.', '0', '.', '1', ':', '9', '9', '9', '9'],
        DEFAULT_WEB_ADDR@ == seq!['0', '.', '0', '.', '0', '.', '0', ':', '8', '0', '8', '0'],
        FALLBACK_LOG_LEVEL@ == seq!['i', 'n', 'f', 'o'],
        DEFAULT_CONFIG_FILE@ == seq!['h', 'i', 'r', 'a', 'i', '.', 't', 'o', 'm', 'l'],
{
    reveal_strlit("239.0.0.1:9999");
    reveal_strlit("0.0.0.0:8080");
    reveal_strlit("info");
    reveal_strlit("hirai.toml");
    assert(DEFAULT_MULTICAST_ADDR@ =~= seq![
        '2', '3', '9', '.', '0', '.', '0', '.', '1', ':', '9', '9', '9', '9',
    ]);
    assert(DEFAULT_WEB_ADDR@ =~= seq!['0', '.', '0', '.', '0', '.', '0', ':', '8', '0', '8', '0']);
    assert(FALLBACK_LOG_LEVEL@ =~= seq!['i', 'n', 'f', 'o']);
    assert(DEFAULT_CONFIG_FILE@ =~= seq!['h', 'i', 'r', 'a', 'i', '.', 't', 'o', 'm', 'l']);
}

/// The default log level is the environment's value when there is one, and
/// "info" otherwise.
pub proof fn law_default_log_level(env_value: Option<String>)
    ensures
        env_value is Some ==> Some(spec_default_log_level(env_value)) == text_of(env_value),
        env_value is None ==> spec_default_log_level(env_value) == seq!['i', 'n', 'f', 'o'],
{
    law_built_in_values();
}

/// An optional setting's text is the text of its value, and absent when it is.
pub proof fn law_text_of(v: Option<String>)
    ensures
        v is None <==> text_of(v) is None,
        v is Some ==> text_of(v) == Some(v->Some_0@),
{
}

/// Of a higher and a lower layer, the higher one's setting stands when it
/// names one, and the lower one's otherwise.
pub proof fn law_overlay<T>(lower: Option<T>, higher: Option<T>)
    ensures
        higher is Some ==> overlay(lower, higher) == higher,
        higher is None ==> overlay(lower, higher) == lower,
{
}

/// When the command line names no folders, the folders to watch are all of
/// the merged configuration's folders, in order, or none when it has none;
/// folders named on the command line are watched instead of them.
pub proof fn law_folders_to_watch(cli_folders: Seq<String>, merged: Option<Vec<String>>)
    ensures
        merged is Some ==> folders_or_empty(merged) == merged->Some_0@,
        merged is None ==> folders_or_empty(merged).len() == 0,
        ({
            let chosen = if cli_folders.len() > 0 {
                cli_folders
            } else {
                folders_or_empty(merged)
            };
            &&& cli_folders.len() > 0 ==> chosen == cli_folders
            &&& cli_folders.len() == 0 && merged is Some ==> chosen == merged->Some_0@
            &&& cli_folders.len() == 0 && merged is Some ==> chosen.len()
                == merged->Some_0@.len()
            &&& cli_folders.len() == 0 && merged is None ==> chosen.len() == 0
        }),
{
}

/// Of the command line and the merged configuration, the command line's
/// value stands when it names one, else the merged one, else the fallback.
pub proof fn law_first_present(higher: Option<String>, lower: Option<String>, fallback: Seq<char>)
    ensures
        higher is Some ==> Some(first_present(higher, lower, fallback)) == text_of(higher),
        higher is None && lower is Some ==> Some(first_present(higher, lower, fallback))
            == text_of(lower),
        higher is None && lower is None ==> first_present(higher, lower, fallback) == fallback,
{
}

} // verus!
