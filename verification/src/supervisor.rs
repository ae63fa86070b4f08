//! Decisions of the program's main task: which tasks run for a
//! configuration, where the watcher's events go, and how logging is filtered.
//!
//! Spawning the tasks, the channels and waiting for Ctrl-C stay at the
//! program's edge.
use vstd::prelude::*;
use crate::config::AppConfig;
use crate::event::Event;

verus! {

/// The tasks that run for a configuration.
#[derive(Debug, Clone, Copy, PartialEq, Eq, Structural)]
pub struct TaskPlan {
    /// The file system watcher.
    pub watcher: bool,
    /// The UDP broadcaster.
    pub broadcaster: bool,
    /// The UDP listener.
    pub listener: bool,
    /// Whether the listener passes what it receives to the web server.
    pub listener_forwards_to_web: bool,
    /// The web server.
    pub web_server: bool,
}

/// Why the program refuses to start.
#[derive(Debug, Clone, Copy, PartialEq, Eq, Structural)]
pub enum StartupError {
    /// Broadcaster mode was chosen without folders to watch.
    NoFoldersToWatch,
}

impl StartupError {
    /// The message that the program reports before it exits.
    pub fn message(&self) -> (r: String)
        ensures
            r@ == "BROADCASTER MODE: No folders to watch. Please specify folders via CLI or in hirai.toml."@,
    {
        match self {
            StartupError::NoFoldersToWatch => String::from_str(
                "BROADCASTER MODE: No folders to watch. Please specify folders via CLI or in hirai.toml.",
            ),
        }
    }
}

/// The tasks for a configuration with the given modes, and whether it names
/// any folder.
pub open spec fn spec_plan_tasks(listen: bool, browse: bool, has_folders: bool) -> Result<
    TaskPlan,
    StartupError,
> {
    if !listen && !has_folders {
        Err(StartupError::NoFoldersToWatch)
    } else {
        Ok(
            TaskPlan {
                watcher: !listen,
                broadcaster: !listen,
                listener: listen,
                listener_forwards_to_web: listen && browse,
                web_server: browse,
            },
        )
    }
}

/// The tasks for a configuration: in listener mode the listener (passing
/// events to the web server when browsing); otherwise the watcher and the
/// broadcaster, which need at least one folder; the web server when browsing.
pub fn plan_tasks(app_config: &AppConfig) -> (r: Result<TaskPlan, StartupError>)
    ensures
        r == spec_plan_tasks(
            app_config.listen,
            app_config.browse,
            app_config.folders_to_watch@.len() > 0,
        ),
{
    if !app_config.listen && app_config.folders_to_watch.len() == 0 {
        return Err(StartupError::NoFoldersToWatch);
    }
    Ok(
        TaskPlan {
            watcher: !app_config.listen,
            broadcaster: !app_config.listen,
            listener: app_config.listen,
            listener_forwards_to_web: app_config.listen && app_config.browse,
            web_server: app_config.browse,
        },
    )
}

/// Every plan runs either the watcher and broadcaster together or the
/// listener alone, and whatever the listener passes to the web server has a
/// web server to take it.
pub proof fn law_plan_is_coherent(listen: bool, browse: bool, has_folders: bool)
    ensures
        spec_plan_tasks(listen, browse, has_folders) matches Ok(p) ==> {
            &&& p.watcher == p.broadcaster
            &&& p.listener == !p.watcher
            &&& p.listener_forwards_to_web ==> p.web_server
        },
        spec_plan_tasks(listen, browse, has_folders) is Err <==> (!listen && !has_folders),
{
}

/// The forwarding loop sends a watcher event to the broadcaster exactly when
/// the plan runs a broadcaster, and to the web server exactly when the plan
/// runs one: no event goes to a task that does not run.
pub proof fn law_routing_follows_plan(listen: bool, browse: bool, has_folders: bool)
    ensures
        spec_plan_tasks(listen, browse, has_folders) matches Ok(p) ==> {
            &&& spec_routes_to_broadcaster(listen) == p.broadcaster
            &&& spec_routes_to_web(browse) == p.web_server
        },
{
}

/// Whether a watcher event goes to the broadcaster.
pub open spec fn spec_routes_to_broadcaster(listen: bool) -> bool {
    !listen
}

/// Whether a watcher event goes to the web server.
pub open spec fn spec_routes_to_web(browse: bool) -> bool {
    browse
}

/// What happened to the main task's forwarding loop.
#[derive(Debug)]
pub enum MainInput {
    /// The watcher produced an event.
    WatcherEvent(Event),
    /// The shutdown signal changed (or its sender went away); the value it holds.
    ShutdownChanged(bool),
    /// Neither the watcher channel nor the shutdown signal can deliver anything more.
    Closed,
}

/// What the forwarding loop does next.
#[derive(Debug)]
pub enum MainAction {
    /// Pass the event to the broadcaster and/or the web server.
    Forward { event: Event, to_broadcaster: bool, to_web: bool },
    /// Wait for the next input.
    Continue,
    /// Exit the loop.
    Stop,
}

/// One step of the forwarding loop: a watcher event goes to the broadcaster
/// outside listener mode and to the web server when browsing.
pub fn main_loop_step(input: MainInput, app_config: &AppConfig) -> (r: MainAction)
    ensures
        match input {
            MainInput::WatcherEvent(e) => r == MainAction::Forward {
                event: e,
                to_broadcaster: spec_routes_to_broadcaster(app_config.listen),
                to_web: spec_routes_to_web(app_config.browse),
            },
            MainInput::ShutdownChanged(true) => r is Stop,
            MainInput::ShutdownChanged(false) => r is Continue,
            MainInput::Closed => r is Stop,
        },
{
    match input {
        MainInput::WatcherEvent(event) => MainAction::Forward {
            event,
            to_broadcaster: !app_config.listen,
            to_web: app_config.browse,
        },
        MainInput::ShutdownChanged(stop) => {
            if stop {
                MainAction::Stop
            } else {
                MainAction::Continue
            }
        },
        MainInput::Closed => MainAction::Stop,
    }
}

/// Where the log filter comes from.
#[derive(Debug, Clone, Copy, PartialEq, Eq, Structural)]
pub enum FilterSource {
    /// The `RUST_LOG` environment variable.
    Environment,
    /// The configured log level.
    ConfiguredLevel,
    /// The level "info".
    Fallback,
}

/// The log filter's source: the environment when it holds a valid filter,
/// else the configured level when it is a valid filter, else "info".
pub fn choose_log_filter(env_filter_valid: bool, configured_level_valid: bool) -> (r: FilterSource)
    ensures
        env_filter_valid ==> r == FilterSource::Environment,
        !env_filter_valid && configured_level_valid ==> r == FilterSource::ConfiguredLevel,
        !env_filter_valid && !configured_level_valid ==> r == FilterSource::Fallback,
{
    if env_filter_valid {
        FilterSource::Environment
    } else if configured_level_valid {
        FilterSource::ConfiguredLevel
    } else {
        FilterSource::Fallback
    }
}

/// What runs for a configuration: with listen set, the listener and no
/// watcher or broadcaster, whatever the folders; without it, the watcher and
/// the broadcaster, or a refusal when there are no folders; the web server
/// exactly when browse is set; the listener passes events to the web server
/// exactly when both listen and browse are set, whatever the folders.
pub proof fn law_plan_tasks(listen: bool, browse: bool, has_folders: bool)
    ensures
        (listen || has_folders) ==> spec_plan_tasks(listen, browse, has_folders) is Ok,
        !(listen || has_folders) ==> spec_plan_tasks(listen, browse, has_folders) == Err::<
            TaskPlan,
            StartupError,
        >(StartupError::NoFoldersToWatch),
        spec_plan_tasks(listen, browse, has_folders) matches Ok(p) ==> {
            &&& p.listener == listen
            &&& p.watcher == !listen
            &&& p.broadcaster == !listen
            &&& p.web_server == browse
            &&& p.listener_forwards_to_web == (listen && browse)
        },
        spec_plan_tasks(listen, browse, true) == spec_plan_tasks(listen, browse, false) || !listen,
{
}

/// A watcher event goes to the broadcaster exactly outside listener mode, and
/// to the web server exactly when browsing.
pub proof fn law_routes(listen: bool, browse: bool)
    ensures
        spec_routes_to_broadcaster(listen) == !listen,
        spec_routes_to_web(browse) == browse,
{
}

} // verus!
