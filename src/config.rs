//! The configured apps, as the configuration file describes them.
use vstd::prelude::*;

verus! {

/// Default for list-valued fields: empty.
pub fn _vec_string_new() -> (r: Vec<String>)
    ensures
        r@.len() == 0,
{
    Vec::new()
}

/// Default working directory: the current one.
pub fn _string_new() -> (r: String)
    ensures
        r@ == "."@,
{
    String::from_str(".")
}

/// Default restart delay: one second.
pub fn _u32_one() -> (r: u32)
    ensures
        r == 1,
{
    1
}

/// Default for flags that are on unless configured off.
pub fn _bool_true() -> (r: bool)
    ensures
        r,
{
    true
}

/// Default for flags that are off unless configured on.
pub fn _bool_false() -> (r: bool)
    ensures
        !r,
{
    false
}

/// One app as configured: what to run and how to supervise it.
#[derive(Debug)]
pub struct AppSpec {
    pub exec_path: String,
    pub args: Vec<String>,
    pub env: Vec<String>,
    pub workdir: String,
    pub stdout: bool,
    pub stderr: bool,
    pub restart: bool,
    pub restart_delay: u32,
    pub disable: bool,
}

/// The whole configuration: each app under its unique name, in the order given.
#[derive(Debug)]
pub struct Spec {
    pub apps: Vec<(String, AppSpec)>,
}

/// An app as the supervisor holds it for its whole lifetime, across restarts.
#[derive(Debug)]
pub struct AppInfo {
    pub name: String,
    pub exec_path: String,
    pub args: Vec<String>,
    pub env: Vec<String>,
    pub workdir: String,
    pub stdout: bool,
    pub stderr: bool,
    pub restart: bool,
    pub restart_delay: u32,
    pub disable: bool,
}

/// The app record made of a name and its configuration.
pub open spec fn app_info_of(name: String, app_spec: AppSpec) -> AppInfo {
    AppInfo {
        name: name,
        exec_path: app_spec.exec_path,
        args: app_spec.args,
        env: app_spec.env,
        workdir: app_spec.workdir,
        stdout: app_spec.stdout,
        stderr: app_spec.stderr,
        restart: app_spec.restart,
        restart_delay: app_spec.restart_delay,
        disable: app_spec.disable,
    }
}

impl AppInfo {
    pub fn new(name: String, app_spec: AppSpec) -> (r: AppInfo)
        ensures
            r == app_info_of(name, app_spec),
    {
        AppInfo {
            name: name,
            exec_path: app_spec.exec_path,
            args: app_spec.args,
            env: app_spec.env,
            workdir: app_spec.workdir,
            stdout: app_spec.stdout,
            stderr: app_spec.stderr,
            restart: app_spec.restart,
            restart_delay: app_spec.restart_delay,
            disable: app_spec.disable,
        }
    }
}

} // verus!
