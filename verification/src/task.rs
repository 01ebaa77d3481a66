//! Task declarations: what may be run, and how the full ordered set of
//! declarations is assembled at startup.

use vstd::prelude::*;

verus! {

use vstd::string::StringExecFns;

/// What to do when a task's run resolves to `Failed`.
#[derive(Debug, Clone, Copy, PartialEq, Eq, Structural)]
pub enum RestartPolicy {
    /// Start the task again (after a host-side cool-down).
    Always,
    /// Surface a user-visible warning through the host's event bus.
    Warn,
    /// Take no action.
    Never,
}

/// Log capacity used when a declaration does not override it.
pub const DEFAULT_LOG_LIMIT: usize = 1000;

/// Abstract value of a [`TaskDescriptor`].
pub struct DescView {
    pub id: Seq<char>,
    pub name: Seq<char>,
    pub command: Seq<char>,
    pub args: Seq<Seq<char>>,
    pub cwd: Option<Seq<char>>,
    pub envs: Option<Seq<(Seq<char>, Seq<char>)>>,
    pub autostart: bool,
    pub group: Seq<char>,
    pub log_limit: Option<usize>,
    pub restart_policy: Option<RestartPolicy>,
}

/// Immutable declaration of one manageable task.
///
/// Duplicate ids between the declared list and the synthesized script
/// tasks are kept as they come: tasks are addressed by position, so a
/// duplicate id only shadows in lookups by id.
#[derive(Debug, Clone, PartialEq)]
pub struct TaskDescriptor {
    pub id: String,
    pub name: String,
    pub command: String,
    pub args: Vec<String>,
    pub cwd: Option<String>,
    pub envs: Option<Vec<(String, String)>>,
    pub autostart: bool,
    pub group: String,
    pub log_limit: Option<usize>,
    pub restart_policy: Option<RestartPolicy>,
}

impl View for TaskDescriptor {
    type V = DescView;

    open spec fn view(&self) -> DescView {
        DescView {
            id: self.id@,
            name: self.name@,
            command: self.command@,
            args: self.args.deep_view(),
            cwd: self.cwd.deep_view(),
            envs: self.envs.deep_view(),
            autostart: self.autostart,
            group: self.group@,
            log_limit: self.log_limit,
            restart_policy: self.restart_policy,
        }
    }
}

impl DeepView for TaskDescriptor {
    type V = DescView;

    open spec fn deep_view(&self) -> DescView {
        self.view()
    }
}

impl TaskDescriptor {
    /// The capacity of the task's log: the declared override, or the
    /// default.
    pub fn effective_log_limit(&self) -> (r: usize)
        ensures
            r == match self@.log_limit {
                Some(l) => l,
                None => DEFAULT_LOG_LIMIT,
            },
    {
        match self.log_limit {
            Some(l) => l,
            None => DEFAULT_LOG_LIMIT,
        }
    }
}

/// A file found by the host's scan of the scripts directory: the file
/// stem and the full path.
#[derive(Debug, Clone, PartialEq)]
pub struct ScriptFile {
    pub stem: String,
    pub path: String,
}

/// Abstract value of a [`ScriptFile`].
pub struct ScriptFileView {
    pub stem: Seq<char>,
    pub path: Seq<char>,
}

impl View for ScriptFile {
    type V = ScriptFileView;

    open spec fn view(&self) -> ScriptFileView {
        ScriptFileView { stem: self.stem@, path: self.path@ }
    }
}

impl DeepView for ScriptFile {
    type V = ScriptFileView;

    open spec fn deep_view(&self) -> ScriptFileView {
        self.view()
    }
}

/// The descriptor synthesized for one discovered script file: a fixed
/// interpreter template over the file's path, never auto-started, grouped
/// under "Scripts", with an id derived from the file stem.
pub open spec fn script_descriptor_model(stem: Seq<char>, path: Seq<char>, dir: Seq<char>) -> DescView {
    DescView {
        id: "deno_"@ + stem,
        name: "[deno] "@ + stem,
        command: "deno"@,
        args: seq!["run"@, "-A"@, "--unstable-kv"@, "--unstable-cron"@, path],
        cwd: Some(dir),
        envs: None,
        autostart: false,
        group: "Scripts"@,
        log_limit: Some(DEFAULT_LOG_LIMIT),
        restart_policy: Some(RestartPolicy::Never),
    }
}

pub fn script_descriptor(stem: &str, path: &str, dir: &str) -> (r: TaskDescriptor)
    ensures
        r@ == script_descriptor_model(stem@, path@, dir@),
{
    let mut id = String::from_str("deno_");
    id.append(stem);
    let mut name = String::from_str("[deno] ");
    name.append(stem);
    let mut args: Vec<String> = Vec::new();
    args.push("run".to_owned());
    args.push("-A".to_owned());
    args.push("--unstable-kv".to_owned());
    args.push("--unstable-cron".to_owned());
    args.push(path.to_owned());
    let r = TaskDescriptor {
        id,
        name,
        command: "deno".to_owned(),
        args,
        cwd: Some(dir.to_owned()),
        envs: None,
        autostart: false,
        group: "Scripts".to_owned(),
        log_limit: Some(DEFAULT_LOG_LIMIT),
        restart_policy: Some(RestartPolicy::Never),
    };
    proof {
        assert(r.args.deep_view() =~= seq![
            "run"@,
            "-A"@,
            "--unstable-kv"@,
            "--unstable-cron"@,
            path@,
        ]);
        assert(r.cwd.deep_view() == Some(dir@));
        assert(r.envs.deep_view() == Option::<Seq<(Seq<char>, Seq<char>)>>::None);
    }
    r
}

/// The full ordered set of descriptors: the declared list (empty when the
/// task-list document failed to parse), followed by one synthesized
/// descriptor per discovered script file, in scan order.
pub open spec fn loaded_descriptors(
    declared: Option<Seq<DescView>>,
    scripts: Seq<ScriptFileView>,
    dir: Seq<char>,
) -> Seq<DescView> {
    let base = match declared {
        Some(d) => d,
        None => Seq::empty(),
    };
    base + scripts.map_values(|s: ScriptFileView| script_descriptor_model(s.stem, s.path, dir))
}

pub fn load_descriptors(
    declared: Option<Vec<TaskDescriptor>>,
    scripts: &Vec<ScriptFile>,
    dir: &str,
) -> (r: Vec<TaskDescriptor>)
    ensures
        r.deep_view() == loaded_descriptors(declared.deep_view(), scripts.deep_view(), dir@),
{
    let ghost declared_view = declared.deep_view();
    let ghost scripts_view = scripts.deep_view();
    let mut r: Vec<TaskDescriptor> = match declared {
        Some(d) => d,
        None => Vec::new(),
    };
    proof {
        assert(r.deep_view() =~= loaded_descriptors(declared_view, scripts_view.take(0), dir@));
    }
    let mut i: usize = 0;
    while i < scripts.len()
        invariant
            i <= scripts.len(),
            scripts_view == scripts.deep_view(),
            r.deep_view() == loaded_descriptors(declared_view, scripts_view.take(i as int), dir@),
        decreases scripts.len() - i,
    {
        let ghost pre = r.deep_view();
        let script = &scripts[i];
        proof {
            assert(script.deep_view() == scripts_view[i as int]);
        }
        let d = script_descriptor(script.stem.as_str(), script.path.as_str(), dir);
        r.push(d);
        proof {
            assert(r.deep_view() =~= pre.push(d.deep_view()));
            assert(scripts_view.take(i + 1).map_values(
                |s: ScriptFileView| script_descriptor_model(s.stem, s.path, dir@),
            ) =~= scripts_view.take(i as int).map_values(
                |s: ScriptFileView| script_descriptor_model(s.stem, s.path, dir@),
            ).push(script_descriptor_model(
                scripts_view[i as int].stem,
                scripts_view[i as int].path,
                dir@,
            )));
            assert(r.deep_view() =~= loaded_descriptors(
                declared_view,
                scripts_view.take(i + 1),
                dir@,
            ));
        }
        i = i + 1;
    }
    proof {
        assert(scripts_view.take(scripts.len() as int) =~= scripts_view);
    }
    r
}

} // verus!
