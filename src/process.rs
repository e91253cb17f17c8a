//! Finding a running core in the process table, and what starting,
//! restarting and the control actions do.

use vstd::prelude::*;
use vstd::string::*;
use crate::text::{concat, contains, is_nth_word, nth_word, occurs_in, replace_all, replaced, str_eq, words_before};

verus! {

/// The configuration directory of xray.
pub const XRAY_CONF: &'static str = "/opt/etc/xray/configs";
/// The asset directory of xray.
pub const XRAY_ASSET: &'static str = "/opt/etc/xray/dat";
/// The home directory of mihomo.
pub const MIHOMO_CONF: &'static str = "/opt/etc/mihomo";
/// The group a spawned core runs as.
pub const CORE_GROUP_ID: u32 = 11111;

/// A core's identity: its name, its configuration directory, and whether its
/// configuration is JSON.
pub struct CoreInfo {
    pub name: String,
    pub conf_dir: String,
    pub is_json: bool,
}

/// The identity looked up by name: mihomo by its name, xray for every other.
pub open spec fn core_info_spec(name: Seq<char>, r: CoreInfo) -> bool {
    if name == "mihomo"@ {
        r.name@ == "mihomo"@ && r.conf_dir@ == MIHOMO_CONF@ && !r.is_json
    } else {
        r.name@ == "xray"@ && r.conf_dir@ == XRAY_CONF@ && r.is_json
    }
}

pub fn get_core_info(name: &str) -> (r: CoreInfo)
    ensures
        core_info_spec(name@, r),
{
    if str_eq(name, "mihomo") {
        CoreInfo { name: String::from_str("mihomo"), conf_dir: String::from_str(MIHOMO_CONF), is_json: false }
    } else {
        CoreInfo { name: String::from_str("xray"), conf_dir: String::from_str(XRAY_CONF), is_json: true }
    }
}

/// The init script selects mihomo when it holds this assignment.
pub open spec fn selects_mihomo(init_script: Seq<char>) -> bool {
    occurs_in("name_client=\"mihomo\""@, init_script)
}

/// The active core, read from the text of the init script.
pub fn detect_core(init_script: &str) -> (r: CoreInfo)
    ensures
        core_info_spec(if selects_mihomo(init_script@) { "mihomo"@ } else { "xray"@ }, r),
{
    if contains(init_script, "name_client=\"mihomo\"") {
        get_core_info("mihomo")
    } else {
        proof { reveal_strlit("xray"); reveal_strlit("mihomo"); }
        get_core_info("xray")
    }
}

/// The core that is not `name`: xray for mihomo, mihomo for any other.
pub open spec fn other_core_spec(name: Seq<char>) -> Seq<char> {
    if name == "mihomo"@ { "xray"@ } else { "mihomo"@ }
}

pub fn other_core(name: &str) -> (r: &'static str)
    ensures
        r@ == other_core_spec(name@),
{
    if str_eq(name, "mihomo") { "xray" } else { "mihomo" }
}

/// Which core is active, asked when the status is read. While the recorded
/// core runs it stays (`None`). Otherwise the other core is taken if it
/// runs, else the core the init script selects.
pub fn redetect_core(current: &str, current_running: bool, other_running: bool, init_script: &str)
    -> (r: Option<CoreInfo>)
    ensures
        current_running <==> r is None,
        r matches Some(info) ==> core_info_spec(
            if other_running {
                other_core_spec(current@)
            } else if selects_mihomo(init_script@) {
                "mihomo"@
            } else {
                "xray"@
            },
            info,
        ),
{
    if current_running {
        None
    } else if other_running {
        Some(get_core_info(other_core(current)))
    } else {
        Some(detect_core(init_script))
    }
}

/// The assignment in the init script that selects `core`.
pub open spec fn selection_line(core: Seq<char>) -> Seq<char> {
    "name_client=\""@ + core + "\""@
}

fn selection(core: &str) -> (r: String)
    ensures
        r@ == selection_line(core@),
{
    let head = concat("name_client=\"", core);
    concat(head.as_str(), "\"")
}

/// The init script's text with every selection of `old` turned into a
/// selection of `new`.
pub fn rewrite_init_script(script: &str, old: &str, new: &str) -> (r: String)
    ensures
        r@ == replaced(script@, selection_line(old@), selection_line(new@)),
{
    let from = selection(old);
    let to = selection(new);
    proof { reveal_strlit("name_client=\""); }
    replace_all(script, from.as_str(), to.as_str())
}

/// One live process: its id and the contents of its `comm` file.
pub struct ProcEntry {
    pub pid: i32,
    pub comm: String,
}

/// The process runs the program `name`: its `comm` is the name and a newline.
pub open spec fn is_named(e: ProcEntry, name: Seq<char>) -> bool {
    e.comm@ == name + seq!['\n']
}

/// The id of the first process in the table that runs `name`; `None` when it
/// is not running.
pub fn get_pid(table: &Vec<ProcEntry>, name: &str) -> (r: Option<i32>)
    ensures
        match r {
            Some(p) => exists|i: int| 0 <= i < table@.len() && is_named(table@[i], name@) && table@[i].pid == p
                && forall|k: int| 0 <= k < i ==> !is_named(#[trigger] table@[k], name@),
            None => forall|k: int| 0 <= k < table@.len() ==> !is_named(#[trigger] table@[k], name@),
        },
{
    proof { reveal_strlit("\n"); }
    let line = concat(name, "\n");
    let mut i: usize = 0;
    while i < table.len()
        invariant
            i <= table@.len(),
            line@ == name@ + seq!['\n'],
            forall|k: int| 0 <= k < i ==> !is_named(#[trigger] table@[k], name@),
        decreases table@.len() - i,
    {
        if str_eq(table[i].comm.as_str(), line.as_str()) {
            return Some(table[i].pid);
        }
        i = i + 1;
    }
    None
}

/// The version a core prints when asked: xray gives it as the second word
/// of its output, with a leading `v` added where it has none; mihomo gives it
/// as the third word. `?` when that word is missing or for any other core.
pub open spec fn reported_version(core: Seq<char>, out: Seq<char>, r: Seq<char>) -> bool {
    if core == "xray"@ && words_before(out, out.len() as int) > 1 {
        exists|w: Seq<char>| is_nth_word(out, 1, w) && r == if w[0] == 'v' { w } else { seq!['v'] + w }
    } else if core == "mihomo"@ && words_before(out, out.len() as int) > 2 {
        is_nth_word(out, 2, r)
    } else {
        r == "?"@
    }
}

/// Reads the version out of what a core printed for its version command.
pub fn core_version(core: &str, output: &str) -> (r: String)
    ensures
        reported_version(core@, output@, r@),
{
    if str_eq(core, "xray") {
        if let Some(w) = nth_word(output, 1) {
            proof {
                let (a, b) = choose|a: int, b: int| {
                    &&& crate::text::word_start(output@, a) && words_before(output@, a) == 1
                    &&& a < b <= output@.len()
                    &&& forall|k: int| a <= k < b ==> !crate::text::white_space(#[trigger] output@[k])
                    &&& (b == output@.len() || crate::text::white_space(output@[b]))
                    &&& w@ == output@.subrange(a, b)
                };
                assert(w@.len() > 0);
            }
            if w.as_str().get_char(0) == 'v' {
                return w;
            }
            proof { reveal_strlit("v"); }
            let r = concat("v", w.as_str());
            assert(r@ =~= seq!['v'] + w@);
            assert(is_nth_word(output@, 1, w@) && r@ == if w@[0] == 'v' { w@ } else { seq!['v'] + w@ });
            return r;
        }
    } else if str_eq(core, "mihomo") {
        if let Some(w) = nth_word(output, 2) {
            return w;
        }
    }
    proof { reveal_strlit("?"); }
    String::from_str("?")
}

/// How to start a core process.
pub struct SpawnPlan {
    /// The program to run: the core's name, looked up on the search path.
    pub program: String,
    /// Variables added to the environment, in order.
    pub env: Vec<(String, String)>,
    /// The group id the process takes before it runs.
    pub group_id: u32,
    /// The open-file limit set on the process once it runs.
    pub fd_limit: u64,
}

/// The open-file limit: higher on 64-bit ARM than on the MIPS targets.
pub open spec fn fd_limit_spec(arch: Seq<char>) -> u64 {
    if arch == "aarch64"@ { 40000 } else { 10000 }
}

/// The environment of a core: xray is pointed at its configuration and
/// asset directories, any other core at mihomo's home directory.
pub open spec fn env_spec(core: Seq<char>, env: Seq<(String, String)>) -> bool {
    if core == "xray"@ {
        &&& env.len() == 2
        &&& env[0].0@ == "XRAY_LOCATION_CONFDIR"@ && env[0].1@ == XRAY_CONF@
        &&& env[1].0@ == "XRAY_LOCATION_ASSET"@ && env[1].1@ == XRAY_ASSET@
    } else {
        &&& env.len() == 1
        &&& env[0].0@ == "CLASH_HOME_DIR"@ && env[0].1@ == MIHOMO_CONF@
    }
}

pub open spec fn spawn_plan_spec(core: Seq<char>, arch: Seq<char>, r: SpawnPlan) -> bool {
    &&& r.program@ == core
    &&& env_spec(core, r.env@)
    &&& r.group_id == CORE_GROUP_ID
    &&& r.fd_limit == fd_limit_spec(arch)
}

/// How to start `core` on the architecture named `arch`: as a new session,
/// in the core group, with its environment and the open-file limit of the
/// architecture.
pub fn spawn_plan(core: &str, arch: &str) -> (r: SpawnPlan)
    ensures
        spawn_plan_spec(core@, arch@, r),
{
    let mut env: Vec<(String, String)> = Vec::new();
    if str_eq(core, "xray") {
        env.push((String::from_str("XRAY_LOCATION_CONFDIR"), String::from_str(XRAY_CONF)));
        env.push((String::from_str("XRAY_LOCATION_ASSET"), String::from_str(XRAY_ASSET)));
    } else {
        env.push((String::from_str("CLASH_HOME_DIR"), String::from_str(MIHOMO_CONF)));
    }
    let fd_limit: u64 = if str_eq(arch, "aarch64") { 40000 } else { 10000 };
    SpawnPlan { program: String::from_str(core), env, group_id: CORE_GROUP_ID, fd_limit }
}

/// A soft restart: kill the running instance, if any, at once, then start a
/// new one whatever was running.
pub struct RestartPlan {
    pub kill: Option<i32>,
    pub spawn: SpawnPlan,
}

pub fn soft_restart_plan(core: &str, table: &Vec<ProcEntry>, arch: &str) -> (r: RestartPlan)
    ensures
        match r.kill {
            Some(p) => exists|i: int| 0 <= i < table@.len() && is_named(table@[i], core@) && table@[i].pid == p
                && forall|k: int| 0 <= k < i ==> !is_named(#[trigger] table@[k], core@),
            None => forall|k: int| 0 <= k < table@.len() ==> !is_named(#[trigger] table@[k], core@),
        },
        spawn_plan_spec(core@, arch@, r.spawn),
{
    RestartPlan { kill: get_pid(table, core), spawn: spawn_plan(core, arch) }
}

/// The control actions a client can request.
#[derive(Clone, Copy, Debug, PartialEq, Eq, Structural)]
pub enum ControlAction {
    SwitchCore,
    SoftRestart,
    Start,
    Stop,
    HardRestart,
}

pub open spec fn action_of(name: Seq<char>) -> Option<ControlAction> {
    if name == "switchCore"@ {
        Some(ControlAction::SwitchCore)
    } else if name == "softRestart"@ {
        Some(ControlAction::SoftRestart)
    } else if name == "start"@ {
        Some(ControlAction::Start)
    } else if name == "stop"@ {
        Some(ControlAction::Stop)
    } else if name == "hardRestart"@ {
        Some(ControlAction::HardRestart)
    } else {
        None
    }
}

impl ControlAction {
    pub fn parse(name: &str) -> (r: Option<ControlAction>)
        ensures
            r == action_of(name@),
    {
        if str_eq(name, "switchCore") {
            Some(ControlAction::SwitchCore)
        } else if str_eq(name, "softRestart") {
            Some(ControlAction::SoftRestart)
        } else if str_eq(name, "start") {
            Some(ControlAction::Start)
        } else if str_eq(name, "stop") {
            Some(ControlAction::Stop)
        } else if str_eq(name, "hardRestart") {
            Some(ControlAction::HardRestart)
        } else {
            None
        }
    }

    /// The argument handed to the init script, for the actions that go through it.
    pub fn init_argument(&self) -> (r: Option<&'static str>)
        ensures
            match *self {
                ControlAction::Start => r matches Some(a) && a@ == "start"@,
                ControlAction::Stop => r matches Some(a) && a@ == "stop"@,
                ControlAction::HardRestart => r matches Some(a) && a@ == "restart"@,
                _ => r is None,
            },
    {
        match self {
            ControlAction::Start => Some("start"),
            ControlAction::Stop => Some("stop"),
            ControlAction::HardRestart => Some("restart"),
            _ => None,
        }
    }

    /// The shared log is emptied before mihomo is started or restarted
    /// through the init script, so logs do not mix across the boundary.
    pub fn truncates_log(&self, current_core: &str) -> (r: bool)
        ensures
            r == (current_core@ == "mihomo"@ && (*self == ControlAction::Start || *self == ControlAction::HardRestart)),
    {
        str_eq(current_core, "mihomo") && (matches!(self, ControlAction::Start) || matches!(self, ControlAction::HardRestart))
    }
}

/// What switching from the active core to another does.
pub struct SwitchPlan {
    /// The init script to use from now on.
    pub init_file: String,
    /// The log is emptied before the new core starts.
    pub truncate_log: bool,
    /// The identity of the new core.
    pub core: CoreInfo,
}

/// Switching to the core that is already active does nothing. Otherwise the
/// old core is stopped, the xkeen script is used when it exists and the xray
/// script else, the log is emptied unless the new core is xray, and the new
/// core is started.
pub fn switch_plan(active: &str, requested: &str, xkeen_script_exists: bool) -> (r: Option<SwitchPlan>)
    ensures
        active@ == requested@ <==> r is None,
        r matches Some(p) ==> {
            &&& p.init_file@ == if xkeen_script_exists { "/opt/etc/init.d/S99xkeen"@ } else { "/opt/etc/init.d/S24xray"@ }
            &&& p.truncate_log == (requested@ != "xray"@)
            &&& core_info_spec(requested@, p.core)
        },
{
    if str_eq(active, requested) {
        return None;
    }
    let init_file = if xkeen_script_exists {
        String::from_str("/opt/etc/init.d/S99xkeen")
    } else {
        String::from_str("/opt/etc/init.d/S24xray")
    };
    Some(SwitchPlan { init_file, truncate_log: !str_eq(requested, "xray"), core: get_core_info(requested) })
}

} // verus!
