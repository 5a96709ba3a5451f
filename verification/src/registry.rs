//! The Windows "Programs and Features" entry of inno-creed: which values the
//! uninstall key holds, and the `reg` commands that write and delete them.
//! The entry is optional: inno-creed works without it, but with it a user
//! can remove the program from the usual settings screen.

use vstd::prelude::*;

use crate::text::{join_text, decimal, decimal_text};

verus! {

/// The registry key of the entry.
pub open spec fn uninstall_key() -> Seq<char> {
    "HKCU\\Software\\Microsoft\\Windows\\CurrentVersion\\Uninstall\\inno-creed"@
}

fn uninstall_key_text() -> (k: &'static str)
    ensures
        k@ == uninstall_key(),
{
    "HKCU\\Software\\Microsoft\\Windows\\CurrentVersion\\Uninstall\\inno-creed"
}

/// The type of a registry value.
#[derive(Clone, Copy, Debug, PartialEq, Eq, Structural)]
pub enum RegKind {
    /// `REG_SZ`, a string.
    Text,
    /// `REG_DWORD`, a 32-bit number.
    Dword,
}

/// The name `reg` uses for a value type.
pub open spec fn kind_name(kind: RegKind) -> Seq<char> {
    match kind {
        RegKind::Text => "REG_SZ"@,
        RegKind::Dword => "REG_DWORD"@,
    }
}

/// One value of the entry, its data written as `reg /d` takes it.
#[derive(Clone, Debug, PartialEq, Eq)]
pub struct RegValue {
    pub name: String,
    pub kind: RegKind,
    pub data: String,
}

/// A string value.
pub fn add_string(name: &str, value: &str) -> (v: RegValue)
    ensures
        v.name@ == name@,
        v.kind == RegKind::Text,
        v.data@ == value@,
{
    RegValue { name: String::from_str(name), kind: RegKind::Text, data: String::from_str(value) }
}

/// A number value, its data in decimal.
pub fn add_dword(name: &str, value: u32) -> (v: RegValue)
    ensures
        v.name@ == name@,
        v.kind == RegKind::Dword,
        v.data@ == decimal(value as nat),
{
    RegValue { name: String::from_str(name), kind: RegKind::Dword, data: decimal_text(value) }
}

/// A `reg` command line, and the error reported when the command fails.
#[derive(Clone, Debug, PartialEq, Eq)]
pub struct RegCommand {
    pub args: Vec<String>,
    pub failure_message: String,
}

/// The `reg add` arguments that write `v` into the entry's key, replacing
/// what is there.
pub open spec fn reg_add_args(v: &RegValue) -> Seq<Seq<char>> {
    seq![
        "add"@,
        uninstall_key(),
        "/v"@,
        v.name@,
        "/t"@,
        kind_name(v.kind),
        "/d"@,
        v.data@,
        "/f"@,
    ]
}

/// The command that writes `v`; when `reg` reports failure, the error names
/// the value.
pub fn run_reg_add(v: &RegValue) -> (c: RegCommand)
    ensures
        c.args.deep_view() == reg_add_args(v),
        c.failure_message@ == "레지스트리 등록 실패: "@ + v.name@,
{
    let kind = match v.kind {
        RegKind::Text => "REG_SZ",
        RegKind::Dword => "REG_DWORD",
    };
    let args = vec![
        String::from_str("add"),
        String::from_str(uninstall_key_text()),
        String::from_str("/v"),
        v.name.clone(),
        String::from_str("/t"),
        String::from_str(kind),
        String::from_str("/d"),
        v.data.clone(),
        String::from_str("/f"),
    ];
    assert(args.deep_view() =~= reg_add_args(v));
    RegCommand { args, failure_message: join_text("레지스트리 등록 실패: ", v.name.as_str()) }
}

/// What to do next when commands run one after another and the first
/// refused one stops the run.
#[derive(Clone, Debug, PartialEq, Eq)]
pub enum NextCommand {
    /// Run the command at this position.
    Run(usize),
    /// All commands succeeded.
    Done,
    /// A command was refused; its error.
    Failed(String),
}

/// The first position among the outcomes so far where a command was refused.
pub open spec fn first_refused(succeeded: Seq<bool>, n: int) -> Option<int>
    decreases n,
{
    if n <= 0 {
        None
    } else {
        match first_refused(succeeded, n - 1) {
            Some(i) => Some(i),
            None => if !succeeded[n - 1] {
                Some(n - 1)
            } else {
                None
            },
        }
    }
}

pub enum NextCommandView {
    Run(nat),
    Done,
    Failed(Seq<char>),
}

impl View for NextCommand {
    type V = NextCommandView;

    open spec fn view(&self) -> NextCommandView {
        match self {
            NextCommand::Run(i) => NextCommandView::Run(*i as nat),
            NextCommand::Done => NextCommandView::Done,
            NextCommand::Failed(m) => NextCommandView::Failed(m@),
        }
    }
}

/// The next step of a run of commands whose errors are `messages`, given
/// whether each command run so far succeeded: the error of the first refused
/// one, else the next command, else done.
pub open spec fn next_step(messages: Seq<Seq<char>>, succeeded: Seq<bool>) -> NextCommandView {
    let n: int = if succeeded.len() < messages.len() {
        succeeded.len() as int
    } else {
        messages.len() as int
    };
    match first_refused(succeeded, n) {
        Some(i) => NextCommandView::Failed(messages[i]),
        None => if succeeded.len() < messages.len() {
            NextCommandView::Run(succeeded.len())
        } else {
            NextCommandView::Done
        },
    }
}

/// The next step of a run of commands that stops at the first refused one
/// (see `next_step`).
pub fn next_command(failure_messages: &Vec<String>, succeeded: &Vec<bool>) -> (r: NextCommand)
    ensures
        r@ == next_step(failure_messages.deep_view(), succeeded@),
{
    let n = if succeeded.len() < failure_messages.len() {
        succeeded.len()
    } else {
        failure_messages.len()
    };
    let mut i: usize = 0;
    while i < n
        invariant
            n == (if succeeded@.len() < failure_messages@.len() {
                succeeded@.len()
            } else {
                failure_messages@.len()
            }),
            i <= n,
            first_refused(succeeded@, i as int) is None,
        decreases n - i,
    {
        if !succeeded[i] {
            assert(first_refused(succeeded@, i + 1) == Some(i as int));
            proof {
                lemma_first_refused_stays(succeeded@, i + 1, n as int);
            }
            let m = failure_messages[i].clone();
            assert(failure_messages.deep_view()[i as int] == m@);
            return NextCommand::Failed(m);
        }
        i = i + 1;
    }
    if succeeded.len() < failure_messages.len() {
        NextCommand::Run(succeeded.len())
    } else {
        NextCommand::Done
    }
}

proof fn lemma_first_refused_stays(succeeded: Seq<bool>, k: int, n: int)
    requires
        0 < k <= n,
        first_refused(succeeded, k) is Some,
    ensures
        first_refused(succeeded, n) == first_refused(succeeded, k),
    decreases n - k,
{
    if k < n {
        lemma_first_refused_stays(succeeded, k, n - 1);
    }
}

/// The values of the entry for the installation in `install_dir` whose
/// installer copy is `installer_exe`, in the order they are written.
pub open spec fn entry_values(install_dir: Seq<char>, installer_exe: Seq<char>) -> Seq<(Seq<char>, RegKind, Seq<char>)> {
    seq![
        ("DisplayName"@, RegKind::Text, "inno-creed"@),
        ("UninstallString"@, RegKind::Text, "\""@ + installer_exe + "\" --uninstall"@),
        ("InstallLocation"@, RegKind::Text, install_dir),
        ("Publisher"@, RegKind::Text, "inno-creed"@),
        ("DisplayIcon"@, RegKind::Text, installer_exe),
        ("NoModify"@, RegKind::Dword, decimal(1)),
        ("NoRepair"@, RegKind::Dword, decimal(1)),
    ]
}

/// A value by its name, type and data.
pub open spec fn value_view(v: RegValue) -> (Seq<char>, RegKind, Seq<char>) {
    (v.name@, v.kind, v.data@)
}

/// The values that register the installation in "Programs and Features":
/// the display name, the command that starts the installer copy with
/// `--uninstall`, the installation folder, the publisher, the icon, and no
/// modify or repair buttons. Written in this order; the first that `reg`
/// refuses stops the registration.
pub fn register_uninstall_entry(install_dir: &str, installer_exe: &str) -> (values: Vec<RegValue>)
    ensures
        values@.map_values(|v: RegValue| value_view(v)) == entry_values(install_dir@, installer_exe@),
{
    let uninstall_cmd = join_text(join_text("\"", installer_exe).as_str(), "\" --uninstall");
    let values = vec![
        add_string("DisplayName", "inno-creed"),
        add_string("UninstallString", uninstall_cmd.as_str()),
        add_string("InstallLocation", install_dir),
        add_string("Publisher", "inno-creed"),
        add_string("DisplayIcon", installer_exe),
        add_dword("NoModify", 1),
        add_dword("NoRepair", 1),
    ];
    assert(values@.map_values(|v: RegValue| value_view(v)) =~= entry_values(
        install_dir@,
        installer_exe@,
    ));
    values
}

/// The `reg delete` arguments that remove the whole entry; its outcome is
/// ignored.
pub fn remove_uninstall_entry() -> (args: Vec<String>)
    ensures
        args.deep_view() == seq!["delete"@, uninstall_key(), "/f"@],
{
    let args = vec![
        String::from_str("delete"),
        String::from_str(uninstall_key_text()),
        String::from_str("/f"),
    ];
    assert(args.deep_view() =~= seq!["delete"@, uninstall_key(), "/f"@]);
    args
}

} // verus!
