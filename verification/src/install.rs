//! The installation itself: where the program and the extension go, and
//! what the installed program's self-check reports.

use vstd::prelude::*;

use crate::platform::Platform;
use crate::text::{decode_utf8_lossy, joined, path_join, utf8_lossy};

verus! {

/// What an installation left behind: the installed program, the extension
/// folder when one was copied, and the backup of the previous configuration
/// when there was one.
#[derive(Clone, Debug, PartialEq, Eq)]
pub struct InstallResult {
    pub exe_path: String,
    pub extension_dir: Option<String>,
    pub backup_path: Option<String>,
}

pub struct InstallResultView {
    pub exe_path: Seq<char>,
    pub extension_dir: Option<Seq<char>>,
    pub backup_path: Option<Seq<char>>,
}

impl View for InstallResult {
    type V = InstallResultView;

    open spec fn view(&self) -> InstallResultView {
        InstallResultView {
            exe_path: self.exe_path@,
            extension_dir: self.extension_dir.deep_view(),
            backup_path: self.backup_path.deep_view(),
        }
    }
}

/// Where an installation puts things.
#[derive(Clone, Debug, PartialEq, Eq)]
pub struct InstallPlan {
    /// The program's place in the installation folder.
    pub dest_bin: String,
    /// The extension folder to copy, and where it goes.
    pub extension: Option<(String, String)>,
    /// The permission bits to give the program (on Unix-like systems).
    pub unix_mode: Option<u32>,
    /// Whether the installed program registers the native messaging host
    /// after the extension is copied (Windows only).
    pub register_extension_host: bool,
}

/// The plan for installing into `install_dir` under the name
/// `dest_bin_name`: the extension is copied only when a source folder is
/// given and exists, into `extension` inside the installation; the program
/// becomes executable (`0o755`) off Windows; on Windows, a copied extension
/// is followed by the registration of the native messaging host.
pub fn install_plan(
    platform: Platform,
    install_dir: &str,
    dest_bin_name: &str,
    src_extension_dir: Option<String>,
    extension_exists: bool,
) -> (p: InstallPlan)
    ensures
        joined(p.dest_bin@, install_dir@, dest_bin_name@),
        p.extension is Some <==> (src_extension_dir is Some && extension_exists),
        p.extension matches Some((src, dest)) ==> (src_extension_dir matches Some(s) && src@ == s@
            && joined(dest@, install_dir@, "extension"@)),
        p.unix_mode == if platform == Platform::Other {
            Some(0o755u32)
        } else {
            None::<u32>
        },
        p.register_extension_host == (p.extension is Some && platform == Platform::Windows),
{
    let dest_bin = path_join(install_dir, dest_bin_name);
    let extension = match src_extension_dir {
        Some(src) => if extension_exists {
            Some((src, path_join(install_dir, "extension")))
        } else {
            None
        },
        None => None,
    };
    let register_extension_host = extension.is_some() && platform == Platform::Windows;
    let unix_mode = if platform == Platform::Other {
        Some(0o755u32)
    } else {
        None
    };
    InstallPlan { dest_bin, extension, unix_mode, register_extension_host }
}

impl InstallPlan {
    /// The result of carrying out this plan, with the backup that the
    /// configuration update made, if any.
    pub fn result(&self, backup_path: Option<String>) -> (r: InstallResult)
        ensures
            r.exe_path@ == self.dest_bin@,
            r.extension_dir.deep_view() == match self.extension {
                Some((_, dest)) => Some(dest@),
                None => None,
            },
            r.backup_path == backup_path,
    {
        let extension_dir = match &self.extension {
            Some((_, dest)) => Some(dest.clone()),
            None => None,
        };
        InstallResult { exe_path: self.dest_bin.clone(), extension_dir, backup_path }
    }
}

/// The full text of a `doctor` run: its standard output, followed, when
/// anything went to standard error, by a separator line and that output.
pub open spec fn doctor_text(stdout: Seq<u8>, stderr: Seq<u8>) -> Seq<char> {
    if stderr.len() == 0 {
        utf8_lossy(stdout)
    } else {
        utf8_lossy(stdout) + "\n--- stderr ---\n"@ + utf8_lossy(stderr)
    }
}

/// The report of the installed program's `doctor` from its two outputs
/// (the text part of `run_doctor`).
pub fn doctor_report(stdout: &[u8], stderr: &[u8]) -> (text: String)
    ensures
        text@ == doctor_text(stdout@, stderr@),
{
    let mut text = decode_utf8_lossy(stdout);
    if stderr.len() > 0 {
        text.append("\n--- stderr ---\n");
        let err = decode_utf8_lossy(stderr);
        text.append(err.as_str());
    }
    text
}

} // verus!
