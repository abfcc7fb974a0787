//! The decisions behind the commands that read and write files and toggle a window.
//!
//! Nothing here touches the disk or a window. The functions say which path a command
//! works on, what it reports once the work is done, and what toggling a window does.

use vstd::prelude::*;
use vstd::string::*;

verus! {

/// What a command that read or wrote a file reports: whether it succeeded, the path it
/// worked on, and the content that was read or the words of the failure.
pub struct FSResult {
    pub successful: bool,
    pub path: String,
    pub message: String,
}

/// The path of a file of a module, below the directory of the installation.
pub open spec fn module_file_path(
    install_dir: Seq<char>,
    module_name: Seq<char>,
    path: Seq<char>,
) -> Seq<char> {
    install_dir + "/overfloat_modules/"@ + module_name + "/"@ + path
}

/// The path that a file command works on: the path as given, or, for a relative path,
/// the path of that file of the module.
pub open spec fn final_path(
    path: Seq<char>,
    use_relative_path: bool,
    install_dir: Seq<char>,
    module_name: Seq<char>,
) -> Seq<char> {
    if use_relative_path {
        module_file_path(install_dir, module_name, path)
    } else {
        path
    }
}

/// The path of a file of the settings: next to the sources while the application is
/// under development, and else below the directory of the installation.
pub open spec fn settings_path(mode: Seq<char>, install_dir: Seq<char>, file_name: Seq<char>) -> Seq<
    char,
> {
    if mode == "development"@ {
        "../config/"@ + file_name
    } else {
        install_dir + "/config/"@ + file_name
    }
}

/// Returns the path that a file command works on.
pub fn resolve_path(
    path_str: String,
    use_relative_path: bool,
    install_dir: &String,
    module_name: &String,
) -> (resolved: String)
    ensures
        resolved@ == final_path(path_str@, use_relative_path, install_dir@, module_name@),
{
    if use_relative_path {
        let mut resolved = install_dir.clone();
        resolved.append("/overfloat_modules/");
        resolved.append(module_name.as_str());
        resolved.append("/");
        resolved.append(path_str.as_str());
        resolved
    } else {
        path_str
    }
}

/// Reports the outcome of reading the file at `path`: the content, or the words of the
/// failure.
pub fn read_file(path: String, outcome: Result<String, String>) -> (result: FSResult)
    ensures
        result.path == path,
        result.successful == outcome is Ok,
        result.message == match outcome {
            Ok(content) => content,
            Err(error) => error,
        },
{
    match outcome {
        Ok(content) => FSResult { successful: true, path, message: content },
        Err(error) => FSResult { successful: false, path, message: error },
    }
}

/// Reports the outcome of writing the file at `path`: nothing, or the words of the
/// failure.
pub fn write_file(path: String, outcome: Result<(), String>) -> (result: FSResult)
    ensures
        result.path == path,
        result.successful == outcome is Ok,
        match outcome {
            Ok(_) => result.message@ == Seq::<char>::empty(),
            Err(error) => result.message == error,
        },
{
    match outcome {
        Ok(_) => FSResult { successful: true, path, message: String::new() },
        Err(error) => FSResult { successful: false, path, message: error },
    }
}

/// Returns the path of the file `file_name` of the settings, for the mode that the
/// application runs in.
fn settings_file(mode: &String, install_dir: &String, file_name: &str) -> (path: String)
    ensures
        path@ == settings_path(mode@, install_dir@, file_name@),
{
    let development = "development".to_owned();
    if *mode == development {
        let mut path = "../config/".to_owned();
        path.append(file_name);
        path
    } else {
        let mut path = install_dir.clone();
        path.append("/config/");
        path.append(file_name);
        path
    }
}

/// Returns the path of the file that holds the configuration.
pub fn config_path(mode: &String, install_dir: &String) -> (path: String)
    ensures
        path@ == settings_path(mode@, install_dir@, "config.json"@),
{
    settings_file(mode, install_dir, "config.json")
}

/// Returns the path of the file that holds the profiles.
pub fn profiles_path(mode: &String, install_dir: &String) -> (path: String)
    ensures
        path@ == settings_path(mode@, install_dir@, "profiles.json"@),
{
    settings_file(mode, install_dir, "profiles.json")
}

/// What toggling does to a window.
#[derive(Clone, Copy, Debug, PartialEq, Eq, Structural)]
pub enum WindowAction {
    Hide,
    Show,
}

/// The title of the tray item of a window that is shown or hidden: a window that is
/// shown has a check mark before its title.
pub open spec fn tray_title(shown: bool, tray_item_title: Seq<char>) -> Seq<char> {
    if shown {
        "\u{2714} "@ + tray_item_title
    } else {
        tray_item_title
    }
}

/// Decides what toggling a window does: a visible window is hidden and an invisible one
/// is shown. Also returns the title that the tray item gets once that is done.
pub fn tray_toggle_window(visible: bool, tray_item_title: &str) -> (toggled: (WindowAction, String))
    ensures
        toggled.0 == if visible {
            WindowAction::Hide
        } else {
            WindowAction::Show
        },
        toggled.1@ == tray_title(!visible, tray_item_title@),
{
    if visible {
        (WindowAction::Hide, tray_item_title.to_owned())
    } else {
        let mut title = "\u{2714} ".to_owned();
        title.append(tray_item_title);
        (WindowAction::Show, title)
    }
}

} // verus!
