use vstd::prelude::*;

verus! {

/// A program pinned to the taskbar.
#[derive(Clone, Debug)]
pub struct PinnedAppData {
    pub name: String,
    pub exe_path: String,
    pub icon_path: Option<String>,
    pub args: Option<String>,
}

/// The pinned programs as they are saved.
#[derive(Clone, Debug)]
pub struct PinnedAppConfig {
    pub apps: Vec<PinnedAppData>,
}

/// A pinned program as names and path.
pub open spec fn pinned_view(a: PinnedAppData) -> (Seq<char>, Seq<char>, bool, bool) {
    (a.name@, a.exe_path@, a.icon_path is Some, a.args is Some)
}

/// A pinned program without icon or arguments.
fn pinned(name: &str, exe_path: &str) -> (r: PinnedAppData)
    ensures
        pinned_view(r) == (name@, exe_path@, false, false),
{
    PinnedAppData {
        name: String::from_str(name),
        exe_path: String::from_str(exe_path),
        icon_path: None,
        args: None,
    }
}

/// The programs pinned before the user pins any: the file explorer, Edge and
/// Chrome.
pub fn get_default_pinned_apps() -> (r: Vec<PinnedAppData>)
    ensures
        r@.len() == 3,
        pinned_view(r@[0]) == ("File Explorer"@, "explorer.exe"@, false, false),
        pinned_view(r@[1]) == (
            "Microsoft Edge"@,
            "C:\\Program Files (x86)\\Microsoft\\Edge\\Application\\msedge.exe"@,
            false,
            false,
        ),
        pinned_view(r@[2]) == (
            "Google Chrome"@,
            "C:\\Program Files\\Google\\Chrome\\Application\\chrome.exe"@,
            false,
            false,
        ),
{
    let mut apps: Vec<PinnedAppData> = Vec::new();
    apps.push(pinned("File Explorer", "explorer.exe"));
    apps.push(
        pinned(
            "Microsoft Edge",
            "C:\\Program Files (x86)\\Microsoft\\Edge\\Application\\msedge.exe",
        ),
    );
    apps.push(pinned("Google Chrome", "C:\\Program Files\\Google\\Chrome\\Application\\chrome.exe"));
    apps
}

/// A program of the start menu.
#[derive(Clone, Debug)]
pub struct StartMenuItem {
    pub name: String,
    pub exe_path: String,
    pub icon_base64: String,
    pub category: String,
}

/// The start menu entry of a shortcut: named after the shortcut file's stem
/// (`Unknown` when it has none), pointing at the shortcut itself, without
/// icon or category.
pub fn parse_shortcut(stem: Option<&str>, shortcut_path: String) -> (r: Option<StartMenuItem>)
    ensures
        r matches Some(item) && item.name@ == (match stem {
            Some(s) => s@,
            None => "Unknown"@,
        }) && item.exe_path@ == shortcut_path@ && item.icon_base64@.len() == 0
            && item.category@.len() == 0,
{
    let name = match stem {
        Some(s) => String::from_str(s),
        None => String::from_str("Unknown"),
    };
    Some(StartMenuItem {
        name,
        exe_path: shortcut_path,
        icon_base64: String::new(),
        category: String::new(),
    })
}

/// The icon of a program, as an encoded picture. Reading icons out of
/// executables is not supported, so there is none.
pub fn extract_exe_icon(exe_path: &str) -> (r: Option<String>)
    ensures
        r is None,
{
    None
}

/// A program pinned to the toolbar.
#[derive(Clone, Debug)]
pub struct ToolbarPin {
    pub name: String,
    pub path: String,
    pub icon: Option<String>,
}

/// Settings of the toolbar.
#[derive(Clone, Debug)]
pub struct ToolbarConfig {
    pub pins: Vec<ToolbarPin>,
    pub autostart: bool,
    pub weather_api_key: Option<String>,
    pub weather_city: Option<String>,
}

impl Default for ToolbarConfig {
    fn default() -> (r: ToolbarConfig)
        ensures
            r.pins@.len() == 0,
            !r.autostart,
            r.weather_api_key is None,
            r.weather_city is None,
    {
        ToolbarConfig { pins: Vec::new(), autostart: false, weather_api_key: None, weather_city: None }
    }
}

/// A program found installed on the machine.
#[derive(Clone, Debug)]
pub struct InstalledApp {
    pub name: String,
    pub path: String,
}

/// The global shortcut that starts listening, if one is set.
#[derive(Clone, Debug)]
pub struct ListenHotkey(pub Option<String>);

/// A message shown in the assistant's notification bubble, with its answer.
#[derive(Clone, Debug)]
pub struct LucyNotification {
    pub message: String,
    pub response: String,
}

/// One icon read from an executable's resources.
#[derive(Clone, Debug)]
pub struct IconResource {
    pub id: u32,
    pub width: u32,
    pub height: u32,
    pub bits_per_pixel: u16,
    pub data_base64: String,
}

/// One resource of an executable.
#[derive(Clone, Debug)]
pub struct ResourceInfo {
    pub resource_type: String,
    pub resource_id: u32,
    pub resource_name: String,
    pub size: usize,
}

} // verus!
