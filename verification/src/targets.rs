//! The save-capable application allow-list and the well-known window-class
//! table. Both are heuristics over executable names, matched ASCII
//! case-insensitively: an allow-list, not an authoritative registry.

use vstd::prelude::*;

use crate::text::contains_ci;
use crate::text::spec_contains_ci;
use crate::text::str_eq_ci;
use crate::text::seq_eq_ci;

verus! {

/// Office suites.
pub open spec fn spec_matches_office(name: Seq<char>) -> bool {
    ||| spec_contains_ci(name, "WINWORD.EXE"@)
    ||| spec_contains_ci(name, "EXCEL.EXE"@)
    ||| spec_contains_ci(name, "POWERPNT.EXE"@)
    ||| spec_contains_ci(name, "ONENOTE.EXE"@)
    ||| spec_contains_ci(name, "OUTLOOK.EXE"@)
    ||| spec_contains_ci(name, "PUBLISHER.EXE"@)
    ||| spec_contains_ci(name, "MSACCESS.EXE"@)
    ||| spec_contains_ci(name, "swriter.exe"@)
    ||| spec_contains_ci(name, "scalc.exe"@)
    ||| spec_contains_ci(name, "simpress.exe"@)
}

fn matches_office(name: &str) -> (r: bool)
    ensures
        r == spec_matches_office(name@),
{
    contains_ci(name, "WINWORD.EXE")
        || contains_ci(name, "EXCEL.EXE")
        || contains_ci(name, "POWERPNT.EXE")
        || contains_ci(name, "ONENOTE.EXE")
        || contains_ci(name, "OUTLOOK.EXE")
        || contains_ci(name, "PUBLISHER.EXE")
        || contains_ci(name, "MSACCESS.EXE")
        || contains_ci(name, "swriter.exe")
        || contains_ci(name, "scalc.exe")
        || contains_ci(name, "simpress.exe")
}

/// Text editors.
pub open spec fn spec_matches_text_editors(name: Seq<char>) -> bool {
    ||| spec_contains_ci(name, "notepad.exe"@)
    ||| spec_contains_ci(name, "notepad++.exe"@)
    ||| spec_contains_ci(name, "sublime_text.exe"@)
    ||| spec_contains_ci(name, "Code.exe"@)
    ||| spec_contains_ci(name, "atom.exe"@)
    ||| spec_contains_ci(name, "vim.exe"@)
    ||| spec_contains_ci(name, "gvim.exe"@)
    ||| spec_contains_ci(name, "emacs.exe"@)
    ||| spec_contains_ci(name, "wordpad.exe"@)
}

fn matches_text_editors(name: &str) -> (r: bool)
    ensures
        r == spec_matches_text_editors(name@),
{
    contains_ci(name, "notepad.exe")
        || contains_ci(name, "notepad++.exe")
        || contains_ci(name, "sublime_text.exe")
        || contains_ci(name, "Code.exe")
        || contains_ci(name, "atom.exe")
        || contains_ci(name, "vim.exe")
        || contains_ci(name, "gvim.exe")
        || contains_ci(name, "emacs.exe")
        || contains_ci(name, "wordpad.exe")
}

/// Integrated development environments.
pub open spec fn spec_matches_ides(name: Seq<char>) -> bool {
    ||| spec_contains_ci(name, "devenv.exe"@)
    ||| spec_contains_ci(name, "idea64.exe"@)
    ||| spec_contains_ci(name, "pycharm64.exe"@)
    ||| spec_contains_ci(name, "webstorm64.exe"@)
    ||| spec_contains_ci(name, "rider64.exe"@)
    ||| spec_contains_ci(name, "eclipse.exe"@)
    ||| spec_contains_ci(name, "android studio.exe"@)
    ||| spec_contains_ci(name, "netbeans64.exe"@)
}

fn matches_ides(name: &str) -> (r: bool)
    ensures
        r == spec_matches_ides(name@),
{
    contains_ci(name, "devenv.exe")
        || contains_ci(name, "idea64.exe")
        || contains_ci(name, "pycharm64.exe")
        || contains_ci(name, "webstorm64.exe")
        || contains_ci(name, "rider64.exe")
        || contains_ci(name, "eclipse.exe")
        || contains_ci(name, "android studio.exe")
        || contains_ci(name, "netbeans64.exe")
}

/// Design tools.
pub open spec fn spec_matches_design(name: Seq<char>) -> bool {
    ||| spec_contains_ci(name, "photoshop.exe"@)
    ||| spec_contains_ci(name, "illustrator.exe"@)
    ||| spec_contains_ci(name, "gimp-2.10.exe"@)
    ||| spec_contains_ci(name, "inkscape.exe"@)
    ||| spec_contains_ci(name, "figma.exe"@)
    ||| spec_contains_ci(name, "xd.exe"@)
    ||| spec_contains_ci(name, "krita.exe"@)
    ||| spec_contains_ci(name, "paint.net.exe"@)
    ||| spec_contains_ci(name, "designer.exe"@)
}

fn matches_design(name: &str) -> (r: bool)
    ensures
        r == spec_matches_design(name@),
{
    contains_ci(name, "photoshop.exe")
        || contains_ci(name, "illustrator.exe")
        || contains_ci(name, "gimp-2.10.exe")
        || contains_ci(name, "inkscape.exe")
        || contains_ci(name, "figma.exe")
        || contains_ci(name, "xd.exe")
        || contains_ci(name, "krita.exe")
        || contains_ci(name, "paint.net.exe")
        || contains_ci(name, "designer.exe")
}

/// Database and development tooling clients.
pub open spec fn spec_matches_dev_tools(name: Seq<char>) -> bool {
    ||| spec_contains_ci(name, "ssms.exe"@)
    ||| spec_contains_ci(name, "pgadmin4.exe"@)
    ||| spec_contains_ci(name, "dbeaver.exe"@)
    ||| spec_contains_ci(name, "postman.exe"@)
    ||| spec_contains_ci(name, "insomnia.exe"@)
    ||| spec_contains_ci(name, "sourcetree.exe"@)
    ||| spec_contains_ci(name, "github desktop.exe"@)
}

fn matches_dev_tools(name: &str) -> (r: bool)
    ensures
        r == spec_matches_dev_tools(name@),
{
    contains_ci(name, "ssms.exe")
        || contains_ci(name, "pgadmin4.exe")
        || contains_ci(name, "dbeaver.exe")
        || contains_ci(name, "postman.exe")
        || contains_ci(name, "insomnia.exe")
        || contains_ci(name, "sourcetree.exe")
        || contains_ci(name, "github desktop.exe")
}

/// Creative and media tools.
pub open spec fn spec_matches_creative(name: Seq<char>) -> bool {
    ||| spec_contains_ci(name, "premiere.exe"@)
    ||| spec_contains_ci(name, "aftereffects.exe"@)
    ||| spec_contains_ci(name, "audition.exe"@)
    ||| spec_contains_ci(name, "vegas.exe"@)
    ||| spec_contains_ci(name, "resolve.exe"@)
    ||| spec_contains_ci(name, "blender.exe"@)
    ||| spec_contains_ci(name, "maya.exe"@)
    ||| spec_contains_ci(name, "3dsmax.exe"@)
}

fn matches_creative(name: &str) -> (r: bool)
    ensures
        r == spec_matches_creative(name@),
{
    contains_ci(name, "premiere.exe")
        || contains_ci(name, "aftereffects.exe")
        || contains_ci(name, "audition.exe")
        || contains_ci(name, "vegas.exe")
        || contains_ci(name, "resolve.exe")
        || contains_ci(name, "blender.exe")
        || contains_ci(name, "maya.exe")
        || contains_ci(name, "3dsmax.exe")
}

/// Browsers.
pub open spec fn spec_matches_browsers(name: Seq<char>) -> bool {
    ||| spec_contains_ci(name, "chrome.exe"@)
    ||| spec_contains_ci(name, "firefox.exe"@)
    ||| spec_contains_ci(name, "msedge.exe"@)
    ||| spec_contains_ci(name, "opera.exe"@)
    ||| spec_contains_ci(name, "brave.exe"@)
}

fn matches_browsers(name: &str) -> (r: bool)
    ensures
        r == spec_matches_browsers(name@),
{
    contains_ci(name, "chrome.exe")
        || contains_ci(name, "firefox.exe")
        || contains_ci(name, "msedge.exe")
        || contains_ci(name, "opera.exe")
        || contains_ci(name, "brave.exe")
}

/// Catch-all list of generic productivity apps.
pub open spec fn spec_matches_productivity(name: Seq<char>) -> bool {
    ||| spec_contains_ci(name, "winword.exe"@)
    ||| spec_contains_ci(name, "excel.exe"@)
    ||| spec_contains_ci(name, "powerpnt.exe"@)
    ||| spec_contains_ci(name, "onenote.exe"@)
    ||| spec_contains_ci(name, "outlook.exe"@)
    ||| spec_contains_ci(name, "publisher.exe"@)
    ||| spec_contains_ci(name, "msaccess.exe"@)
    ||| spec_contains_ci(name, "notepad.exe"@)
    ||| spec_contains_ci(name, "notepad++.exe"@)
    ||| spec_contains_ci(name, "code.exe"@)
    ||| spec_contains_ci(name, "sublime_text.exe"@)
    ||| spec_contains_ci(name, "atom.exe"@)
}

fn matches_productivity(name: &str) -> (r: bool)
    ensures
        r == spec_matches_productivity(name@),
{
    contains_ci(name, "winword.exe")
        || contains_ci(name, "excel.exe")
        || contains_ci(name, "powerpnt.exe")
        || contains_ci(name, "onenote.exe")
        || contains_ci(name, "outlook.exe")
        || contains_ci(name, "publisher.exe")
        || contains_ci(name, "msaccess.exe")
        || contains_ci(name, "notepad.exe")
        || contains_ci(name, "notepad++.exe")
        || contains_ci(name, "code.exe")
        || contains_ci(name, "sublime_text.exe")
        || contains_ci(name, "atom.exe")
}

/// Catch-all list of generic development apps.
pub open spec fn spec_matches_development(name: Seq<char>) -> bool {
    ||| spec_contains_ci(name, "devenv.exe"@)
    ||| spec_contains_ci(name, "idea64.exe"@)
    ||| spec_contains_ci(name, "pycharm64.exe"@)
    ||| spec_contains_ci(name, "webstorm64.exe"@)
    ||| spec_contains_ci(name, "androidstudio64.exe"@)
    ||| spec_contains_ci(name, "eclipse.exe"@)
    ||| spec_contains_ci(name, "netbeans64.exe"@)
    ||| spec_contains_ci(name, "vscode.exe"@)
}

fn matches_development(name: &str) -> (r: bool)
    ensures
        r == spec_matches_development(name@),
{
    contains_ci(name, "devenv.exe")
        || contains_ci(name, "idea64.exe")
        || contains_ci(name, "pycharm64.exe")
        || contains_ci(name, "webstorm64.exe")
        || contains_ci(name, "androidstudio64.exe")
        || contains_ci(name, "eclipse.exe")
        || contains_ci(name, "netbeans64.exe")
        || contains_ci(name, "vscode.exe")
}

/// A process is a save target when its name contains, up to ASCII case, an
/// entry of any of the curated application category lists.
pub open spec fn spec_should_attempt_save(name: Seq<char>) -> bool {

    ||| spec_matches_office(name)
    ||| spec_matches_text_editors(name)
    ||| spec_matches_ides(name)
    ||| spec_matches_design(name)
    ||| spec_matches_dev_tools(name)
    ||| spec_matches_creative(name)
    ||| spec_matches_browsers(name)
    ||| spec_matches_productivity(name)
    ||| spec_matches_development(name)
}

/// Whether a save attempt is worth making before terminating a process of
/// this name: true exactly when the name matches the curated allow-list.
pub fn should_attempt_save(name: &str) -> (r: bool)
    ensures
        r == spec_should_attempt_save(name@),
{

    matches_office(name)
        || matches_text_editors(name)
        || matches_ides(name)
        || matches_design(name)
        || matches_dev_tools(name)
        || matches_creative(name)
        || matches_browsers(name)
        || matches_productivity(name)
        || matches_development(name)
}

/// The static table mapping well-known executable names (compared up to ASCII
/// case) to their application's top-level window class.
pub open spec fn spec_window_class(name: Seq<char>) -> Option<Seq<char>> {

    if seq_eq_ci(name, "WINWORD.EXE"@) {
        Some("OpusApp"@)
    } else if seq_eq_ci(name, "EXCEL.EXE"@) {
        Some("XLMAIN"@)
    } else if seq_eq_ci(name, "POWERPNT.EXE"@) {
        Some("PPTFrameClass"@)
    } else if seq_eq_ci(name, "NOTEPAD.EXE"@) {
        Some("Notepad"@)
    } else if seq_eq_ci(name, "NOTEPAD++.EXE"@) {
        Some("Notepad++"@)
    } else {
        None
    }
}

/// Look the process name up in the window-class table.
pub fn window_class_for(name: &str) -> (r: Option<&'static str>)
    ensures
        r is Some <==> spec_window_class(name@) is Some,
        r is Some ==> r.unwrap()@ == spec_window_class(name@).unwrap(),
{

    if str_eq_ci(name, "WINWORD.EXE") {
        Some("OpusApp")
    } else if str_eq_ci(name, "EXCEL.EXE") {
        Some("XLMAIN")
    } else if str_eq_ci(name, "POWERPNT.EXE") {
        Some("PPTFrameClass")
    } else if str_eq_ci(name, "NOTEPAD.EXE") {
        Some("Notepad")
    } else if str_eq_ci(name, "NOTEPAD++.EXE") {
        Some("Notepad++")
    } else {
        None
    }
}

} // verus!
