//! The application object: the five numbered steps of a run.

use vstd::prelude::*;
use crate::ui::ProgressTracker;
use crate::text::{decimal, append_usize};

verus! {

/// The number of steps of a run: settings, search mode, scan, download,
/// end.
pub const RUN_STEPS: usize = 5;

/// A run of the tool.
pub struct App {
    pub progress: ProgressTracker,
}

impl App {
    /// A run whose five steps have not started.
    pub fn new() -> (res: Self)
        ensures
            res.progress.spec_current_step() == 0,
            res.progress.spec_total_steps() == RUN_STEPS,
    {
        App { progress: ProgressTracker::new(RUN_STEPS) }
    }
}

impl Default for App {
    fn default() -> (res: Self)
        ensures
            res.progress.spec_current_step() == 0,
            res.progress.spec_total_steps() == RUN_STEPS,
    {
        App::new()
    }
}

/// The name of the first step.
pub const STEP_SETTINGS: &'static str = "Chargement des variables d'environnement";
/// The name of the second step.
pub const STEP_SEARCH: &'static str = "Configuration de la recherche";
/// The name of the third step.
pub const STEP_SCAN: &'static str = "Scan des repos de l'organisation";
/// The name of the fourth step.
pub const STEP_DOWNLOAD: &'static str = "Téléchargement des repos";

/// A count followed by `suffix`, as the steps report their results.
pub fn count_text(n: usize, suffix: &str) -> (res: String)
    ensures
        res@ == decimal(n as nat) + suffix@,
{
    let mut s = String::new();
    append_usize(&mut s, n);
    s.append(suffix);
    s
}

/// The details of the search step: the keyword, or the latest-repositories
/// mode.
pub fn search_details(keyword: &Option<String>) -> (res: String)
    ensures
        match keyword {
            Some(kw) => res@ == "Mot-clé : '"@ + kw@ + "'"@,
            None => res@ == "Mode 500 derniers repos"@,
        },
{
    match keyword {
        Some(kw) => {
            let mut s = String::from_str("Mot-clé : '");
            s.append(kw.as_str());
            s.append("'");
            s
        },
        None => String::from_str("Mode 500 derniers repos"),
    }
}

/// The information line that names the download folder.
pub fn folder_info(path: &str) -> (res: String)
    ensures
        res@ == "📁 Dossier de téléchargement : "@ + path@,
{
    let mut s = String::from_str("📁 Dossier de téléchargement : ");
    s.append(path);
    s
}

} // verus!
