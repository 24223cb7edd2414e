use aspigro::app::{count_text, folder_info, search_details, App};
use aspigro::batch::{batch_count, next_batch, Batch};
use aspigro::config::Config;
use aspigro::download::{
    batch_header, clone_target, git_clone_args, outcome_line, CloneOutcome, DownloadRun,
};
use aspigro::env::{count_env_variables, expand_tilde, get_env_var, load_vars, EnvSnapshot};
use aspigro::errors::AppError;
use aspigro::fetch::{
    org_repos_url, page_report_text, search_page_count, search_url, OrgFetch, PageReport,
    PageResult, PageStatus, SearchFetch,
};
use aspigro::menu::{on_input, prompt_for, start, MenuState, BAD_MODE_MESSAGE, KEYWORD_PROMPT};
use aspigro::models::Repo;
use aspigro::scan::scan_report;
use aspigro::text::{decimal_string, trim_str};
use aspigro::ui::{clear_menu_code, render_bar, ProgressBar, ProgressTracker};
use std::sync::atomic::Ordering;

fn repo(name: &str) -> Repo {
    Repo {
        name: name.to_string(),
        default_branch: "main".to_string(),
        html_url: format!("https://github.com/org/{}", name),
        description: None,
        language: Some("Rust".to_string()),
        updated_at: "2024-01-01T00:00:00Z".to_string(),
    }
}

fn repos(prefix: &str, n: usize) -> Vec<Repo> {
    (0..n).map(|i| repo(&format!("{}{}", prefix, i))).collect()
}

fn names(v: &[Repo]) -> Vec<String> {
    v.iter().map(|r| r.name.clone()).collect()
}

#[test]
fn decimal_rendering() {
    assert_eq!(decimal_string(0), "0");
    assert_eq!(decimal_string(7), "7");
    assert_eq!(decimal_string(10), "10");
    assert_eq!(decimal_string(1234567890), "1234567890");
    assert_eq!(decimal_string(u128::MAX), u128::MAX.to_string());
}

#[test]
fn trimming_removes_unicode_white_space() {
    assert_eq!(trim_str("  abc \n"), "abc");
    assert_eq!(trim_str("\u{3000}x y\u{a0}"), "x y");
    assert_eq!(trim_str(" \t\r\n"), "");
    assert_eq!(trim_str(""), "");
    assert_eq!(trim_str("a"), "a");
}

#[test]
fn env_var_unset_blank_and_set() {
    assert_eq!(
        get_env_var("GITHUB_TOKEN", None),
        Err("❌ GITHUB_TOKEN non défini dans .env".to_string())
    );
    assert_eq!(
        get_env_var("GITHUB_TOKEN", Some("  \t".to_string())),
        Err("❌ GITHUB_TOKEN vide dans .env".to_string())
    );
    assert_eq!(
        get_env_var("GITHUB_TOKEN", Some(" tok ".to_string())),
        Ok(" tok ".to_string())
    );
}

#[test]
fn tilde_expansion() {
    let home = Some("/home/me".to_string());
    assert_eq!(expand_tilde("~/backups", home.clone()), Ok("/home/me/backups".to_string()));
    assert_eq!(expand_tilde("~", home.clone()), Ok("/home/me".to_string()));
    assert_eq!(expand_tilde("/srv/x", home.clone()), Ok("/srv/x".to_string()));
    assert_eq!(expand_tilde("~user/x", home.clone()), Ok("~user/x".to_string()));
    assert_eq!(expand_tilde("/srv/x", None), Ok("/srv/x".to_string()));
    assert_eq!(
        expand_tilde("~/x", None),
        Err("❌ Variable HOME introuvable".to_string())
    );
    assert_eq!(expand_tilde("~", None), Err("❌ Variable HOME introuvable".to_string()));
}

#[test]
fn counting_sample_variables() {
    assert_eq!(count_env_variables(None), 3);
    let sample = "# settings\nGITHUB_TOKEN=x\n\n  DL_FOLDER_PATH = y\r\n#COMMENT=1\nNOEQUALS\nORGANIZATION_TO_FETCH=z";
    assert_eq!(count_env_variables(Some(sample.to_string())), 3);
    assert_eq!(count_env_variables(Some(String::new())), 0);
    assert_eq!(count_env_variables(Some("A=1\nB=2\n".to_string())), 2);
    assert_eq!(count_env_variables(Some("   # A=1\n=\n".to_string())), 1);
}

fn snapshot() -> EnvSnapshot {
    EnvSnapshot {
        env_file_found: true,
        dotenv_error: None,
        github_token: Some("tok".to_string()),
        dl_folder_path: Some("~/dl".to_string()),
        organization: Some("acme".to_string()),
        home: Some("/home/me".to_string()),
        sample: None,
    }
}

#[test]
fn loading_variables() {
    assert_eq!(
        load_vars(snapshot()),
        Ok(("tok".to_string(), "/home/me/dl".to_string(), "acme".to_string(), 3))
    );
    let mut s = snapshot();
    s.env_file_found = false;
    assert_eq!(
        load_vars(s),
        Err("❌ Fichier .env manquant\nCréez un .env avec : GITHUB_TOKEN, DL_FOLDER_PATH, ORGANIZATION_TO_FETCH".to_string())
    );
    let mut s = snapshot();
    s.dotenv_error = Some("bad line 3".to_string());
    assert_eq!(load_vars(s), Err("❌ Erreur chargement .env : bad line 3".to_string()));
    let mut s = snapshot();
    s.github_token = None;
    s.organization = None;
    assert_eq!(load_vars(s), Err("❌ GITHUB_TOKEN non défini dans .env".to_string()));
    let mut s = snapshot();
    s.dl_folder_path = Some(" ".to_string());
    assert_eq!(load_vars(s), Err("❌ DL_FOLDER_PATH vide dans .env".to_string()));
    let mut s = snapshot();
    s.home = None;
    assert_eq!(load_vars(s), Err("❌ Variable HOME introuvable".to_string()));
    let mut s = snapshot();
    s.organization = Some("".to_string());
    assert_eq!(load_vars(s), Err("❌ ORGANIZATION_TO_FETCH vide dans .env".to_string()));
    let mut s = snapshot();
    s.sample = Some("A=1\nB=2\nC=3\nD=4\n".to_string());
    assert_eq!(load_vars(s).unwrap().3, 4);
}

#[test]
fn config_from_env() {
    let c = Config::from_env(snapshot()).unwrap();
    assert_eq!(c.github_token, "tok");
    assert_eq!(c.download_path, "/home/me/dl");
    assert_eq!(c.organization, "acme");
    assert_eq!(c.batch_size, 8);
    assert_eq!(c.timeout_seconds, 30);
    let mut s = snapshot();
    s.github_token = None;
    match Config::from_env(s) {
        Err(AppError::EnvError(m)) => assert_eq!(m, "❌ GITHUB_TOKEN non défini dans .env"),
        other => panic!("unexpected {:?}", other),
    }
}

#[test]
fn error_messages() {
    assert_eq!(AppError::GitError("x".to_string()).message(), "Erreur Git: x");
    assert_eq!(AppError::EnvError("y".to_string()).message(), "Erreur environnement: y");
    assert_eq!(AppError::HttpError("z".to_string()).message(), "Erreur HTTP: z");
    assert_eq!(AppError::Timeout.message(), "Timeout");
    let io = std::io::Error::new(std::io::ErrorKind::Other, "disk");
    let e: AppError = AppError::from(io);
    assert_eq!(e.message(), "Erreur I/O: disk");
}

#[test]
fn search_pages() {
    assert_eq!(search_page_count(0), 0);
    assert_eq!(search_page_count(1), 1);
    assert_eq!(search_page_count(100), 1);
    assert_eq!(search_page_count(101), 2);
    assert_eq!(search_page_count(950), 10);
    assert_eq!(search_page_count(5000), 10);
    assert_eq!(search_page_count(u32::MAX), 10);
}

#[test]
fn urls() {
    assert_eq!(
        search_url("rust", "acme", 3),
        "https://api.github.com/search/repositories?q=rust+org:acme&per_page=100&page=3"
    );
    assert_eq!(
        org_repos_url("acme", 12),
        "https://api.github.com/orgs/acme/repos?per_page=100&sort=pushed&direction=desc&page=12"
    );
}

#[test]
fn batches() {
    assert_eq!(next_batch(2, 11, 5), Some(Batch { first: 2, count: 5 }));
    assert_eq!(next_batch(7, 11, 5), Some(Batch { first: 7, count: 4 }));
    assert_eq!(next_batch(11, 11, 5), None);
    assert_eq!(batch_count(0, 8), 0);
    assert_eq!(batch_count(8, 8), 1);
    assert_eq!(batch_count(9, 8), 2);
    assert_eq!(batch_count(usize::MAX, 8), usize::MAX / 8 + 1);
}

#[test]
fn search_fetch_flow() {
    let first: Result<(Vec<Repo>, u32), String> = Ok((repos("p1-", 100), 720));
    let mut f = SearchFetch::from_first_page(first);
    assert_eq!(f.total_count(), 720);
    assert_eq!(f.total_pages(), 8);
    let b = f.next_batch().unwrap();
    assert_eq!(b, Batch { first: 2, count: 5 });
    let results: Vec<PageResult> = vec![
        Ok(repos("p2-", 2)),
        Err("API error: 500".to_string()),
        Ok(repos("p4-", 1)),
        Ok(Vec::new()),
        Ok(repos("p6-", 1)),
    ];
    let reports = f.on_batch(results);
    assert_eq!(reports.len(), 5);
    assert_eq!(reports[0].page, 2);
    assert!(matches!(reports[0].status, PageStatus::Loaded));
    assert!(matches!(&reports[1].status, PageStatus::Failed(m) if m == "API error: 500"));
    assert!(matches!(reports[3].status, PageStatus::Loaded));
    assert_eq!(f.repos().len(), 104);
    let b = f.next_batch().unwrap();
    assert_eq!(b, Batch { first: 7, count: 2 });
    f.on_batch(vec![Ok(repos("p7-", 1)), Ok(repos("p8-", 1))]);
    assert_eq!(f.next_batch(), None);
    let all = f.into_repos();
    assert_eq!(all.len(), 106);
    assert_eq!(all[100].name, "p2-0");
    assert_eq!(all[102].name, "p4-0");
    assert_eq!(all[105].name, "p8-0");
}

#[test]
fn search_fetch_first_page_fails() {
    let f = SearchFetch::from_first_page(Err("Connexion échouée: x".to_string()));
    assert_eq!(f.next_batch(), None);
    assert_eq!(f.first_error(), &Some("Connexion échouée: x".to_string()));
    assert!(f.into_repos().is_empty());
}

#[test]
fn search_fetch_single_page() {
    let f = SearchFetch::from_first_page(Ok((repos("a", 3), 3)));
    assert_eq!(f.total_pages(), 1);
    assert_eq!(f.next_batch(), None);
    assert_eq!(names(&f.into_repos()), vec!["a0", "a1", "a2"]);
}

#[test]
fn org_fetch_stops_at_empty_page() {
    let mut f = OrgFetch::new();
    assert_eq!(f.next_batch(), Some(Batch { first: 1, count: 6 }));
    let results: Vec<PageResult> = vec![
        Ok(repos("a", 2)),
        Err("API error: 502".to_string()),
        Ok(repos("c", 1)),
        Ok(Vec::new()),
        Ok(repos("e", 5)),
        Ok(repos("f", 5)),
    ];
    let reports = f.on_batch(results);
    assert_eq!(reports.len(), 4);
    assert!(matches!(reports[3].status, PageStatus::Empty));
    assert_eq!(reports[3].page, 4);
    assert!(f.stopped());
    assert_eq!(f.next_batch(), None);
    let out = f.finish().unwrap();
    assert_eq!(out.found, 3);
    assert_eq!(names(&out.repos), vec!["a0", "a1", "c0"]);
}

#[test]
fn org_fetch_walks_twenty_pages_and_keeps_five_hundred() {
    let mut f = OrgFetch::new();
    let mut batches = Vec::new();
    while let Some(b) = f.next_batch() {
        batches.push(b);
        let results: Vec<PageResult> =
            (0..b.count).map(|i| Ok(repos(&format!("p{}-", b.first + i), 100))).collect();
        f.on_batch(results);
    }
    assert_eq!(
        batches,
        vec![
            Batch { first: 1, count: 6 },
            Batch { first: 7, count: 6 },
            Batch { first: 13, count: 6 },
            Batch { first: 19, count: 2 },
        ]
    );
    let out = f.finish().unwrap();
    assert_eq!(out.found, 2000);
    assert_eq!(out.repos.len(), 500);
    assert_eq!(out.repos[0].name, "p1-0");
    assert_eq!(out.repos[499].name, "p5-99");
}

#[test]
fn org_fetch_without_repositories() {
    let mut f = OrgFetch::new();
    f.on_batch(vec![Ok(Vec::new()), Ok(repos("x", 1)), Ok(repos("x", 1)), Ok(repos("x", 1)), Ok(repos("x", 1)), Ok(repos("x", 1))]);
    assert!(f.finish().is_none());
}

#[test]
fn page_report_texts() {
    let loaded = PageReport { page: 3, status: PageStatus::Loaded };
    assert_eq!(page_report_text(&loaded, true), "🔍3 ");
    assert_eq!(page_report_text(&loaded, false), "📄3 ");
    let empty = PageReport { page: 9, status: PageStatus::Empty };
    assert_eq!(page_report_text(&empty, false), "   📄 Page 9 vide - arrêt");
    let failed = PageReport { page: 4, status: PageStatus::Failed("boom".to_string()) };
    assert_eq!(page_report_text(&failed, true), "\n❌ Erreur page 4: boom");
}

#[test]
fn download_run_counts_outcomes() {
    let mut run = DownloadRun::new(10);
    assert_eq!(run.batch_total(), 2);
    let b = run.next_chunk().unwrap();
    assert_eq!(b, Batch { first: 0, count: 8 });
    let outcomes = vec![
        CloneOutcome::Cloned,
        CloneOutcome::AlreadyPresent,
        CloneOutcome::GitFailed,
        CloneOutcome::SpawnFailed("no git".to_string()),
        CloneOutcome::Cloned,
        CloneOutcome::Cloned,
        CloneOutcome::Cloned,
        CloneOutcome::Cloned,
    ];
    assert_eq!(run.on_chunk(&outcomes), 1);
    assert_eq!(run.tally(), (6, 2));
    let b = run.next_chunk().unwrap();
    assert_eq!(b, Batch { first: 8, count: 2 });
    assert_eq!(run.on_chunk(&vec![CloneOutcome::GitFailed, CloneOutcome::Cloned]), 2);
    assert_eq!(run.next_chunk(), None);
    assert_eq!(run.succeeded(), 7);
    assert_eq!(run.failed(), 3);
    assert_eq!(run.total(), 10);
}

#[test]
fn clone_paths_and_commands() {
    assert_eq!(clone_target("/tmp/dl", "repo"), "/tmp/dl/repo");
    assert_eq!(
        git_clone_args("https://github.com/o/r", "/tmp/dl/r"),
        vec!["clone", "--no-single-branch", "https://github.com/o/r", "/tmp/dl/r"]
    );
    assert_eq!(CloneOutcome::from_git_run(Ok(true)), CloneOutcome::Cloned);
    assert_eq!(CloneOutcome::from_git_run(Ok(false)), CloneOutcome::GitFailed);
    assert_eq!(
        CloneOutcome::from_git_run(Err("x".to_string())),
        CloneOutcome::SpawnFailed("x".to_string())
    );
    assert!(CloneOutcome::AlreadyPresent.succeeded());
    assert!(!CloneOutcome::GitFailed.succeeded());
}

#[test]
fn clone_lines() {
    assert_eq!(
        outcome_line(2, 8, "repo", &CloneOutcome::Cloned),
        "      ✅ 2/8 repo (toutes branches)"
    );
    assert_eq!(
        outcome_line(1, 3, "r", &CloneOutcome::AlreadyPresent),
        "      ⏭️  1/3 r (déjà présent)"
    );
    assert_eq!(
        outcome_line(3, 3, "r", &CloneOutcome::GitFailed),
        "      ❌ 3/3 r (échec git clone)"
    );
    assert_eq!(
        outcome_line(3, 3, "r", &CloneOutcome::SpawnFailed("nope".to_string())),
        "      ❌ 3/3 r (erreur: nope)"
    );
    assert_eq!(batch_header(2, 5, 8), "\n   📦 Batch 2/5 - 8 repos...");
}

#[test]
fn progress_tracker_lines() {
    let mut t = ProgressTracker::new(5);
    assert_eq!(t.start_step("Scan"), "1/5 Scan...");
    assert_eq!(t.complete_step("Scan", "3 repos trouvés"), "\r1/5 Scan... ✅ (3 repos trouvés)");
    assert_eq!(t.complete_step_with_status("Scan", "🚀"), "\r1/5 Scan... 🚀");
    assert_eq!(t.start_step("Next"), "2/5 Next...");
    assert_eq!(t.show_info("hello"), "   hello");
    assert_eq!(t.finalize(), "5/5 Terminé ! ✅");
}

#[test]
fn progress_bar_rendering() {
    let line = render_bar(4, 10, 10);
    assert_eq!(line, "\r   [████░░░░░░] 40% (4/10)");
    assert_eq!(render_bar(0, 0, 4), "\r   [░░░░] 0% (0/0)");
    assert_eq!(render_bar(3, 3, 3), "\r   [███] 100% (3/3)");
    let expected = format!("\r   [{}] 100% (7/7)", "█".repeat(50));
    assert_eq!(render_bar(7, 7, 50), expected);
}

#[test]
fn progress_bar_counter() {
    let bar = ProgressBar::new(4);
    let counter = bar.get_counter();
    assert_eq!(bar.update(), format!("\r   [{}] 0% (0/4)", "░".repeat(50)));
    counter.fetch_add(2, Ordering::Relaxed);
    assert_eq!(
        bar.update(),
        format!("\r   [{}{}] 50% (2/4)", "█".repeat(25), "░".repeat(25))
    );
    counter.fetch_add(2, Ordering::Relaxed);
    assert_eq!(bar.finish(), format!("\r   [{}] 100% (4/4)\n", "█".repeat(50)));
}

#[test]
fn clear_code() {
    assert_eq!(clear_menu_code(8), "\x1b[8A\x1b[0J");
}

#[test]
fn menu_keyword_flow() {
    let s = start();
    assert_eq!(prompt_for(&s), Some("\n👉 Choix (1 ou 2) : "));
    let (s, msg) = on_input(s, "3");
    assert_eq!(msg, Some(BAD_MODE_MESSAGE));
    assert!(matches!(s, MenuState::ChoosingMode));
    let (s, msg) = on_input(s, "1");
    assert_eq!(msg, None);
    assert_eq!(prompt_for(&s), Some(KEYWORD_PROMPT));
    let (s, msg) = on_input(s, "");
    assert_eq!(msg, Some("❌ Mot-clé requis"));
    let (s, _) = on_input(s, "BackEnd");
    assert!(matches!(&s, MenuState::Done(Some(k)) if k == "backend"));
    assert_eq!(prompt_for(&s), None);
}

#[test]
fn menu_latest_flow() {
    let (s, msg) = on_input(start(), "2");
    assert_eq!(msg, None);
    assert!(matches!(s, MenuState::Done(None)));
    let (s, msg) = on_input(start(), "12");
    assert!(matches!(s, MenuState::ChoosingMode));
    assert!(msg.is_some());
}

#[test]
fn scan_report_with_keyword() {
    let v = repos("r", 2);
    let lines = scan_report(&v, Some("web"));
    assert_eq!(
        lines,
        vec![
            "   🔍 2 repositories trouvés avec le mot-clé 'web'".to_string(),
            "   📋 Repositories trouvés :".to_string(),
            "      1. r0 - https://github.com/org/r0".to_string(),
            "      2. r1 - https://github.com/org/r1".to_string(),
        ]
    );
    assert_eq!(
        scan_report(&Vec::new(), Some("web")),
        vec!["   🔍 0 repositories trouvés avec le mot-clé 'web'".to_string()]
    );
}

#[test]
fn scan_report_without_keyword() {
    let v = repos("r", 12);
    let lines = scan_report(&v, None);
    assert_eq!(lines.len(), 14);
    assert_eq!(lines[0], "   📦 12 repositories récupérés (triés par dernière activité)");
    assert_eq!(lines[1], "   📋 Liste des repositories :");
    assert_eq!(lines[11], "      10. r9 - https://github.com/org/r9");
    assert_eq!(lines[12], "      ... et 2 autres");
    assert_eq!(lines[13], "      💡 Utilisez un mot-clé pour filtrer les résultats");
    let v = repos("r", 600);
    assert_eq!(scan_report(&v, None)[0], "   📦 500 repositories récupérés (triés par dernière activité)");
    assert_eq!(scan_report(&repos("r", 3), None).len(), 5);
}

#[test]
fn app_starts_with_five_steps() {
    let mut app = App::new();
    assert_eq!(app.progress.start_step("x"), "1/5 x...");
    let mut d = App::default();
    assert_eq!(d.progress.finalize(), "5/5 Terminé ! ✅");
    let _ = d.progress.start_step("y");
}

#[test]
fn step_details() {
    assert_eq!(count_text(3, " variables chargées"), "3 variables chargées");
    assert_eq!(search_details(&Some("web".to_string())), "Mot-clé : 'web'");
    assert_eq!(search_details(&None), "Mode 500 derniers repos");
    assert_eq!(folder_info("/tmp/x"), "📁 Dossier de téléchargement : /tmp/x");
}
