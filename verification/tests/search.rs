use shunpo::coordinator::types::SearchMessageData;
use shunpo::search::entity_model::{
    Dispatcher, ExecutableEntity, ExecutableSource, FileEntity, LauncherEntity, RipgrepEntity,
};
use shunpo::search::entity_repository::{EntityRepository, RepositoryConfig};
use shunpo::search::listener::search_response;
use shunpo::search::matcher_helpers::{match_score_weighting, rank_entities, search_entity};

fn exec_entity(name: &str) -> ExecutableEntity {
    ExecutableEntity {
        dispatcher: Dispatcher::Shell,
        match_name: name.to_string(),
        match_rank: None,
        path: format!("/usr/bin/{}", name),
        ui_name: name.to_string(),
        source: ExecutableSource::PathBinary,
        exec_cmd: name.to_string(),
    }
}

fn launcher(alias: &str) -> LauncherEntity {
    LauncherEntity {
        alias: alias.to_string(),
        command: alias.to_string(),
        dispatcher: Dispatcher::Shell,
    }
}

fn haystack(names: &[&str]) -> Vec<FileEntity> {
    names.iter().map(|n| FileEntity::Executable(exec_entity(n))).collect()
}

#[test]
fn ranking_is_descending_and_stable() {
    let scored = vec![
        (1u16, launcher("low")),
        (5u16, launcher("first_five")),
        (3u16, launcher("middle")),
        (5u16, launcher("second_five")),
    ];
    let ranked = rank_entities(scored);
    let names: Vec<&str> = ranked.iter().map(|e| e.alias.as_str()).collect();
    assert_eq!(names, vec!["first_five", "second_five", "middle", "low"]);
}

#[test]
fn ranking_keeps_at_most_ten() {
    let scored: Vec<(u16, LauncherEntity)> =
        (0u16..15).map(|i| (i, launcher(&format!("e{}", i)))).collect();
    let ranked = rank_entities(scored);
    assert_eq!(ranked.len(), 10);
    assert_eq!(ranked[0].alias, "e14");
    assert_eq!(ranked[9].alias, "e5");
}

#[test]
fn fuzzy_search_finds_the_matching_entity() {
    let mut matcher = nucleo::Matcher::new(nucleo::Config::DEFAULT);
    let hs = haystack(&["firefox", "files", "terminal"]);
    let results = search_entity(&hs, "firef".to_string(), &mut matcher);
    assert!(!results.is_empty());
    assert_eq!(results[0].alias, "firefox");
    assert!(results.len() <= 10);
}

#[test]
fn fuzzy_search_with_no_match_is_empty() {
    let mut matcher = nucleo::Matcher::new(nucleo::Config::DEFAULT);
    let hs = haystack(&["firefox", "files"]);
    let results = search_entity(&hs, "zzqqy".to_string(), &mut matcher);
    assert!(results.is_empty());
}

#[test]
fn empty_query_answers_unsuccessfully_and_empty() {
    let mut matcher = nucleo::Matcher::new(nucleo::Config::DEFAULT);
    let hs = haystack(&["firefox"]);
    let SearchMessageData { success, results } =
        search_response(&String::new(), &hs, &mut matcher);
    assert!(!success);
    assert!(results.is_empty());
}

#[test]
fn nonempty_query_answers_successfully() {
    let mut matcher = nucleo::Matcher::new(nucleo::Config::DEFAULT);
    let hs = haystack(&["firefox"]);
    let data = search_response(&"fire".to_string(), &hs, &mut matcher);
    assert!(data.success);
    assert_eq!(data.results.len(), 1);
    assert_eq!(data.results[0].alias, "firefox");
}

#[test]
fn score_weighting_is_currently_the_identity() {
    assert_eq!(match_score_weighting(0), 0);
    assert_eq!(match_score_weighting(517), 517);
}

#[test]
fn repository_populates_and_builds_generic_views() {
    let config =
        RepositoryConfig { exec_paths: vec!["/usr/bin".to_string()], rg_paths: Vec::new() };
    let mut repo = EntityRepository::new(config);
    assert!(repo.generic_executables.is_empty());

    repo.populate(vec![exec_entity("files")], vec![exec_entity("firefox"), exec_entity("vim")]);
    assert_eq!(repo.executables.len(), 2);
    assert_eq!(repo.exec_desktop.len(), 1);
    assert_eq!(repo.get_generic_executables().len(), 2);
    assert_eq!(repo.get_generic_exec_desktop().len(), 1);
    match &repo.get_generic_executables()[0] {
        FileEntity::Executable(e) => assert_eq!(e.match_name, "firefox"),
        other => panic!("expected an executable, got {:?}", other),
    }

    let emptied = repo.rebuild();
    assert!(emptied.executables.is_empty());
    assert!(emptied.generic_executables.is_empty());
    assert_eq!(emptied.config.exec_paths, vec!["/usr/bin".to_string()]);
}

#[test]
fn launcher_entities_project_the_right_fields() {
    let e = exec_entity("firefox");
    let l = LauncherEntity::from_executable(&e);
    assert_eq!(l.alias, "firefox");
    assert_eq!(l.command, "firefox");

    let r = RipgrepEntity {
        dispatcher: Dispatcher::Shell,
        match_name: "notes".to_string(),
        match_rank: None,
        path: "/home/u/notes.md".to_string(),
        ui_name: "notes".to_string(),
    };
    let l2 = LauncherEntity::from_ripgrep(&r);
    assert_eq!(l2.alias, "notes");
    assert_eq!(l2.command, "/home/u/notes.md");
}
