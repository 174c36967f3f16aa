use baca::config::TaskConfig;
use baca::language::{parse_language, Language};
use baca::submit::{Action, Event, Phase, Submission, SubmitError};
use baca::task::{parse_tasks, Task};

const LISTING: &str = r#"//OK[0,12,11,10,3,3,9,8,7,3,3,6,5,4,3,3,2,2,1,["testerka.gwt.client.tools.DataSource/1474249525","[[Ljava.lang.String;/4182515373","[Ljava.lang.String;/2600011424","1","Metoda parametryzacji","12","2","Metoda parametryzacji torusów","4","id","nazwa","liczba OK"],0,7]"#;

fn task(id: &str, name: &str, language: Language) -> Task {
    Task { id: id.to_string(), problem_name: name.to_string(), language }
}

fn started(config: TaskConfig) -> Submission {
    let (mut s, first) = Submission::start(config);
    assert_eq!(first, Action::LoadInstance);
    assert_eq!(s.advance(Event::InstanceLoaded), Action::FetchTasks);
    s
}

#[test]
fn renamed_file_should_be_identical_to_original() {
    let original = "/tmp/work/source.cpp";
    let config = TaskConfig::new("1", original, false, Language::Unsupported, Some("new_name.c".to_string()));
    let mut s = started(config);

    // The original is copied, never moved, and the copy is what is submitted.
    let copy = s.advance(Event::TasksFetched(LISTING.to_string()));
    assert_eq!(copy, Action::CopyFile(original.to_string(), "new_name.c".to_string()));
    let announce = s.advance(Event::FileCopied("/tmp/new_name.c".to_string()));
    assert_eq!(
        announce,
        Action::Announce("source.cpp as new_name.c".to_string(), "Metoda parametryzacji".to_string(), Language::Unsupported)
    );
    assert_eq!(
        s.advance(Event::Announced),
        Action::Submit(task("1", "Metoda parametryzacji", Language::Unsupported), "/tmp/new_name.c".to_string())
    );
    assert_eq!(s.advance(Event::Submitted), Action::ShowLatestResult);
    assert_eq!(s.advance(Event::ResultShown), Action::Finish(Ok(())));
    assert_eq!(s.phase, Phase::Finished);
}

#[test]
fn rename_equal_to_own_name_submits_original() {
    let config = TaskConfig::new("2", "/home/u/source.cpp", false, Language::Cpp, Some("source.cpp".to_string()));
    let mut s = started(config);
    assert_eq!(
        s.advance(Event::TasksFetched(LISTING.to_string())),
        Action::Announce("source.cpp".to_string(), "Metoda parametryzacji torusów".to_string(), Language::Cpp)
    );
    assert_eq!(
        s.advance(Event::Announced),
        Action::Submit(task("2", "Metoda parametryzacji torusów", Language::Cpp), "/home/u/source.cpp".to_string())
    );
}

#[test]
fn no_rename_submits_original() {
    let config = TaskConfig::new("1", "/home/u/main.c", false, Language::C, None);
    let mut s = started(config);
    assert_eq!(
        s.advance(Event::TasksFetched(LISTING.to_string())),
        Action::Announce("main.c".to_string(), "Metoda parametryzacji".to_string(), Language::C)
    );
    assert_eq!(s.label, "main.c");
}

#[test]
fn renamed_file_is_the_one_zipped() {
    let config = TaskConfig::new("1", "/home/u/source.cpp", true, Language::Cpp, Some("new_name.c".to_string()));
    let mut s = started(config);
    assert_eq!(
        s.advance(Event::TasksFetched(LISTING.to_string())),
        Action::CopyFile("/home/u/source.cpp".to_string(), "new_name.c".to_string())
    );
    s.advance(Event::FileCopied("/tmp/new_name.c".to_string()));
    assert_eq!(s.advance(Event::Announced), Action::ZipFile("/tmp/new_name.c".to_string()));
    assert_eq!(
        s.advance(Event::FileZipped("/tmp/new_name.zip".to_string())),
        Action::Submit(task("1", "Metoda parametryzacji", Language::Cpp), "/tmp/new_name.zip".to_string())
    );
    assert_eq!(s.config.file, "/tmp/new_name.zip");
}

#[test]
fn zip_without_rename_archives_original() {
    let config = TaskConfig::new("2", "/w/a.java", true, Language::Java, None);
    let mut s = started(config);
    s.advance(Event::TasksFetched(LISTING.to_string()));
    assert_eq!(s.advance(Event::Announced), Action::ZipFile("/w/a.java".to_string()));
}

#[test]
fn unknown_task_fails_and_never_submits() {
    let config = TaskConfig::new("7", "/w/a.c", false, Language::C, None);
    let mut s = started(config);
    assert_eq!(
        s.advance(Event::TasksFetched(LISTING.to_string())),
        Action::Finish(Err(SubmitError::TaskNotFound("7".to_string())))
    );
    assert_eq!(s.phase, Phase::Finished);
    assert_eq!(s.advance(Event::Announced), Action::Finish(Err(SubmitError::OutOfOrder)));
    assert_eq!(s.advance(Event::Submitted), Action::Finish(Err(SubmitError::OutOfOrder)));
}

#[test]
fn header_is_no_task() {
    let config = TaskConfig::new("id", "/w/a.c", false, Language::C, None);
    let mut s = started(config);
    assert_eq!(
        s.advance(Event::TasksFetched(LISTING.to_string())),
        Action::Finish(Err(SubmitError::TaskNotFound("id".to_string())))
    );
}

#[test]
fn failure_ends_submission() {
    let config = TaskConfig::new("1", "/w/a.c", false, Language::C, None);
    let (mut s, _) = Submission::start(config);
    assert_eq!(
        s.advance(Event::Failed("no instance".to_string())),
        Action::Finish(Err(SubmitError::Failed("no instance".to_string())))
    );
    assert_eq!(s.phase, Phase::Finished);
}

#[test]
fn event_out_of_order_ends_submission() {
    let config = TaskConfig::new("1", "/w/a.c", false, Language::C, None);
    let (mut s, _) = Submission::start(config);
    assert_eq!(s.advance(Event::Submitted), Action::Finish(Err(SubmitError::OutOfOrder)));
    assert_eq!(s.phase, Phase::Finished);
}

#[test]
fn listing_parses_into_tasks() {
    let tasks = parse_tasks(LISTING);
    assert_eq!(
        tasks,
        vec![
            task("1", "Metoda parametryzacji", Language::Unsupported),
            task("2", "Metoda parametryzacji torusów", Language::Unsupported),
        ]
    );
}

#[test]
fn short_listing_has_no_tasks() {
    assert!(parse_tasks("").is_empty());
    assert!(parse_tasks(r#"//OK[["a","b","c","d","e"]]"#).is_empty());
}

#[test]
fn escaped_quote_stays_in_string() {
    let listing = r#"["t1","t2","t3","5","Say \"hi\"","0","id","nazwa","liczba OK"]"#;
    let tasks = parse_tasks(listing);
    assert_eq!(tasks, vec![task("5", r#"Say \"hi\""#, Language::Unsupported)]);
}

#[test]
fn languages_parse_in_any_case() {
    assert_eq!(parse_language("c"), Some(Language::C));
    assert_eq!(parse_language("C++"), Some(Language::Cpp));
    assert_eq!(parse_language("cpp"), Some(Language::Cpp));
    assert_eq!(parse_language("JAVA"), Some(Language::Java));
    assert_eq!(parse_language("Bash"), Some(Language::Bash));
    assert_eq!(parse_language("ada"), Some(Language::Ada));
    assert_eq!(parse_language("rust"), None);
    assert_eq!(parse_language(""), None);
    assert_eq!(parse_language("c+"), None);
}

#[test]
fn language_names() {
    assert_eq!(Language::Cpp.name(), "C++");
    assert_eq!(Language::Unsupported.name(), "Unsupported language");
}
