use casegen::config::{parse_duration, DurationError};
use casegen::langs::{LangAssets, LangError, LangInfo, LangType, Languages};
use casegen::request::{ExecRequest, RequestError, Type};
use casegen::runner::exec;
use casegen::views::UserAvatar;

#[test]
fn duration_units_add_up() {
    assert_eq!(parse_duration("1d 12h"), Ok(129600));
    assert_eq!(parse_duration("10s"), Ok(10));
    assert_eq!(parse_duration("  2m\t30s \n"), Ok(150));
    assert_eq!(parse_duration("1w"), Ok(604800));
    assert_eq!(parse_duration("1M"), Ok(2592000));
    assert_eq!(parse_duration("2y"), Ok(63072000));
    assert_eq!(parse_duration("+5h"), Ok(18000));
    assert_eq!(parse_duration(""), Ok(0));
    assert_eq!(parse_duration("1h\u{3000}1s"), Ok(3601));
}

#[test]
fn duration_errors() {
    assert_eq!(parse_duration("5"), Err(DurationError::NoUnit));
    assert_eq!(parse_duration("s"), Err(DurationError::BadNumber));
    assert_eq!(parse_duration("+s"), Err(DurationError::BadNumber));
    assert_eq!(parse_duration("1.5h"), Err(DurationError::BadNumber));
    assert_eq!(parse_duration("5ms"), Err(DurationError::BadUnit));
    assert_eq!(parse_duration("5q"), Err(DurationError::BadUnit));
    assert_eq!(parse_duration("5q 7"), Err(DurationError::BadUnit));
    assert_eq!(parse_duration("7 5q"), Err(DurationError::NoUnit));
    assert_eq!(parse_duration("99999999999999999999s"), Err(DurationError::BadNumber));
    assert_eq!(parse_duration("18446744073709551615s"), Ok(u64::MAX));
    assert_eq!(parse_duration("18446744073709551615s 1s"), Err(DurationError::Overflow));
    assert_eq!(parse_duration("18446744073709551615m"), Err(DurationError::Overflow));
    assert_eq!(parse_duration("18446744073709551615m 5q"), Err(DurationError::BadUnit));
}

#[test]
fn language_paths() {
    let py = LangInfo::new("python", LangType::Scripting);
    assert_eq!(py.dockerfile_path(), "languages/python/Dockerfile");
    assert_eq!(py.generator_path(), "languages/python/generator.hbs");
    assert_eq!(py.runner_path(), "languages/python/runner.hbs");
    assert_eq!(py.generator_template(), "python/generator");
    assert_eq!(py.runner_template(), "python/runner");
}

#[test]
fn language_assets_checked_in_order() {
    let all = LangAssets { is_dir: true, dockerfile: true, generator_template: true, runner_template: true, config: true };
    assert_eq!(LangInfo::check_assets(&all), Ok(()));
    assert_eq!(LangInfo::check_assets(&LangAssets { is_dir: false, ..all }), Err(LangError::MissingDirectory));
    assert_eq!(LangInfo::check_assets(&LangAssets { dockerfile: false, config: false, ..all }), Err(LangError::MissingDockerfile));
    assert_eq!(LangInfo::check_assets(&LangAssets { generator_template: false, ..all }), Err(LangError::MissingGeneratorTemplate));
    assert_eq!(LangInfo::check_assets(&LangAssets { runner_template: false, ..all }), Err(LangError::MissingRunnerTemplate));
    assert_eq!(LangInfo::check_assets(&LangAssets { config: false, ..all }), Err(LangError::MissingConfig));
}

fn langs() -> Languages {
    Languages::new(vec![
        LangInfo::new("python", LangType::Scripting),
        LangInfo::new("rust", LangType::Compiled),
    ])
    .unwrap()
}

#[test]
fn languages_must_have_unique_names() {
    let dup = Languages::new(vec![
        LangInfo::new("python", LangType::Scripting),
        LangInfo::new("python", LangType::Markup),
    ]);
    assert_eq!(dup.unwrap_err(), LangError::DuplicateName);
    let l = langs();
    assert_eq!(l.list().len(), 2);
    assert_eq!(l.position(&"rust".to_string()), Some(1));
    assert_eq!(l.position(&"go".to_string()), None);
}

fn request(language: &str, generate_cases: u16) -> ExecRequest {
    ExecRequest {
        content: "def gen(ctx): pass".to_string(),
        language: language.to_string(),
        inputs: vec![Type::Int, Type::String],
        output: Type::Float,
        hidden_cases: 3,
        visible_cases: 1,
        generate_cases,
    }
}

#[test]
fn requests_are_checked_before_running() {
    let l = langs();
    assert_eq!(request("python", 2).target_language(&l), Ok(0));
    assert_eq!(request("python", 0).target_language(&l), Err(RequestError::NoCases));
    assert_eq!(request("go", 2).target_language(&l), Err(RequestError::UnknownLanguage));
    assert_eq!(request("rust", 2).target_language(&l), Err(RequestError::NotScripting));
}

#[test]
fn request_renders_exec_config() {
    let req = request("python", 2);
    let cfg = req.exec_config();
    assert_eq!(cfg.content, "def gen(ctx): pass");
    assert_eq!(cfg.inputs, vec![exec::Type::Int, exec::Type::String]);
    assert_eq!(cfg.output, exec::Type::Float);
    assert_eq!((cfg.hidden_cases, cfg.visible_cases, cfg.generate_cases), (3, 1, 2));
}

#[test]
fn avatar_copies_user_fields() {
    let a = UserAvatar::new(&"Ada Lovelace".to_string(), &Some("https://img/1".to_string()));
    assert_eq!(a.name, "Ada Lovelace");
    assert_eq!(a.avatar_url.as_deref(), Some("https://img/1"));
    let b = UserAvatar::new(&"B".to_string(), &None);
    assert!(b.avatar_url.is_none());
}
