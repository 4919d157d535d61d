use hmc_config::config::Config;
use hmc_config::config::ConfigError;
use hmc_config::config::InitIo;
use hmc_config::config::InitPlan;
use hmc_config::config::conf_path;
use hmc_config::paths::resolve;

#[test]
fn fresh_instance_defaults() {
    let c = Config::default("/opt/app");
    assert_eq!(c.db_type().as_str(), "sqlite3");
    assert_eq!(c.db_path().as_str(), "/opt/app/hmc.db");
    assert!(!c.is_init());
}

#[test]
fn resolve_is_location_relative() {
    assert_eq!(resolve("/opt/app", "x"), "/opt/app/x");
    assert_eq!(resolve("/opt/app", "x"), resolve("/opt/app", "x"));
    assert_eq!(conf_path("/somewhere/else"), "/somewhere/else/hmc.ini");
}

#[test]
fn create_path_plans_default_document() {
    let c = Config::default("/opt/app");
    let plan = c.init("/opt/app", false).ok().unwrap();
    match plan {
        InitPlan::Create { path, doc } => {
            assert_eq!(path, "/opt/app/hmc.ini");
            assert_eq!(doc.get_from(Some("Database"), "db_type"), Some("sqlite3"));
            assert_eq!(doc.get_from(Some("Database"), "db_path"), Some("/opt/app/hmc.db"));
        }
        InitPlan::Load { .. } => panic!("expected the create path"),
    }
}

#[test]
fn create_path_commit_sets_guard() {
    let mut c = Config::default("/opt/app");
    let r = c.init_apply(InitIo::Written(Ok(())));
    assert!(matches!(r, Ok(true)));
    assert!(c.is_init());
    assert_eq!(c.db_type().as_str(), "sqlite3");
    assert_eq!(c.db_path().as_str(), "/opt/app/hmc.db");
}

#[test]
fn create_path_write_failure_leaves_guard_unset() {
    let mut c = Config::default("/opt/app");
    let e = std::io::Error::new(std::io::ErrorKind::PermissionDenied, "denied");
    let r = c.init_apply(InitIo::Written(Err(e)));
    assert!(matches!(r, Err(ConfigError::IoError(_))));
    assert!(!c.is_init());
    assert_eq!(c.db_type().as_str(), "sqlite3");
    assert_eq!(c.db_path().as_str(), "/opt/app/hmc.db");
}

#[test]
fn load_path_leaves_instance_unchanged() {
    let mut c = Config::default("/opt/app");
    let plan = c.init("/opt/app", true).ok().unwrap();
    match plan {
        InitPlan::Load { path } => assert_eq!(path, "/opt/app/hmc.ini"),
        InitPlan::Create { .. } => panic!("expected the load path"),
    }
    let parsed = ini::Ini::load_from_str("[Database]\ndb_type=postgres\ndb_path=/elsewhere/o.db\n")
        .unwrap();
    let r = c.init_apply(InitIo::Loaded(Ok(parsed)));
    assert!(matches!(r, Ok(false)));
    assert!(!c.is_init());
    assert_eq!(c.db_type().as_str(), "sqlite3");
    assert_eq!(c.db_path().as_str(), "/opt/app/hmc.db");
}

#[test]
fn invalid_document_reports_ini_error() {
    let mut c = Config::default("/opt/app");
    let parse_err = ini::Ini::load_from_str("[Database").unwrap_err();
    let r = c.init_apply(InitIo::Loaded(Err(ini::Error::Parse(parse_err))));
    assert!(matches!(r, Err(ConfigError::IniError(_))));
    assert!(!c.is_init());
    assert_eq!(c.db_type().as_str(), "sqlite3");
    assert_eq!(c.db_path().as_str(), "/opt/app/hmc.db");
}

#[test]
fn unreadable_document_reports_ini_error() {
    let mut c = Config::default("/opt/app");
    let e = std::io::Error::new(std::io::ErrorKind::NotFound, "gone");
    let r = c.init_apply(InitIo::Loaded(Err(ini::Error::Io(e))));
    assert!(matches!(r, Err(ConfigError::IniError(_))));
    assert!(!c.is_init());
}

#[test]
fn second_init_is_rejected_without_io() {
    let mut c = Config::default("/opt/app");
    let r = c.init_apply(InitIo::Written(Ok(())));
    assert!(matches!(r, Ok(true)));
    // Rejected whatever the filesystem now claims, and no plan is handed out.
    assert!(matches!(c.init("/opt/app", false), Err(ConfigError::AlreadyInit)));
    assert!(matches!(c.init("/opt/app", true), Err(ConfigError::AlreadyInit)));
    assert!(c.is_init());
}

#[test]
fn written_document_round_trips_through_ini() {
    let c = Config::default("/opt/app");
    let plan = c.init("/opt/app", false).ok().unwrap();
    match plan {
        InitPlan::Create { doc, .. } => {
            let mut buf: Vec<u8> = Vec::new();
            doc.write_to(&mut buf).unwrap();
            let text = String::from_utf8(buf).unwrap();
            let reread = ini::Ini::load_from_str(&text).unwrap();
            assert_eq!(reread.get_from(Some("Database"), "db_type"), Some("sqlite3"));
            assert_eq!(reread.get_from(Some("Database"), "db_path"), Some("/opt/app/hmc.db"));
        }
        InitPlan::Load { .. } => panic!("expected the create path"),
    }
}
