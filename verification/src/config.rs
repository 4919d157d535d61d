//! The configuration state and its one-shot initialization.

use vstd::prelude::*;
use vstd::string::StringExecFns;
use crate::ini_doc::ini_sections;
use crate::ini_doc::new_doc;
use crate::ini_doc::set_in_section;
use crate::paths::path_join;
use crate::paths::resolve;

verus! {

/// What a failed or rejected initialization reports.
pub enum ConfigError {
    /// The existing configuration document could not be loaded; wraps the
    /// ini library's diagnostic.
    IniError(ini::Error),
    /// Writing the new configuration document failed; wraps the underlying
    /// filesystem diagnostic.
    IoError(std::io::Error),
    /// Initialization was attempted on an instance that already completed it.
    AlreadyInit,
}

/// Mathematical state of a [`Config`]: the two settings and the guard.
pub struct ConfigModel {
    pub db_type: Seq<char>,
    pub db_path: Seq<char>,
    pub is_init: bool,
}

/// The filesystem action that a permitted initialization asks of its caller.
pub enum InitPlan {
    /// No configuration file was found: write `doc` to `path`, then report
    /// the outcome through [`InitIo::Written`].
    Create { path: String, doc: ini::Ini },
    /// A configuration file exists at `path`: load it, then report the
    /// outcome through [`InitIo::Loaded`].
    Load { path: String },
}

/// The outcome of the filesystem action that an [`InitPlan`] asked for.
pub enum InitIo {
    /// Outcome of writing the new configuration document.
    Written(Result<(), std::io::Error>),
    /// Outcome of loading and parsing the existing configuration document.
    Loaded(Result<ini::Ini, ini::Error>),
}

/// Which way an initialization attempt goes: it is decided by the guard and
/// by the configuration file's existence alone.
pub enum InitVerdict {
    /// The guard is already set: the attempt is rejected without touching
    /// the filesystem.
    Rejected,
    /// No configuration file exists: a default one is written.
    CreateNew,
    /// A configuration file exists: it is loaded.
    LoadExisting,
}

/// The verdict on an initialization attempt of an instance in state `c`,
/// with `conf_present` saying whether the configuration file exists.
pub open spec fn init_verdict(c: ConfigModel, conf_present: bool) -> InitVerdict {
    if c.is_init {
        InitVerdict::Rejected
    } else if !conf_present {
        InitVerdict::CreateNew
    } else {
        InitVerdict::LoadExisting
    }
}

/// `c` with its guard set, as the create path leaves an instance.
pub open spec fn mark_initialized(c: ConfigModel) -> ConfigModel {
    ConfigModel { is_init: true, ..c }
}

/// The contents the create path gives the new configuration document: one
/// section `Database` holding the instance's two settings.
pub open spec fn database_doc(db_type: Seq<char>, db_path: Seq<char>) -> Map<
    Seq<char>,
    Map<Seq<char>, Seq<char>>,
> {
    Map::empty().insert(
        "Database"@,
        Map::empty().insert("db_type"@, db_type).insert("db_path"@, db_path),
    )
}

/// The current configuration values and the single-use initialization guard.
pub struct Config {
    db_type: String,
    db_path: String,
    is_init: bool,
}

impl View for Config {
    type V = ConfigModel;

    closed spec fn view(&self) -> ConfigModel {
        ConfigModel { db_type: self.db_type@, db_path: self.db_path@, is_init: self.is_init }
    }
}

impl Config {
    /// The default configuration: the fixed embedded-database backend tag, a
    /// database file beside the running executable, and an unset guard.
    pub fn default(exe_dir: &str) -> (c: Config)
        ensures
            c@.db_type == "sqlite3"@,
            c@.db_path == path_join(exe_dir@, "hmc.db"@),
            !c@.is_init,
    {
        Config {
            db_type: String::from_str("sqlite3"),
            db_path: resolve(exe_dir, "hmc.db"),
            is_init: false,
        }
    }

    /// Decides an initialization attempt. `conf_present` says whether the
    /// configuration file exists at [`conf_path`]; the caller performs the
    /// returned plan's filesystem action and reports its outcome to
    /// [`Config::init_apply`]. A set guard rejects the attempt at once, so
    /// no filesystem action is ever requested for it.
    pub fn init(&self, exe_dir: &str, conf_present: bool) -> (r: Result<InitPlan, ConfigError>)
        ensures
            r is Err <==> self@.is_init,
            init_verdict(self@, conf_present) is Rejected ==> r matches Err(ConfigError::AlreadyInit),
            init_verdict(self@, conf_present) is CreateNew ==> (r matches Ok(
                InitPlan::Create { path, doc },
            ) && path@ == path_join(exe_dir@, "hmc.ini"@) && ini_sections(doc) == database_doc(
                self@.db_type,
                self@.db_path,
            )),
            init_verdict(self@, conf_present) is LoadExisting ==> (r matches Ok(
                InitPlan::Load { path },
            ) && path@ == path_join(exe_dir@, "hmc.ini"@)),
    {
        if self.is_init {
            return Err(ConfigError::AlreadyInit);
        }
        let path = conf_path(exe_dir);
        if !conf_present {
            let mut doc = new_doc();
            set_in_section(&mut doc, "Database", "db_type", self.db_type.as_str());
            set_in_section(&mut doc, "Database", "db_path", self.db_path.as_str());
            proof {
                assert(ini_sections(doc) =~~= database_doc(self@.db_type, self@.db_path));
            }
            Ok(InitPlan::Create { path, doc })
        } else {
            Ok(InitPlan::Load { path })
        }
    }

    /// Commits the outcome of the planned filesystem action. Only a
    /// successful write of the new document sets the guard and reports
    /// `true`; a successful load reports `false` and leaves the instance
    /// exactly as it was, and every failure leaves it unchanged and wraps
    /// the underlying diagnostic.
    pub fn init_apply(&mut self, io: InitIo) -> (r: Result<bool, ConfigError>)
        requires
            !old(self)@.is_init,
        ensures
            io matches InitIo::Written(w) ==> (w matches Ok(_) ==> final(self)@
                == mark_initialized(old(self)@) && r == Ok::<bool, ConfigError>(true)),
            io matches InitIo::Written(w) ==> (w matches Err(e) ==> final(self)@ == old(self)@ && r
                == Err::<bool, ConfigError>(ConfigError::IoError(e))),
            io matches InitIo::Loaded(l) ==> (l matches Ok(_) ==> final(self)@ == old(self)@ && r
                == Ok::<bool, ConfigError>(false)),
            io matches InitIo::Loaded(l) ==> (l matches Err(e) ==> final(self)@ == old(self)@ && r
                == Err::<bool, ConfigError>(ConfigError::IniError(e))),
    {
        match io {
            InitIo::Written(w) => match w {
                Ok(_) => {
                    self.is_init = true;
                    Ok(true)
                },
                Err(e) => Err(ConfigError::IoError(e)),
            },
            InitIo::Loaded(l) => match l {
                Ok(_) => Ok(false),
                Err(e) => Err(ConfigError::IniError(e)),
            },
        }
    }

    /// The storage backend tag.
    pub fn db_type(&self) -> (r: &String)
        ensures
            r@ == self@.db_type,
    {
        &self.db_type
    }

    /// The absolute path of the database file.
    pub fn db_path(&self) -> (r: &String)
        ensures
            r@ == self@.db_path,
    {
        &self.db_path
    }

    /// Whether this instance has already completed its create-path
    /// initialization.
    pub fn is_init(&self) -> (r: bool)
        ensures
            r == self@.is_init,
    {
        self.is_init
    }
}

/// Writing the configuration file is a strictly one-shot effect per
/// instance: once the create path has committed and set the guard, every
/// later initialization attempt is rejected, whatever the filesystem then
/// holds — the file's existence is not re-checked.
pub proof fn lemma_create_path_one_shot(c: ConfigModel, conf_present: bool)
    ensures
        init_verdict(mark_initialized(c), conf_present) == InitVerdict::Rejected,
{
}

/// Whether an initialization attempt is rejected depends on the guard
/// alone, never on the filesystem: the verdict is `Rejected` for one
/// filesystem state exactly when it is for any other, and exactly when the
/// guard is set.
pub proof fn lemma_rejection_ignores_filesystem(c: ConfigModel, p1: bool, p2: bool)
    ensures
        (init_verdict(c, p1) is Rejected) == (init_verdict(c, p2) is Rejected),
        init_verdict(c, p1) is Rejected <==> c.is_init,
{
}

/// The absolute path of the configuration file beside the running
/// executable, whose directory the caller supplies.
pub fn conf_path(exe_dir: &str) -> (r: String)
    ensures
        r@ == path_join(exe_dir@, "hmc.ini"@),
{
    resolve(exe_dir, "hmc.ini")
}

} // verus!
