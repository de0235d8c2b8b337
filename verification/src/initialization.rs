//! Initialization of the engine, and the witness that it is initialized.
use vstd::prelude::*;
use crate::cstring::{is_c_string, is_c_text};
use crate::enums::LogLevel;
use crate::errors::{check_error, Error, STATUS_LOCAL, STATUS_OK};
use crate::userdata::{UserdataEntry, UserdataTable};

verus! {

/// The message of the error for an operation that needs the engine while
/// it is not initialized.
pub const NOT_INITIALIZED: &'static str = "Synthizer is not initialized";

/// The message of the error for a library path that holds a NUL.
pub const BAD_LIBRARY_PATH: &'static str = "Unable to convert path to C string";

/// Where the engine sends its log.
#[derive(Copy, Clone, Debug, PartialEq, Eq, Structural)]
pub enum LoggingBackend {
    /// Nothing is logged.
    Disabled,
    /// The log goes to the standard error stream.
    Stderr,
}

/// Stands for an initialized engine. It is handed out by a successful
/// initialization and handed back to shut the engine down; while it is out,
/// it must be kept.
#[derive(Debug)]
pub struct InitializationGuard();

impl InitializationGuard {
    pub(crate) fn new_init() -> InitializationGuard {
        InitializationGuard()
    }
}

/// The record of whether the engine is initialized.
///
/// Whoever runs the engine keeps one witness behind a reader-writer lock:
/// an operation that needs the engine reads it for as long as it runs, and
/// initialization and shutdown write it.
#[derive(Debug)]
pub struct Witness {
    initialized: bool,
}

impl Witness {
    /// Whether the engine is initialized.
    pub closed spec fn is_initialized(&self) -> bool {
        self.initialized
    }

    /// The witness of an engine that was not initialized yet.
    pub fn new() -> (r: Witness)
        ensures
            !r.is_initialized(),
    {
        Witness { initialized: false }
    }

    /// Whether the engine is initialized.
    pub fn initialized(&self) -> (r: bool)
        ensures
            r == self.is_initialized(),
    {
        self.initialized
    }

    /// Records that the engine was shut down, which the guard's owner has
    /// just asked for by giving the guard up.
    pub fn shutdown(&mut self, guard: InitializationGuard)
        ensures
            !final(self).is_initialized(),
    {
        self.initialized = false;
    }
}

/// Reads the engine's answer to its initialization. On success the witness
/// records that the engine is initialized and the guard is handed out; on
/// failure the witness is left as it was.
pub fn initialize(witness: &mut Witness, status: i32, last_message: &str) -> (r: Result<
    InitializationGuard,
    Error,
>)
    ensures
        r is Ok <==> status == STATUS_OK,
        r is Ok ==> final(witness).is_initialized(),
        r matches Err(e) ==> e.is_error(status, last_message@) && *final(witness) == *old(witness),
{
    match check_error(status, last_message) {
        Err(e) => Err(e),
        Ok(_) => {
            witness.initialized = true;
            Ok(InitializationGuard::new_init())
        },
    }
}

/// Shuts the engine down, which the guard's owner asks for by giving the
/// guard up. The witness records that the engine is not initialized any
/// more, and every entry and payload of the userdata table is dropped; the
/// table itself stays, for whoever still holds it.
pub fn shutdown<P>(witness: &mut Witness, guard: InitializationGuard, table: &mut UserdataTable<P>)
    ensures
        !final(witness).is_initialized(),
        final(table).wf(),
        final(table).threshold() == old(table).threshold(),
        final(table)@ == Map::<u64, UserdataEntry<P>>::empty(),
{
    witness.shutdown(guard);
    table.clear();
}

/// Runs the closure only if the engine is initialized; otherwise the result
/// is a local error and the closure is not run.
///
/// The caller holds the witness for the whole call, so the engine stays
/// initialized while the closure runs.
pub fn with_witness<T, F: FnOnce() -> Result<T, Error>>(witness: &Witness, closure: F) -> (r:
    Result<T, Error>)
    requires
        witness.is_initialized() ==> closure.requires(()),
    ensures
        witness.is_initialized() ==> closure.ensures((), r),
        !witness.is_initialized() ==> (r matches Err(e) && e.is_error(
            STATUS_LOCAL,
            NOT_INITIALIZED@,
        )),
{
    if !witness.initialized {
        return Err(Error::rust_error(NOT_INITIALIZED));
    }
    closure()
}

/// The settings that the engine is initialized with.
#[derive(Debug)]
pub struct LibraryConfig {
    log_level: LogLevel,
    logging_backend: LoggingBackend,
    libsndfile_path: Option<String>,
}

/// What a configuration is, for the contracts.
pub ghost struct LibraryConfigView {
    pub log_level: LogLevel,
    pub logging_backend: LoggingBackend,
    /// The path of the sound file library to load, if one was set.
    pub libsndfile_path: Option<Seq<char>>,
}

impl View for LibraryConfig {
    type V = LibraryConfigView;

    closed spec fn view(&self) -> LibraryConfigView {
        LibraryConfigView {
            log_level: self.log_level,
            logging_backend: self.logging_backend,
            libsndfile_path: match self.libsndfile_path {
                Some(path) => Some(path@),
                None => None,
            },
        }
    }
}

impl LibraryConfig {
    /// The default settings: errors only, no logging, no sound file
    /// library.
    pub fn new() -> (r: LibraryConfig)
        ensures
            r@ == (LibraryConfigView {
                log_level: LogLevel::Error,
                logging_backend: LoggingBackend::Disabled,
                libsndfile_path: None,
            }),
    {
        LibraryConfig {
            log_level: LogLevel::Error,
            logging_backend: LoggingBackend::Disabled,
            libsndfile_path: None,
        }
    }

    /// Sets the log level.
    pub fn log_level(&mut self, level: LogLevel)
        ensures
            final(self)@ == (LibraryConfigView { log_level: level, ..old(self)@ }),
    {
        self.log_level = level;
    }

    /// Sends the log to the standard error stream.
    pub fn log_to_stderr(&mut self)
        ensures
            final(self)@ == (LibraryConfigView {
                logging_backend: LoggingBackend::Stderr,
                ..old(self)@
            }),
    {
        self.logging_backend = LoggingBackend::Stderr;
    }

    /// Asks for the sound file library at `path` to be loaded. A path that
    /// cannot be a C string is an error and changes nothing.
    pub fn load_libsndfile(&mut self, path: &str) -> (r: Result<(), Error>)
        ensures
            r is Ok <==> is_c_text(path@),
            r is Ok ==> final(self)@ == (LibraryConfigView {
                libsndfile_path: Some(path@),
                ..old(self)@
            }),
            r matches Err(e) ==> e.is_error(STATUS_LOCAL, BAD_LIBRARY_PATH@) && final(self)@
                == old(self)@,
    {
        if !is_c_string(path) {
            return Err(Error::rust_error(BAD_LIBRARY_PATH));
        }
        self.libsndfile_path = Some(path.to_owned());
        Ok(())
    }

    /// The log level that was set.
    pub fn get_log_level(&self) -> (r: LogLevel)
        ensures
            r == self@.log_level,
    {
        self.log_level
    }

    /// Where the log goes.
    pub fn get_logging_backend(&self) -> (r: LoggingBackend)
        ensures
            r == self@.logging_backend,
    {
        self.logging_backend
    }

    /// The path of the sound file library to load, if one was set.
    pub fn get_libsndfile_path(&self) -> (r: Option<&str>)
        ensures
            match r {
                Some(path) => self@.libsndfile_path == Some(path@),
                None => self@.libsndfile_path is None,
            },
    {
        match &self.libsndfile_path {
            Some(path) => Some(path.as_str()),
            None => None,
        }
    }

    /// Reads the engine's answer to its initialization with these
    /// settings. See `initialize`.
    pub fn initialize(self, witness: &mut Witness, status: i32, last_message: &str) -> (r:
        Result<InitializationGuard, Error>)
        ensures
            r is Ok <==> status == STATUS_OK,
            r is Ok ==> final(witness).is_initialized(),
            r matches Err(e) ==> e.is_error(status, last_message@) && *final(witness) == *old(
                witness,
            ),
    {
        initialize(witness, status, last_message)
    }
}

impl Default for LibraryConfig {
    fn default() -> (r: LibraryConfig)
        ensures
            r@ == (LibraryConfigView {
                log_level: LogLevel::Error,
                logging_backend: LoggingBackend::Disabled,
                libsndfile_path: None,
            }),
    {
        LibraryConfig::new()
    }
}

} // verus!
