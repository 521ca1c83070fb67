//! The logger: a slot that takes one configuration, once, and answers for
//! every event from what the slot holds.

use crate::config::{OutputStream, PspLoggerConfig};
use crate::dispatch::wire_format;
use crate::level::{Level, LevelFilter};
use vstd::prelude::*;

verus! {

/// The logging front end refused the registration, because a logger is
/// registered with it already.
#[derive(Clone, Copy, Debug, PartialEq, Eq, Structural)]
pub struct SetLoggerError {}

/// The logger and its state: empty until the first `init` that the front end
/// accepts, then holding the configuration of that call for good.
#[derive(Clone, Copy, Debug)]
pub struct PspLogger {
    conf: Option<PspLoggerConfig>,
}

impl View for PspLogger {
    type V = Option<PspLoggerConfig>;

    /// The configuration that was installed, if one was.
    closed spec fn view(&self) -> Option<PspLoggerConfig> {
        self.conf
    }
}

/// What the slot holds after an `init` with `config` that the front end
/// answered with `registration`: an empty slot takes the configuration where
/// the front end accepted; in every other case the slot stays as it was.
pub open spec fn slot_after_init(
    slot: Option<PspLoggerConfig>,
    config: PspLoggerConfig,
    registration: Result<(), SetLoggerError>,
) -> Option<PspLoggerConfig> {
    if slot is None && registration is Ok {
        Some(config)
    } else {
        slot
    }
}

/// What `init` reports, given what the slot holds after it: on acceptance the
/// threshold of the installed configuration, else the front end's refusal.
pub open spec fn init_report(
    slot_after: Option<PspLoggerConfig>,
    registration: Result<(), SetLoggerError>,
) -> Result<LevelFilter, SetLoggerError> {
    match registration {
        Ok(_) => Ok(slot_after->Some_0.threshold()),
        Err(conflict) => Err(conflict),
    }
}

impl PspLogger {
    /// A logger with nothing installed.
    pub fn new() -> (r: Self)
        ensures
            r@ is None,
    {
        PspLogger { conf: None }
    }

    /// Whether a configuration has been installed.
    pub fn is_initialized(&self) -> (r: bool)
        ensures
            r == (self@ is Some),
    {
        self.conf.is_some()
    }

    /// Takes one installation request and the front end's answer to it.
    ///
    /// `registration` is what the front end answered when it was asked to
    /// make this logger its active one. Only an accepted request on an empty
    /// slot installs `config`; a refused request leaves the slot as it was,
    /// and on a filled slot `config` is dropped whatever the answer.
    ///
    /// A refusal is handed on as the error. On acceptance the result is the
    /// threshold of the configuration that the slot now holds, which the
    /// caller announces to the front end as the most verbose level in use: it
    /// is the threshold of `config` only where `config` was installed.
    pub fn init(
        &mut self,
        config: PspLoggerConfig,
        registration: Result<(), SetLoggerError>,
    ) -> (r: Result<LevelFilter, SetLoggerError>)
        ensures
            final(self)@ == slot_after_init(old(self)@, config, registration),
            registration is Ok ==> final(self)@ is Some && r == Ok::<LevelFilter, SetLoggerError>(
                final(self)@->Some_0.threshold(),
            ),
            registration is Err ==> r == Err::<LevelFilter, SetLoggerError>(registration->Err_0),
            r == init_report(final(self)@, registration),
    {
        match registration {
            Ok(()) => {
                let installed: PspLoggerConfig = match self.conf {
                    Some(earlier) => earlier,
                    None => {
                        self.conf = Some(config);
                        config
                    },
                };
                Ok(installed.level_filter())
            },
            Err(conflict) => Err(conflict),
        }
    }

    /// Whether events of `level` pass the installed threshold.
    pub fn enabled(&self, level: Level) -> (r: bool)
        requires
            self@ is Some,
        ensures
            r == (level.rank() <= self@->Some_0.threshold().rank()),
    {
        let config: PspLoggerConfig = self.conf.unwrap();
        config.is_enabled(level)
    }

    /// Decides what becomes of one event under the installed configuration:
    /// nothing, where the threshold rejects its level; else one write, given
    /// as the stream of its level and the framed message.
    pub fn log(&self, level: Level, message: &str) -> (r: Option<(OutputStream, Vec<u8>)>)
        requires
            self@ is Some,
        ensures
            r is Some <==> self@->Some_0.enables(level),
            r matches Some(write) ==> write.0 == self@->Some_0.stream_of(level) && write.1@
                == wire_format(message@),
    {
        let config: PspLoggerConfig = self.conf.unwrap();
        config.emit(level, message)
    }

    /// Does nothing: every write is handed out at once, so nothing is ever
    /// held back.
    pub fn flush(&self) {
    }
}

/// The slot is filled by an accepted request on an empty slot and by nothing
/// else: a refused request leaves an empty slot empty, and a filled slot is
/// never written again.
pub proof fn lemma_only_an_accepted_init_fills_the_slot(
    slot: Option<PspLoggerConfig>,
    config: PspLoggerConfig,
    registration: Result<(), SetLoggerError>,
)
    ensures
        slot is None && registration is Ok ==> slot_after_init(slot, config, registration) == Some(
            config,
        ),
        slot is None && registration is Err ==> slot_after_init(slot, config, registration) is None,
        slot is Some ==> slot_after_init(slot, config, registration) == slot,
{
}

/// Where `init` reports a threshold, it is the threshold of the configuration
/// that the slot holds after the call: what is announced to the front end and
/// what later events are filtered by come from the same configuration.
pub proof fn lemma_report_is_the_installed_threshold(
    slot: Option<PspLoggerConfig>,
    config: PspLoggerConfig,
    registration: Result<(), SetLoggerError>,
)
    ensures
        ({
            let after = slot_after_init(slot, config, registration);
            &&& init_report(after, registration) is Ok <==> registration is Ok
            &&& registration is Ok ==> after is Some && init_report(after, registration) == Ok::<
                LevelFilter,
                SetLoggerError,
            >(after->Some_0.threshold())
            &&& registration is Err ==> init_report(after, registration) == Err::<
                LevelFilter,
                SetLoggerError,
            >(registration->Err_0)
        }),
{
}

/// Once a configuration is installed, a later `init` changes nothing: the
/// slot keeps the first configuration, every level is enabled and routed as
/// before, and what the later call reports is a refusal or the threshold of
/// the first configuration, never that of its own.
pub proof fn lemma_installed_configuration_stays(
    first: PspLoggerConfig,
    second: PspLoggerConfig,
    registration: Result<(), SetLoggerError>,
    level: Level,
)
    ensures
        ({
            let after = slot_after_init(Some(first), second, registration);
            &&& after == Some(first)
            &&& after->Some_0.enables(level) == first.enables(level)
            &&& after->Some_0.stream_of(level) == first.stream_of(level)
            &&& registration is Ok ==> init_report(after, registration) == Ok::<
                LevelFilter,
                SetLoggerError,
            >(first.threshold())
            &&& registration is Err ==> init_report(after, registration) is Err
        }),
{
}

/// Of two requests on an empty slot, served one after the other, the first
/// that the front end accepts is installed whole and the other is dropped
/// whole; where neither is accepted the slot stays empty.
pub proof fn lemma_first_accepted_init_wins(
    a: PspLoggerConfig,
    answer_a: Result<(), SetLoggerError>,
    b: PspLoggerConfig,
    answer_b: Result<(), SetLoggerError>,
)
    ensures
        ({
            let after_a = slot_after_init(None, a, answer_a);
            let after_both = slot_after_init(after_a, b, answer_b);
            &&& answer_a is Ok ==> after_both == Some(a)
            &&& answer_a is Err && answer_b is Ok ==> after_both == Some(b)
            &&& answer_a is Err && answer_b is Err ==> after_both is None
            &&& answer_b is Ok ==> init_report(after_both, answer_b) == Ok::<
                LevelFilter,
                SetLoggerError,
            >(after_both->Some_0.threshold())
        }),
{
}

} // verus!
