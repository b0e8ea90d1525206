use vstd::prelude::*;
use crate::config::ExporterConfig;
use crate::message::completion_marker;
use crate::message::dice_message;
use crate::message::dice_message_spec;
use crate::severity::passes_threshold;
use crate::severity::Severity;

verus! {

/// Why initialization fails: the exporter could not be constructed, or a
/// process-wide logger was already installed. Both are fatal; neither is
/// retried.
#[derive(Clone, Copy, Debug, PartialEq, Eq, Structural)]
pub enum InitError {
    ExporterConstruction,
    LoggerAlreadyInstalled,
}

/// One record handed to the export pipeline.
pub struct LogRecord {
    pub severity: Severity,
    pub message: String,
}

/// The process-wide logger slot: at most one logger is ever accepted.
pub struct LoggerSlot {
    pub installed: bool,
}

/// Whether an installation attempt on `slot` succeeds.
pub open spec fn install_succeeds(slot: LoggerSlot) -> bool {
    !slot.installed
}

/// The slot after an installation attempt: occupied either way, by the new
/// logger on success, still by the old one on failure.
pub open spec fn slot_after_attempt(slot: LoggerSlot) -> LoggerSlot {
    LoggerSlot { installed: true }
}

impl LoggerSlot {
    /// A fresh process starts with an empty slot.
    pub fn new() -> (s: LoggerSlot)
        ensures
            !s.installed,
    {
        LoggerSlot { installed: false }
    }

    /// Installs a logger into the slot. Succeeds exactly when the slot was
    /// empty; a repeated attempt is refused rather than overwriting the
    /// first logger.
    pub fn install(&mut self) -> (r: Result<(), InitError>)
        ensures
            *final(self) == slot_after_attempt(*old(self)),
            r is Ok <==> install_succeeds(*old(self)),
            r matches Err(e) ==> e == InitError::LoggerAlreadyInstalled,
    {
        if self.installed {
            Err(InitError::LoggerAlreadyInstalled)
        } else {
            self.installed = true;
            Ok(())
        }
    }
}

/// Installation is guarded against repetition: after any attempt the slot is
/// occupied, so a second attempt within the same process fails rather than
/// silently replacing the first logger.
pub proof fn lemma_second_install_fails(slot: LoggerSlot)
    ensures
        !install_succeeds(slot_after_attempt(slot)),
{
}

/// The linear phases of a run. No transition is reversible and no phase is
/// entered twice.
#[derive(Clone, Copy, Debug, PartialEq, Eq, Structural)]
pub enum Phase {
    Uninitialized,
    Configured,
    LoggerInstalled,
    EventEmitted,
    Flushed,
    Terminated,
}

/// One run of the program, from configuration to termination. The session
/// records what was handed to the export pipeline, whether the completion
/// marker was printed, and how often the pipeline was flushed.
pub struct Session {
    pub phase: Phase,
    pub config: Option<ExporterConfig>,
    pub min_severity: Severity,
    pub dice: i32,
    pub records: Vec<LogRecord>,
    pub marker_printed: bool,
    pub flush_count: u32,
}

impl Session {
    /// The one record a run holds from its emission on: informational, with
    /// the message built from a die value in `[1, 6]`.
    pub open spec fn emitted_record_ok(self) -> bool {
        &&& self.records@.len() == 1
        &&& self.records@[0].severity == Severity::Info
        &&& self.records@[0].message@ == dice_message_spec(self.dice as int)
        &&& 1 <= self.dice <= 6
    }

    /// What holds of a session in each phase.
    pub open spec fn wf(self) -> bool {
        match self.phase {
            Phase::Uninitialized => {
                &&& self.config is None
                &&& self.records@.len() == 0
                &&& !self.marker_printed
                &&& self.flush_count == 0
            },
            Phase::Configured => {
                &&& self.config is Some
                &&& self.records@.len() == 0
                &&& !self.marker_printed
                &&& self.flush_count == 0
            },
            Phase::LoggerInstalled => {
                &&& self.config is Some
                &&& self.min_severity == Severity::Info
                &&& self.records@.len() == 0
                &&& !self.marker_printed
                &&& self.flush_count == 0
            },
            Phase::EventEmitted => {
                &&& self.config is Some
                &&& self.min_severity == Severity::Info
                &&& self.emitted_record_ok()
                &&& self.flush_count == 0
            },
            Phase::Flushed => {
                &&& self.config is Some
                &&& self.min_severity == Severity::Info
                &&& self.emitted_record_ok()
                &&& self.marker_printed
                &&& self.flush_count == 1
            },
            Phase::Terminated => {
                &&& self.config is Some
                &&& self.min_severity == Severity::Info
                &&& self.emitted_record_ok()
                &&& self.marker_printed
                &&& self.flush_count == 1
            },
        }
    }

    /// A fresh session: nothing configured, nothing emitted, nothing flushed.
    pub fn new() -> (s: Session)
        ensures
            s.wf(),
            s.phase == Phase::Uninitialized,
    {
        Session {
            phase: Phase::Uninitialized,
            config: None,
            min_severity: Severity::Trace,
            dice: 1,
            records: Vec::new(),
            marker_printed: false,
            flush_count: 0,
        }
    }

    /// Stores the transport parameters: the first step of a run.
    pub fn configure(&mut self, cfg: ExporterConfig)
        requires
            old(self).wf(),
            old(self).phase == Phase::Uninitialized,
        ensures
            final(self).wf(),
            final(self).phase == Phase::Configured,
            final(self).config == Some(cfg),
            final(self).records@ == old(self).records@,
            final(self).flush_count == 0,
            !final(self).marker_printed,
    {
        self.config = Some(cfg);
        self.phase = Phase::Configured;
    }

    /// Installs the run's logger into the process-wide slot and sets the
    /// minimum severity threshold to informational. Fails, leaving the
    /// session unchanged, when a logger was already installed.
    pub fn install_logger(&mut self, slot: &mut LoggerSlot) -> (r: Result<(), InitError>)
        requires
            old(self).wf(),
            old(self).phase == Phase::Configured,
        ensures
            final(self).wf(),
            *final(slot) == slot_after_attempt(*old(slot)),
            r is Ok <==> install_succeeds(*old(slot)),
            r is Ok ==> {
                &&& final(self).phase == Phase::LoggerInstalled
                &&& final(self).config == old(self).config
                &&& final(self).min_severity == Severity::Info
                &&& final(self).records@ == old(self).records@
                &&& final(self).flush_count == 0
                &&& !final(self).marker_printed
            },
            r matches Err(e) ==> e == InitError::LoggerAlreadyInstalled && *final(self) == *old(
                self,
            ),
    {
        let res = slot.install();
        match res {
            Ok(()) => {
                self.min_severity = Severity::Info;
                self.phase = Phase::LoggerInstalled;
                Ok(())
            },
            Err(e) => Err(e),
        }
    }

    /// Emits the one informational record of the run, with the die value
    /// interpolated into the message. The record passes the severity
    /// threshold and is appended to the pipeline's buffer.
    pub fn emit_roll(&mut self, value: i32)
        requires
            old(self).wf(),
            old(self).phase == Phase::LoggerInstalled,
            1 <= value <= 6,
        ensures
            final(self).wf(),
            final(self).phase == Phase::EventEmitted,
            final(self).dice == value,
            final(self).records@.len() == 1,
            final(self).records@[0].severity == Severity::Info,
            final(self).records@[0].message@ == dice_message_spec(value as int),
            final(self).config == old(self).config,
            final(self).flush_count == 0,
            final(self).marker_printed == old(self).marker_printed,
    {
        let message = dice_message(value);
        if passes_threshold(Severity::Info, self.min_severity) {
            self.records.push(LogRecord { severity: Severity::Info, message });
        }
        self.dice = value;
        self.phase = Phase::EventEmitted;
    }

    /// Hands out the completion marker to print. Printing happens after the
    /// emission and before the flush.
    pub fn print_marker(&mut self) -> (r: String)
        requires
            old(self).wf(),
            old(self).phase == Phase::EventEmitted,
            !old(self).marker_printed,
        ensures
            final(self).wf(),
            final(self).phase == Phase::EventEmitted,
            final(self).marker_printed,
            r@ == "Done"@,
            final(self).records@ == old(self).records@,
            final(self).dice == old(self).dice,
            final(self).config == old(self).config,
            final(self).flush_count == 0,
    {
        self.marker_printed = true;
        completion_marker().to_owned()
    }

    /// Flushes the pipeline: the one flush of a run, after the emission and
    /// after the completion marker was printed.
    pub fn force_flush(&mut self)
        requires
            old(self).wf(),
            old(self).phase == Phase::EventEmitted,
            old(self).marker_printed,
        ensures
            final(self).wf(),
            final(self).phase == Phase::Flushed,
            final(self).flush_count == 1,
            final(self).records@ == old(self).records@,
            final(self).dice == old(self).dice,
            final(self).config == old(self).config,
            final(self).marker_printed,
    {
        self.flush_count = self.flush_count + 1;
        self.phase = Phase::Flushed;
    }

    /// Ends the run. A run that reached the flushed phase exits with zero.
    pub fn terminate(&mut self) -> (code: i32)
        requires
            old(self).wf(),
            old(self).phase == Phase::Flushed,
        ensures
            final(self).wf(),
            final(self).phase == Phase::Terminated,
            code == 0,
            final(self).records@ == old(self).records@,
            final(self).dice == old(self).dice,
            final(self).flush_count == old(self).flush_count,
    {
        self.phase = Phase::Terminated;
        0
    }

    /// Exactly one record is emitted per run: from the emission on, the
    /// session holds a single record, informational, whose message carries
    /// the die value, which lies in `[1, 6]`.
    pub proof fn lemma_single_informational_record(self)
        requires
            self.wf(),
            self.phase == Phase::EventEmitted || self.phase == Phase::Flushed || self.phase
                == Phase::Terminated,
        ensures
            self.records@.len() == 1,
            self.records@[0].severity == Severity::Info,
            self.records@[0].message@ == dice_message_spec(self.dice as int),
            1 <= self.dice <= 6,
    {
    }

    /// The flush happens exactly once, after the single emission and after
    /// the completion marker was printed: a flushed session holds one
    /// record, a printed marker, and a flush count of one.
    pub proof fn lemma_flush_once_after_emission(self)
        requires
            self.wf(),
            self.phase == Phase::Flushed || self.phase == Phase::Terminated,
        ensures
            self.flush_count == 1,
            self.marker_printed,
            self.records@.len() == 1,
    {
    }
}

/// Exit status of the process: zero on success, one on an initialization
/// error (exporter construction or double logger installation).
pub fn exit_code(outcome: &Result<(), InitError>) -> (code: i32)
    ensures
        code == 0 <==> outcome is Ok,
        outcome is Err ==> code == 1,
{
    if outcome.is_ok() {
        0
    } else {
        1
    }
}

} // verus!
