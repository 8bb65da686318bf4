//! Crash reporting, first half: what a process remembers about itself,
//! and how a fault is admitted.
//!
//! A process holds one `PanicState`.  It stores its configuration in it
//! once, with `set_panic_handler`.  When a fault is caught, `admit_fault`
//! counts it and says whether a report is due: the first fault gets one,
//! every later fault ends the process at once.  A report can only be
//! started with the `Admitted` that `admit_fault` hands out, so a state
//! sees at most one.  The report itself is the business of
//! `crate::report`.

use vstd::prelude::*;

verus! {

/// What a report says about the program that faulted.
#[derive(Debug)]
pub struct PaincConf {
    /// Version of the program.
    pub version: String,
    /// When the program was built.
    pub build_time: String,
    /// Whether the process ends once the report is written.
    pub painc_exit: bool,
}

/// A `PaincConf` as plain values.
pub struct PaincConfView {
    pub version: Seq<char>,
    pub build_time: Seq<char>,
    pub painc_exit: bool,
}

impl View for PaincConf {
    type V = PaincConfView;

    open spec fn view(&self) -> PaincConfView {
        PaincConfView {
            version: self.version@,
            build_time: self.build_time@,
            painc_exit: self.painc_exit,
        }
    }
}

impl Default for PaincConf {
    fn default() -> (conf: Self)
        ensures
            conf@ == (PaincConfView {
                version: "0.0.1"@,
                build_time: "2023-05-01"@,
                painc_exit: true,
            }),
    {
        PaincConf {
            version: "0.0.1".to_string(),
            build_time: "2023-05-01".to_string(),
            painc_exit: true,
        }
    }
}

impl Clone for PaincConf {
    fn clone(&self) -> (copy: Self)
        ensures
            copy@ == self@,
    {
        PaincConf {
            version: self.version.clone(),
            build_time: self.build_time.clone(),
            painc_exit: self.painc_exit,
        }
    }
}

/// What the process remembers from one fault to the next: the
/// configuration, once it was given, and the number of faults so far.
#[derive(Debug)]
pub struct PanicState {
    conf: Option<PaincConf>,
    faults: u32,
}

/// A `PanicState` as plain values.
pub struct PanicStateView {
    pub conf: Option<PaincConfView>,
    pub faults: nat,
}

impl View for PanicState {
    type V = PanicStateView;

    closed spec fn view(&self) -> PanicStateView {
        PanicStateView {
            conf: match self.conf {
                Some(c) => Some(c@),
                None => None,
            },
            faults: self.faults as nat,
        }
    }
}

/// The state after `v` was offered as the configuration: it is taken
/// where none is held, and changes nothing where one is.
pub open spec fn installed(s: PanicStateView, v: PaincConfView) -> PanicStateView {
    if s.conf is None {
        PanicStateView { conf: Some(v), faults: s.faults }
    } else {
        s
    }
}

/// The state after one more fault was counted.  The count stops at the
/// largest value of its type.
pub open spec fn counted(s: PanicStateView) -> PanicStateView {
    PanicStateView {
        conf: s.conf,
        faults: if s.faults < u32::MAX {
            s.faults + 1
        } else {
            s.faults
        },
    }
}

/// Why a fault gets no report.
#[derive(Debug)]
pub struct Abort {
    /// The one line to print on standard error.
    pub warning: String,
    /// The status with which the process ends at once.
    pub code: i32,
}

/// An `Abort` as plain values.
pub struct AbortView {
    pub warning: Seq<char>,
    pub code: i32,
}

impl View for Abort {
    type V = AbortView;

    open spec fn view(&self) -> AbortView {
        AbortView { warning: self.warning@, code: self.code }
    }
}

/// The leave to write one report, with the configuration to write it
/// with.  Only `admit_fault` makes one, and only for the first fault
/// that a state counts.
#[derive(Debug)]
pub struct Admitted {
    conf: PaincConf,
}

impl View for Admitted {
    type V = PaincConfView;

    closed spec fn view(&self) -> PaincConfView {
        self.conf@
    }
}

impl Admitted {
    /// The configuration to report with.
    pub fn conf(&self) -> (conf: &PaincConf)
        ensures
            conf@ == self@,
    {
        &self.conf
    }

    /// Gives up the leave for the configuration inside.
    pub fn into_conf(self) -> (conf: PaincConf)
        ensures
            conf@ == self@,
    {
        self.conf
    }
}

/// The status of a process that ends because of a fault.
pub const FAULT_EXIT_CODE: i32 = 1;

/// The warning for a fault that is not the first.
pub open spec fn repeated_warning() -> Seq<char> {
    "panic happened more than once, exit immediatel y"@
}

/// The warning for a fault that comes before any configuration.
pub open spec fn missing_conf_warning() -> Seq<char> {
    "version info get error"@
}

/// What a fault is answered with in state `s`: the configuration to
/// report with, if it is the first fault and a configuration is held;
/// else the warning to end with.  A fault that is not the first is
/// refused whether or not a configuration is held.
pub open spec fn admission(s: PanicStateView) -> Result<PaincConfView, AbortView> {
    if s.faults > 0 {
        Err(AbortView { warning: repeated_warning(), code: FAULT_EXIT_CODE })
    } else {
        match s.conf {
            Some(c) => Ok(c),
            None => Err(AbortView { warning: missing_conf_warning(), code: FAULT_EXIT_CODE }),
        }
    }
}

impl PanicState {
    /// The state of a process that has no configuration and no fault yet.
    pub fn new() -> (state: Self)
        ensures
            state@ == (PanicStateView { conf: None, faults: 0 }),
    {
        PanicState { conf: None, faults: 0 }
    }

    /// Whether a configuration is held.
    pub fn is_installed(&self) -> (yes: bool)
        ensures
            yes == (self@.conf is Some),
    {
        self.conf.is_some()
    }

    /// The number of faults counted so far.
    pub fn fault_count(&self) -> (n: u32)
        ensures
            n == self@.faults,
    {
        self.faults
    }
}

/// The configuration that the process holds.
pub fn get_version(state: &PanicState) -> (conf: &PaincConf)
    requires
        state@.conf is Some,
    ensures
        Some(conf@) == state@.conf,
{
    state.conf.as_ref().unwrap()
}

/// Stores the configuration for the reports to come.  It is stored once:
/// a second one is handed back and leaves the first in place.
pub fn set_panic_handler(state: &mut PanicState, v: PaincConf) -> (outcome: Result<(), PaincConf>)
    ensures
        final(state)@ == installed(old(state)@, v@),
        match outcome {
            Ok(_) => old(state)@.conf is None,
            Err(back) => old(state)@.conf is Some && back@ == v@,
        },
{
    if state.conf.is_some() {
        Err(v)
    } else {
        state.conf = Some(v);
        Ok(())
    }
}

/// Counts a fault and says what it is answered with: the leave to
/// write a report, or the warning with which the process ends at once.
pub fn admit_fault(state: &mut PanicState) -> (answer: Result<Admitted, Abort>)
    ensures
        final(state)@ == counted(old(state)@),
        match answer {
            Ok(admitted) => admission(old(state)@) matches Ok(conf) && conf == admitted@,
            Err(abort) => admission(old(state)@) matches Err(refusal) && refusal == abort@,
        },
{
    let earlier = state.faults;
    if earlier < u32::MAX {
        state.faults = earlier + 1;
    }
    if earlier > 0 {
        Err(
            Abort {
                warning: "panic happened more than once, exit immediatel y".to_string(),
                code: FAULT_EXIT_CODE,
            },
        )
    } else if state.conf.is_some() {
        Ok(Admitted { conf: get_version(state).clone() })
    } else {
        Err(Abort { warning: "version info get error".to_string(), code: FAULT_EXIT_CODE })
    }
}

/// Once a configuration is held, no later one is taken: the second
/// offer is turned down and the state stays as the first offer left it.
pub proof fn lemma_second_install_rejected(
    s: PanicStateView,
    first: PaincConfView,
    second: PaincConfView,
)
    ensures
        installed(s, first).conf is Some,
        installed(installed(s, first), second) == installed(s, first),
        s.conf is None ==> installed(installed(s, first), second).conf == Some(first),
{
}

/// After its first fault a state refuses every fault.  Counting a
/// fault leaves a count above zero; a count above zero stays above zero,
/// whether a fault is counted or a configuration is offered; and at a
/// count above zero a fault is answered with the warning for repeated
/// faults and a status that is not zero, never with the leave to write a
/// report.
pub proof fn lemma_later_faults_refused(s: PanicStateView, v: PaincConfView)
    ensures
        counted(s).faults > 0,
        s.faults > 0 ==> counted(s).faults > 0 && installed(s, v).faults > 0,
        s.faults > 0 ==> (admission(s) matches Err(abort) && abort.warning == repeated_warning()
            && abort.code == FAULT_EXIT_CODE),
        FAULT_EXIT_CODE != 0,
{
}

/// The first fault of a state that holds a configuration is admitted
/// with that configuration; offering a configuration does not count as a
/// fault, and counting a fault does not touch the configuration.
pub proof fn lemma_first_fault_admitted(s: PanicStateView, v: PaincConfView)
    ensures
        s.faults == 0 && s.conf is None ==> (admission(installed(s, v)) matches Ok(conf) && conf
            == v),
        installed(s, v).faults == s.faults,
        counted(s).conf == s.conf,
{
}

} // verus!
