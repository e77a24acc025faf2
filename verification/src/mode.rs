//! The clock modes as tokens, and the transitions between them.
//!
//! Reading the mode consumes the generator and gives back a token for the mode that the
//! registers show. Only the token of a mode can begin the transition that leaves that mode.
//! A transition is a state machine: it is stepped with one fresh sample of the registers at
//! a time and answers what the caller has to do before the next step, until it hands out
//! the token of the mode it has reached.

use vstd::prelude::*;
use crate::error::ClockError;
use crate::mcg::{
    fll_range_ok, ClockSource, CrystalRange, McgControl, McgRegisters, Mode,
    MultipurposeClockGenerator, Wait,
};
use crate::pll::{
    lemma_solution_keeps_ratio, solved_pll_divider, PLL_DIVIDER_DENOMINATOR_MIN,
    PLL_DIVIDER_NUMERATOR_MIN,
};
use crate::refdiv::{
    is_reference_divider, is_reference_divider_code, reference_divider, reference_divider_code,
};

verus! {

/// FLL engaged, internal reference.
#[derive(Debug)]
pub struct Fei {
    mcg: MultipurposeClockGenerator,
}

/// FLL engaged, external reference.
#[derive(Debug)]
pub struct Fee {
    mcg: MultipurposeClockGenerator,
}

/// FLL bypassed, internal reference.
#[derive(Debug)]
pub struct Fbi {
    mcg: MultipurposeClockGenerator,
}

/// FLL bypassed, external reference.
#[derive(Debug)]
pub struct Fbe {
    mcg: MultipurposeClockGenerator,
}

/// PLL engaged, external reference.
#[derive(Debug)]
pub struct Pee {
    mcg: MultipurposeClockGenerator,
}

/// PLL bypassed, external reference.
#[derive(Debug)]
pub struct Pbe {
    mcg: MultipurposeClockGenerator,
}

/// Bypassed low power, internal reference.
#[derive(Debug)]
pub struct Blpi {
    mcg: MultipurposeClockGenerator,
}

/// Bypassed low power, external reference.
#[derive(Debug)]
pub struct Blpe {
    mcg: MultipurposeClockGenerator,
}

/// Stop.
#[derive(Debug)]
pub struct Stop {
    mcg: MultipurposeClockGenerator,
}

/// The mode of operation of the clock generator, as the token of that mode.
#[derive(Debug)]
pub enum ClockMode {
    Fei(Fei),
    Fee(Fee),
    Fbi(Fbi),
    Fbe(Fbe),
    Pee(Pee),
    Pbe(Pbe),
    Blpi(Blpi),
    Blpe(Blpe),
    Stop(Stop),
}

impl Fei {
    /// A token holds a well-formed generator whose registers show the token's mode.
    #[verifier::type_invariant]
    spec fn inv(self) -> bool {
        self.mcg.wf() && self.mcg.mode() == Some(Mode::Fei)
    }

    /// The generator that the token holds.
    pub closed spec fn generator(self) -> MultipurposeClockGenerator {
        self.mcg
    }

    /// Begins the transition to FBE, which moves the clock to the external crystal with
    /// the FLL external reference divider `divider`.
    pub fn into_fbe(self, divider: u16) -> (transition: Transition)
        ensures
            transition@ == (TransitionState {
                mcg: self.generator(),
                stage: Stage::RequestCrystal { divider },
            }),
            self.generator().wf(),
            self.generator().mode() == Some(Mode::Fei),
    {
        proof {
            use_type_invariant(&self);
        }
        Transition { mcg: self.mcg, stage: Stage::RequestCrystal { divider } }
    }
}

impl Fee {
    #[verifier::type_invariant]
    spec fn inv(self) -> bool {
        self.mcg.wf() && self.mcg.mode() == Some(Mode::Fee)
    }

    /// The generator that the token holds.
    pub closed spec fn generator(self) -> MultipurposeClockGenerator {
        self.mcg
    }
}

impl Fbi {
    #[verifier::type_invariant]
    spec fn inv(self) -> bool {
        self.mcg.wf() && self.mcg.mode() == Some(Mode::Fbi)
    }

    /// The generator that the token holds.
    pub closed spec fn generator(self) -> MultipurposeClockGenerator {
        self.mcg
    }
}

impl Fbe {
    #[verifier::type_invariant]
    spec fn inv(self) -> bool {
        self.mcg.wf() && self.mcg.mode() == Some(Mode::Fbe)
    }

    /// The generator that the token holds.
    pub closed spec fn generator(self) -> MultipurposeClockGenerator {
        self.mcg
    }

    /// Begins the transition to PBE, which enables the PLL with the divide factors that
    /// make it put out `frequency` MHz.
    pub fn into_pbe(self, frequency: u32) -> (transition: Transition)
        ensures
            transition@ == (TransitionState {
                mcg: self.generator(),
                stage: Stage::ProgramPll { frequency },
            }),
            self.generator().wf(),
            self.generator().mode() == Some(Mode::Fbe),
    {
        proof {
            use_type_invariant(&self);
        }
        Transition { mcg: self.mcg, stage: Stage::ProgramPll { frequency } }
    }
}

impl Pee {
    #[verifier::type_invariant]
    spec fn inv(self) -> bool {
        self.mcg.wf() && self.mcg.mode() == Some(Mode::Pee)
    }

    /// The generator that the token holds.
    pub closed spec fn generator(self) -> MultipurposeClockGenerator {
        self.mcg
    }
}

impl Pbe {
    #[verifier::type_invariant]
    spec fn inv(self) -> bool {
        self.mcg.wf() && self.mcg.mode() == Some(Mode::Pbe)
    }

    /// The generator that the token holds.
    pub closed spec fn generator(self) -> MultipurposeClockGenerator {
        self.mcg
    }

    /// Begins the transition to PEE, which makes the PLL the clock source.
    pub fn into_pee(self) -> (transition: Transition)
        ensures
            transition@ == (TransitionState { mcg: self.generator(), stage: Stage::SelectPll }),
            self.generator().wf(),
            self.generator().mode() == Some(Mode::Pbe),
    {
        proof {
            use_type_invariant(&self);
        }
        Transition { mcg: self.mcg, stage: Stage::SelectPll }
    }
}

impl Blpi {
    #[verifier::type_invariant]
    spec fn inv(self) -> bool {
        self.mcg.wf() && self.mcg.mode() == Some(Mode::Blpi)
    }

    /// The generator that the token holds.
    pub closed spec fn generator(self) -> MultipurposeClockGenerator {
        self.mcg
    }
}

impl Blpe {
    #[verifier::type_invariant]
    spec fn inv(self) -> bool {
        self.mcg.wf() && self.mcg.mode() == Some(Mode::Blpe)
    }

    /// The generator that the token holds.
    pub closed spec fn generator(self) -> MultipurposeClockGenerator {
        self.mcg
    }
}

impl Stop {
    #[verifier::type_invariant]
    spec fn inv(self) -> bool {
        self.mcg.wf() && self.mcg.mode() == Some(Mode::Stop)
    }

    /// The generator that the token holds.
    pub closed spec fn generator(self) -> MultipurposeClockGenerator {
        self.mcg
    }
}

impl ClockMode {
    /// The mode that the token is of.
    pub open spec fn mode(self) -> Mode {
        match self {
            ClockMode::Fei(_) => Mode::Fei,
            ClockMode::Fee(_) => Mode::Fee,
            ClockMode::Fbi(_) => Mode::Fbi,
            ClockMode::Fbe(_) => Mode::Fbe,
            ClockMode::Pee(_) => Mode::Pee,
            ClockMode::Pbe(_) => Mode::Pbe,
            ClockMode::Blpi(_) => Mode::Blpi,
            ClockMode::Blpe(_) => Mode::Blpe,
            ClockMode::Stop(_) => Mode::Stop,
        }
    }

    /// The generator that the token holds.
    pub open spec fn generator(self) -> MultipurposeClockGenerator {
        match self {
            ClockMode::Fei(token) => token.generator(),
            ClockMode::Fee(token) => token.generator(),
            ClockMode::Fbi(token) => token.generator(),
            ClockMode::Fbe(token) => token.generator(),
            ClockMode::Pee(token) => token.generator(),
            ClockMode::Pbe(token) => token.generator(),
            ClockMode::Blpi(token) => token.generator(),
            ClockMode::Blpe(token) => token.generator(),
            ClockMode::Stop(token) => token.generator(),
        }
    }

    /// The token is what reading the mode of `mcg` answers: it holds `mcg`, and it is the
    /// token of the mode that the registers of `mcg` show.
    pub open spec fn is_reading_of(self, mcg: MultipurposeClockGenerator) -> bool {
        self.generator() == mcg && mcg.mode() == Some(self.mode())
    }

    /// The mode that the token is of.
    pub fn to_mode(&self) -> (mode: Mode)
        ensures
            mode == self.mode(),
    {
        match self {
            ClockMode::Fei(_) => Mode::Fei,
            ClockMode::Fee(_) => Mode::Fee,
            ClockMode::Fbi(_) => Mode::Fbi,
            ClockMode::Fbe(_) => Mode::Fbe,
            ClockMode::Pee(_) => Mode::Pee,
            ClockMode::Pbe(_) => Mode::Pbe,
            ClockMode::Blpi(_) => Mode::Blpi,
            ClockMode::Blpe(_) => Mode::Blpe,
            ClockMode::Stop(_) => Mode::Stop,
        }
    }

    /// Gives up the token and releases the generator it holds. The generator is
    /// well-formed and its registers show the mode of the token.
    pub fn free(self) -> (mcg: MultipurposeClockGenerator)
        ensures
            self.is_reading_of(mcg),
            mcg.wf(),
    {
        match self {
            ClockMode::Fei(token) => {
                proof {
                    use_type_invariant(&token);
                }
                token.mcg
            },
            ClockMode::Fee(token) => {
                proof {
                    use_type_invariant(&token);
                }
                token.mcg
            },
            ClockMode::Fbi(token) => {
                proof {
                    use_type_invariant(&token);
                }
                token.mcg
            },
            ClockMode::Fbe(token) => {
                proof {
                    use_type_invariant(&token);
                }
                token.mcg
            },
            ClockMode::Pee(token) => {
                proof {
                    use_type_invariant(&token);
                }
                token.mcg
            },
            ClockMode::Pbe(token) => {
                proof {
                    use_type_invariant(&token);
                }
                token.mcg
            },
            ClockMode::Blpi(token) => {
                proof {
                    use_type_invariant(&token);
                }
                token.mcg
            },
            ClockMode::Blpe(token) => {
                proof {
                    use_type_invariant(&token);
                }
                token.mcg
            },
            ClockMode::Stop(token) => {
                proof {
                    use_type_invariant(&token);
                }
                token.mcg
            },
        }
    }
}

impl MultipurposeClockGenerator {
    /// Reads the mode of operation off the registers.
    ///
    /// The answer is the token of the mode that `mode` gives for the registers, holding
    /// this generator unchanged. Registers that match no mode are refused.
    pub fn clock_mode(self) -> (r: Result<ClockMode, ClockError>)
        requires
            self.wf(),
        ensures
            match self.mode() {
                Some(mode) => r matches Ok(token) && token.is_reading_of(self),
                None => r matches Err(error) && error == ClockError::UnknownClockMode,
            },
    {
        let clock_source = self.registers.control.clks;
        let internal_clock_reference = self.registers.control.irefs;
        let pll_enabled = self.registers.control.plls;
        let low_power_enabled = self.registers.control.lp;
        let fll_range_ok = self.fll_range_ok();
        let mcg = self;
        match (
            clock_source,
            internal_clock_reference,
            pll_enabled,
            low_power_enabled,
            fll_range_ok,
        ) {
            (ClockSource::LockedLoop, true, false, _, _) => Ok(ClockMode::Fei(Fei { mcg })),
            (ClockSource::LockedLoop, false, false, _, true) => Ok(ClockMode::Fee(Fee { mcg })),
            (ClockSource::InternalReference, true, false, false, _) => Ok(
                ClockMode::Fbi(Fbi { mcg }),
            ),
            (ClockSource::ExternalReference, false, false, false, true) => Ok(
                ClockMode::Fbe(Fbe { mcg }),
            ),
            (ClockSource::LockedLoop, false, true, _, _) => Ok(ClockMode::Pee(Pee { mcg })),
            (ClockSource::ExternalReference, false, true, false, _) => Ok(
                ClockMode::Pbe(Pbe { mcg }),
            ),
            (ClockSource::InternalReference, true, false, true, _) => Ok(
                ClockMode::Blpi(Blpi { mcg }),
            ),
            (ClockSource::ExternalReference, false, _, true, _) => Ok(
                ClockMode::Blpe(Blpe { mcg }),
            ),
            _ => Err(ClockError::UnknownClockMode),
        }
    }
}

/// Reading the mode changes nothing, so reading it again gives the same mode: if `first`
/// was read from `mcg`, and `second` from the generator that `first` releases, the two are
/// tokens of the same mode, and both hold `mcg` as it was.
pub proof fn lemma_clock_mode_is_idempotent(
    mcg: MultipurposeClockGenerator,
    first: ClockMode,
    second: ClockMode,
)
    requires
        first.is_reading_of(mcg),
        second.is_reading_of(first.generator()),
    ensures
        second.mode() == first.mode(),
        second.generator() == mcg,
        second.is_reading_of(mcg),
{
}

/// Where a transition stands: what it has done and what it waits for.
#[derive(Clone, Copy, Debug, PartialEq, Eq, Structural)]
pub enum Stage {
    /// To FBE: nothing has been done yet. The high frequency range will be selected and the
    /// crystal requested.
    RequestCrystal { divider: u16 },
    /// To FBE: the crystal is requested and the oscillator has to initialize. The
    /// reference divider will then be set and the external reference selected.
    AwaitOscillator { divider: u16 },
    /// To FBE: the external reference is selected and the FLL has to move to it.
    AwaitExternalReference,
    /// To FBE: the clock source has to move to the external reference.
    AwaitExternalClock,
    /// To PBE: nothing has been done yet. The PLL divide factors will be set and the PLL
    /// selected.
    ProgramPll { frequency: u32 },
    /// To PBE: the PLL is selected and the locked loop output has to move to it.
    AwaitPllSelected,
    /// To PBE: the PLL has to lock.
    AwaitPllLock,
    /// To PEE: nothing has been done yet. The locked loop output will be selected.
    SelectPll,
    /// To PEE: the clock source has to move to the PLL.
    AwaitPllClock,
}

/// A transition in progress, as plain values: the generator and the stage reached.
pub struct TransitionState {
    pub mcg: MultipurposeClockGenerator,
    pub stage: Stage,
}

/// The outcome of one step of a transition, as plain values.
pub enum Outcome {
    /// The control registers were changed: they are to be written, and the transition goes
    /// on from the state given.
    Write(TransitionState),
    /// Nothing was changed: the transition goes on from the state given.
    Poll(TransitionState),
    /// The transition is over: the generator is in the mode given.
    Done(MultipurposeClockGenerator, Mode),
    /// The transition has failed.
    Failed(ClockError),
}

/// A transition in progress.
#[derive(Debug)]
pub struct Transition {
    mcg: MultipurposeClockGenerator,
    stage: Stage,
}

/// What a step of a transition asks of the caller.
#[derive(Debug)]
pub enum Progress {
    /// The control registers of the transition were changed. Write them to the hardware,
    /// then sample the registers and step again.
    Write(Transition),
    /// Nothing was changed. Sample the registers and step again.
    Poll(Transition),
    /// The transition is over, and this is the token of the mode reached.
    Done(ClockMode),
    /// The transition has failed.
    Failed(ClockError),
}

impl View for Transition {
    type V = TransitionState;

    closed spec fn view(&self) -> TransitionState {
        TransitionState { mcg: self.mcg, stage: self.stage }
    }
}

impl Progress {
    /// The outcome as plain values.
    pub open spec fn outcome(self) -> Outcome {
        match self {
            Progress::Write(transition) => Outcome::Write(transition@),
            Progress::Poll(transition) => Outcome::Poll(transition@),
            Progress::Done(token) => Outcome::Done(token.generator(), token.mode()),
            Progress::Failed(error) => Outcome::Failed(error),
        }
    }
}

/// The generator `mcg` with its control registers replaced by `control`.
pub open spec fn with_control(mcg: MultipurposeClockGenerator, control: McgControl) -> MultipurposeClockGenerator {
    MultipurposeClockGenerator {
        registers: McgRegisters { control, ..mcg.registers },
        ..mcg
    }
}

/// Sets the reference divider and selects the external reference, or fails on a divider
/// that the crystal class of `mcg` does not have.
pub open spec fn switch_to_crystal(mcg: MultipurposeClockGenerator, divider: u16) -> Outcome {
    let control = mcg.registers.control;
    if is_reference_divider(divider as int, control.low_frequency()) {
        Outcome::Write(
            TransitionState {
                mcg: with_control(
                    mcg,
                    McgControl {
                        frdiv: reference_divider_code(divider as int, control.low_frequency()) as u8,
                        clks: ClockSource::ExternalReference,
                        irefs: false,
                        ..control
                    },
                ),
                stage: Stage::AwaitExternalReference,
            },
        )
    } else {
        Outcome::Failed(ClockError::InvalidExternalClockDivider(divider))
    }
}

/// Sets the PLL divide factors for `frequency` and selects the PLL, or fails where
/// `set_pll_frequency` does.
pub open spec fn program_pll(mcg: MultipurposeClockGenerator, frequency: u32) -> Outcome {
    let control = mcg.registers.control;
    if frequency > u8::MAX {
        Outcome::Failed(ClockError::FrequencyOutOfRange(frequency))
    } else if mcg.external_crystal_frequency > u8::MAX {
        Outcome::Failed(ClockError::FrequencyOutOfRange(mcg.external_crystal_frequency))
    } else {
        match solved_pll_divider(frequency as nat, mcg.external_crystal_frequency as nat) {
            Some((n, d)) => Outcome::Write(
                TransitionState {
                    mcg: with_control(
                        mcg,
                        McgControl {
                            prdiv0: (d - PLL_DIVIDER_DENOMINATOR_MIN) as u8,
                            vdiv0: (n - PLL_DIVIDER_NUMERATOR_MIN) as u8,
                            plls: true,
                            ..control
                        },
                    ),
                    stage: Stage::AwaitPllSelected,
                },
            ),
            None => Outcome::Failed(
                ClockError::UnsolvablePllDivider {
                    numerator: frequency as u8,
                    denominator: mcg.external_crystal_frequency as u8,
                },
            ),
        }
    }
}

/// Ends a transition that was meant to reach `target`: the mode is read off the registers
/// again, and it has to be `target`.
pub open spec fn finished(mcg: MultipurposeClockGenerator, target: Mode) -> Outcome {
    match mcg.mode() {
        Some(mode) => if mode == target {
            Outcome::Done(mcg, mode)
        } else {
            Outcome::Failed(ClockError::UnexpectedClockMode)
        },
        None => Outcome::Failed(ClockError::UnknownClockMode),
    }
}

/// Waits at `stage` until `wait` is met at the sampled status, then moves on to `next`.
pub open spec fn await_then(
    mcg: MultipurposeClockGenerator,
    stage: Stage,
    wait: Wait,
    next: Stage,
) -> Outcome {
    if wait.met(mcg.registers.status) {
        Outcome::Poll(TransitionState { mcg, stage: next })
    } else {
        Outcome::Poll(TransitionState { mcg, stage })
    }
}

/// One step of a transition: from the state reached and a fresh sample of the registers
/// to the next state and what the caller has to do. The sample replaces the registers of
/// the generator before anything is decided.
pub open spec fn step_of(state: TransitionState, sample: McgRegisters) -> Outcome {
    let mcg = MultipurposeClockGenerator { registers: sample, ..state.mcg };
    let control = sample.control;
    match state.stage {
        Stage::RequestCrystal { divider } => {
            let ranged = McgControl { range0: CrystalRange::High, ..control };
            if control.erefs0 {
                switch_to_crystal(with_control(mcg, ranged), divider)
            } else {
                Outcome::Write(
                    TransitionState {
                        mcg: with_control(mcg, McgControl { erefs0: true, ..ranged }),
                        stage: Stage::AwaitOscillator { divider },
                    },
                )
            }
        },
        Stage::AwaitOscillator { divider } => if Wait::OscillatorInitialized.met(sample.status) {
            switch_to_crystal(mcg, divider)
        } else {
            Outcome::Poll(TransitionState { mcg, stage: state.stage })
        },
        Stage::AwaitExternalReference => await_then(
            mcg,
            state.stage,
            Wait::ExternalReferenceSelected,
            Stage::AwaitExternalClock,
        ),
        Stage::AwaitExternalClock => if Wait::ExternalClockSelected.met(sample.status) {
            finished(mcg, Mode::Fbe)
        } else {
            Outcome::Poll(TransitionState { mcg, stage: state.stage })
        },
        Stage::ProgramPll { frequency } => program_pll(mcg, frequency),
        Stage::AwaitPllSelected => await_then(
            mcg,
            state.stage,
            Wait::PllSelected,
            Stage::AwaitPllLock,
        ),
        Stage::AwaitPllLock => if Wait::PllLocked.met(sample.status) {
            finished(mcg, Mode::Pbe)
        } else {
            Outcome::Poll(TransitionState { mcg, stage: state.stage })
        },
        Stage::SelectPll => Outcome::Write(
            TransitionState {
                mcg: with_control(mcg, McgControl { clks: ClockSource::LockedLoop, ..control }),
                stage: Stage::AwaitPllClock,
            },
        ),
        Stage::AwaitPllClock => if Wait::PllClockSelected.met(sample.status) {
            finished(mcg, Mode::Pee)
        } else {
            Outcome::Poll(TransitionState { mcg, stage: state.stage })
        },
    }
}

impl Transition {
    /// A transition holds a well-formed generator.
    #[verifier::type_invariant]
    spec fn inv(self) -> bool {
        self.mcg.wf()
    }

    /// The registers of the generator in transition, with the changes of the last step.
    pub fn registers(&self) -> (registers: McgRegisters)
        ensures
            registers == self@.mcg.registers,
            registers.wf(),
    {
        proof {
            use_type_invariant(self);
        }
        self.mcg.registers
    }

    /// The stage that the transition has reached.
    pub fn stage(&self) -> (stage: Stage)
        ensures
            stage == self@.stage,
    {
        self.stage
    }

    /// Sets the reference divider and selects the external reference.
    fn switch_to_crystal(mcg: MultipurposeClockGenerator, divider: u16) -> (progress: Progress)
        requires
            mcg.wf(),
        ensures
            progress.outcome() == switch_to_crystal(mcg, divider),
    {
        let mut mcg = mcg;
        match mcg.set_external_crystal_frequency_divider(divider) {
            Ok(()) => {
                let _ = mcg.use_external_crystal();
                Progress::Write(Transition { mcg, stage: Stage::AwaitExternalReference })
            },
            Err(error) => Progress::Failed(error),
        }
    }

    /// Reads the mode again at the end of a transition meant to reach `target`.
    fn finish(mcg: MultipurposeClockGenerator, target: Mode) -> (progress: Progress)
        requires
            mcg.wf(),
        ensures
            progress.outcome() == finished(mcg, target),
    {
        match mcg.clock_mode() {
            Ok(token) => {
                if token.to_mode() == target {
                    Progress::Done(token)
                } else {
                    Progress::Failed(ClockError::UnexpectedClockMode)
                }
            },
            Err(error) => Progress::Failed(error),
        }
    }

    /// Waits at `stage` until `wait` is met, then moves on to `next`.
    fn await_then(mcg: MultipurposeClockGenerator, stage: Stage, wait: Wait, next: Stage) -> (progress:
        Progress)
        requires
            mcg.wf(),
        ensures
            progress.outcome() == await_then(mcg, stage, wait, next),
    {
        if wait.is_met(&mcg.registers.status) {
            Progress::Poll(Transition { mcg, stage: next })
        } else {
            Progress::Poll(Transition { mcg, stage })
        }
    }

    /// Takes the transition one step further with a fresh sample of the registers.
    ///
    /// The sample replaces the registers of the generator. Then, by the stage: the
    /// registers are changed and `Write` is answered; or the awaited status is looked for
    /// in the sample and `Poll` is answered, at the same stage if it has not arrived and
    /// at the next if it has; or, past the last wait, the mode is read off the sample and
    /// the token of the target mode is handed out, if the sample shows that mode.
    pub fn step(self, sample: McgRegisters) -> (progress: Progress)
        requires
            sample.wf(),
        ensures
            progress.outcome() == step_of(self@, sample),
    {
        let stage = self.stage;
        let mut mcg = self.mcg;
        mcg.registers = sample;
        match stage {
            Stage::RequestCrystal { divider } => {
                mcg.set_external_crystal_frequency_range_high();
                match mcg.enable_external_crystal_request() {
                    Some(_) => Progress::Write(
                        Transition { mcg, stage: Stage::AwaitOscillator { divider } },
                    ),
                    None => Self::switch_to_crystal(mcg, divider),
                }
            },
            Stage::AwaitOscillator { divider } => {
                if Wait::OscillatorInitialized.is_met(&sample.status) {
                    Self::switch_to_crystal(mcg, divider)
                } else {
                    Progress::Poll(Transition { mcg, stage })
                }
            },
            Stage::AwaitExternalReference => Self::await_then(
                mcg,
                stage,
                Wait::ExternalReferenceSelected,
                Stage::AwaitExternalClock,
            ),
            Stage::AwaitExternalClock => {
                if Wait::ExternalClockSelected.is_met(&sample.status) {
                    Self::finish(mcg, Mode::Fbe)
                } else {
                    Progress::Poll(Transition { mcg, stage })
                }
            },
            Stage::ProgramPll { frequency } => {
                match mcg.set_pll_frequency(frequency) {
                    Ok(()) => {
                        let _ = mcg.enable_pll();
                        Progress::Write(Transition { mcg, stage: Stage::AwaitPllSelected })
                    },
                    Err(error) => Progress::Failed(error),
                }
            },
            Stage::AwaitPllSelected => Self::await_then(
                mcg,
                stage,
                Wait::PllSelected,
                Stage::AwaitPllLock,
            ),
            Stage::AwaitPllLock => {
                if Wait::PllLocked.is_met(&sample.status) {
                    Self::finish(mcg, Mode::Pbe)
                } else {
                    Progress::Poll(Transition { mcg, stage })
                }
            },
            Stage::SelectPll => {
                let _ = mcg.use_pll();
                Progress::Write(Transition { mcg, stage: Stage::AwaitPllClock })
            },
            Stage::AwaitPllClock => {
                if Wait::PllClockSelected.is_met(&sample.status) {
                    Self::finish(mcg, Mode::Pee)
                } else {
                    Progress::Poll(Transition { mcg, stage })
                }
            },
        }
    }
}

/// The sample that a generator which has followed its control registers gives back: the
/// control registers as the transition left them, and the status settled on them.
pub open spec fn settled(state: TransitionState) -> McgRegisters {
    McgRegisters {
        control: state.mcg.registers.control,
        status: state.mcg.registers.control.settled_status(),
    }
}

/// The outcome of stepping a transition against hardware that follows at once: each step
/// is given the settled sample of the state before it. At most `steps` steps are taken;
/// an outcome that ends the transition is returned as soon as it comes.
pub open spec fn run_settled(state: TransitionState, steps: nat) -> Outcome
    decreases steps,
{
    if steps == 0 {
        Outcome::Poll(state)
    } else {
        match step_of(state, settled(state)) {
            Outcome::Write(next) => run_settled(next, (steps - 1) as nat),
            Outcome::Poll(next) => run_settled(next, (steps - 1) as nat),
            ended => ended,
        }
    }
}

/// The control registers of FBE as the transition from FEI leaves them.
pub open spec fn fbe_control(control: McgControl, divider: u16) -> McgControl {
    McgControl {
        range0: CrystalRange::High,
        erefs0: true,
        frdiv: reference_divider_code(divider as int, control.oscsel) as u8,
        clks: ClockSource::ExternalReference,
        irefs: false,
        ..control
    }
}

/// The control registers of PBE as the transition from FBE leaves them.
pub open spec fn pbe_control(control: McgControl, numerator: int, denominator: int) -> McgControl {
    McgControl {
        prdiv0: (denominator - PLL_DIVIDER_DENOMINATOR_MIN) as u8,
        vdiv0: (numerator - PLL_DIVIDER_NUMERATOR_MIN) as u8,
        plls: true,
        ..control
    }
}

/// The generator with the control registers given and the status settled on them.
pub open spec fn settled_on(mcg: MultipurposeClockGenerator, control: McgControl) -> MultipurposeClockGenerator {
    MultipurposeClockGenerator {
        registers: McgRegisters { control, status: control.settled_status() },
        ..mcg
    }
}

/// Against hardware that follows, the transition from FEI ends in FBE within four steps.
///
/// This holds when low power is off, `divider` is a reference divider of the crystal class
/// (which, once the high frequency range is selected, `OSCSEL` alone decides), and the
/// crystal frequency over `divider` lies in the FLL reference range.
pub proof fn lemma_fei_reaches_fbe(mcg: MultipurposeClockGenerator, divider: u16)
    requires
        mcg.wf(),
        mcg.mode() == Some(Mode::Fei),
        !mcg.registers.control.lp,
        is_reference_divider(divider as int, mcg.registers.control.oscsel),
        fll_range_ok(mcg.external_crystal_frequency as int, divider as int),
    ensures
        run_settled(TransitionState { mcg, stage: Stage::RequestCrystal { divider } }, 4)
            == Outcome::Done(
            settled_on(mcg, fbe_control(mcg.registers.control, divider)),
            Mode::Fbe,
        ),
        settled_on(mcg, fbe_control(mcg.registers.control, divider)).wf(),
{
    reveal_with_fuel(run_settled, 5);
    let control = mcg.registers.control;
    let low = control.oscsel;
    let code = reference_divider_code(divider as int, low);
    assert(is_reference_divider_code(code) && reference_divider(code, low) == divider);
    let ranged = McgControl { range0: CrystalRange::High, ..control };
    assert(ranged.low_frequency() == low);
    let requested = McgControl { erefs0: true, ..ranged };
    assert(requested.low_frequency() == low);
    let target = fbe_control(control, divider);
    assert(target.low_frequency() == low);
    let reached = settled_on(mcg, target);
    assert(reached.reference_divider() == divider);
    assert(reached.mode() == Some(Mode::Fbe));
    let start = TransitionState { mcg, stage: Stage::RequestCrystal { divider } };
    if control.erefs0 {
        assert(step_of(start, settled(start)) == Outcome::Write(
            TransitionState {
                mcg: with_control(
                    MultipurposeClockGenerator { registers: settled(start), ..mcg },
                    target,
                ),
                stage: Stage::AwaitExternalReference,
            },
        ));
    } else {
        let waiting = TransitionState {
            mcg: with_control(
                MultipurposeClockGenerator { registers: settled(start), ..mcg },
                requested,
            ),
            stage: Stage::AwaitOscillator { divider },
        };
        assert(step_of(start, settled(start)) == Outcome::Write(waiting));
        assert(step_of(waiting, settled(waiting)) == Outcome::Write(
            TransitionState {
                mcg: with_control(
                    MultipurposeClockGenerator { registers: settled(waiting), ..mcg },
                    target,
                ),
                stage: Stage::AwaitExternalReference,
            },
        ));
    }
}

/// Against hardware that follows, the transition from FBE ends in PBE within three steps,
/// with the PLL set to put out exactly `frequency` MHz.
///
/// This holds when `frequency` and the crystal frequency are at most 255 MHz and the
/// solver finds divide factors for their ratio.
pub proof fn lemma_fbe_reaches_pbe(mcg: MultipurposeClockGenerator, frequency: u32)
    requires
        mcg.wf(),
        mcg.mode() == Some(Mode::Fbe),
        frequency <= u8::MAX,
        mcg.external_crystal_frequency <= u8::MAX,
        solved_pll_divider(frequency as nat, mcg.external_crystal_frequency as nat) is Some,
    ensures
        ({
            let (n, d) = solved_pll_divider(
                frequency as nat,
                mcg.external_crystal_frequency as nat,
            )->0;
            let reached = settled_on(mcg, pbe_control(mcg.registers.control, n, d));
            &&& run_settled(TransitionState { mcg, stage: Stage::ProgramPll { frequency } }, 3)
                == Outcome::Done(reached, Mode::Pbe)
            &&& reached.wf()
            &&& reached.pll_frequency() == frequency
        }),
{
    reveal_with_fuel(run_settled, 4);
    lemma_solution_keeps_ratio(frequency as u8, mcg.external_crystal_frequency as u8);
    let (n, d) = solved_pll_divider(frequency as nat, mcg.external_crystal_frequency as nat)->0;
    let target = pbe_control(mcg.registers.control, n, d);
    let reached = settled_on(mcg, target);
    assert(reached.pll_divider() == (n, d));
    assert(reached.mode() == Some(Mode::Pbe));
    let start = TransitionState { mcg, stage: Stage::ProgramPll { frequency } };
    assert(step_of(start, settled(start)) == Outcome::Write(
        TransitionState {
            mcg: with_control(
                MultipurposeClockGenerator { registers: settled(start), ..mcg },
                target,
            ),
            stage: Stage::AwaitPllSelected,
        },
    ));
}

/// Against hardware that follows, the transition from PBE ends in PEE within two steps.
pub proof fn lemma_pbe_reaches_pee(mcg: MultipurposeClockGenerator)
    requires
        mcg.wf(),
        mcg.mode() == Some(Mode::Pbe),
    ensures
        run_settled(TransitionState { mcg, stage: Stage::SelectPll }, 2) == Outcome::Done(
            settled_on(
                mcg,
                McgControl { clks: ClockSource::LockedLoop, ..mcg.registers.control },
            ),
            Mode::Pee,
        ),
{
    reveal_with_fuel(run_settled, 3);
}

/// Against hardware that follows, the three transitions in a row take a generator from
/// FEI to PEE, with the PLL set to put out exactly `frequency` MHz.
///
/// This holds under the conditions of the single transitions: low power is off,
/// `divider` is a reference divider of the crystal class and brings the crystal frequency
/// into the FLL reference range, both frequencies are at most 255 MHz, and the solver
/// finds divide factors for their ratio.
pub proof fn lemma_bring_up_reaches_pee(
    mcg: MultipurposeClockGenerator,
    divider: u16,
    frequency: u32,
)
    requires
        mcg.wf(),
        mcg.mode() == Some(Mode::Fei),
        !mcg.registers.control.lp,
        is_reference_divider(divider as int, mcg.registers.control.oscsel),
        fll_range_ok(mcg.external_crystal_frequency as int, divider as int),
        frequency <= u8::MAX,
        mcg.external_crystal_frequency <= u8::MAX,
        solved_pll_divider(frequency as nat, mcg.external_crystal_frequency as nat) is Some,
    ensures
        ({
            let fbe = settled_on(mcg, fbe_control(mcg.registers.control, divider));
            let (n, d) = solved_pll_divider(
                frequency as nat,
                mcg.external_crystal_frequency as nat,
            )->0;
            let pbe = settled_on(mcg, pbe_control(fbe.registers.control, n, d));
            let pee = settled_on(
                mcg,
                McgControl { clks: ClockSource::LockedLoop, ..pbe.registers.control },
            );
            &&& run_settled(TransitionState { mcg, stage: Stage::RequestCrystal { divider } }, 4)
                == Outcome::Done(fbe, Mode::Fbe)
            &&& run_settled(TransitionState { mcg: fbe, stage: Stage::ProgramPll { frequency } }, 3)
                == Outcome::Done(pbe, Mode::Pbe)
            &&& run_settled(TransitionState { mcg: pbe, stage: Stage::SelectPll }, 2)
                == Outcome::Done(pee, Mode::Pee)
            &&& pee.mode() == Some(Mode::Pee)
            &&& pee.pll_frequency() == frequency
        }),
{
    lemma_fei_reaches_fbe(mcg, divider);
    let fbe = settled_on(mcg, fbe_control(mcg.registers.control, divider));
    assert(fbe.mode() == Some(Mode::Fbe)) by {
        reveal_with_fuel(run_settled, 5);
    }
    lemma_fbe_reaches_pbe(fbe, frequency);
    let (n, d) = solved_pll_divider(frequency as nat, mcg.external_crystal_frequency as nat)->0;
    let pbe = settled_on(mcg, pbe_control(fbe.registers.control, n, d));
    assert(pbe.mode() == Some(Mode::Pbe)) by {
        reveal_with_fuel(run_settled, 4);
    }
    lemma_pbe_reaches_pee(pbe);
    let pee = settled_on(
        mcg,
        McgControl { clks: ClockSource::LockedLoop, ..pbe.registers.control },
    );
    assert(pee.pll_divider() == pbe.pll_divider());
}

} // verus!
