//! The engine's process-wide settings, as this layer has set them.
//!
//! The engine keeps a renormalization scale, an on-shell threshold and one
//! sink for each class of diagnostic output. They are shared by every
//! evaluation, are no parameter of any, and stay as they are until they are
//! set again. No value is refused here: the engine takes a scale that is not
//! positive, or a negative threshold, untested.

use vstd::prelude::*;
use crate::call::EngineCall;
use crate::double::Double;
use crate::units::{lowercase_of, ConfigError, OLOUnit, DEFAULT_SINK};

verus! {

/// What has been set so far. A setting that was never set is absent: the
/// engine then goes by a default of its own.
pub struct Settings {
    /// The renormalization scale.
    pub scale: Option<Double>,
    /// The threshold under which an invariant counts as on shell.
    pub threshold: Option<Double>,
    /// The sink of each class of output that has been given one.
    pub sinks: Map<OLOUnit, i32>,
}

impl Settings {
    /// Nothing has been set.
    pub open spec fn untouched() -> Settings {
        Settings { scale: None, threshold: None, sinks: Map::empty() }
    }

    /// The settings once the engine has taken `call`.
    pub open spec fn after(self, call: EngineCall) -> Settings {
        match call {
            EngineCall::SetScale { mu } => Settings { scale: Some(mu), ..self },
            EngineCall::SetOnshell { threshold } => Settings { threshold: Some(threshold), ..self },
            EngineCall::SetUnit { unit, sink } => Settings {
                sinks: self.sinks.insert(unit, sink),
                ..self
            },
            _ => self,
        }
    }

    /// The settings once the engine has taken `calls`, first to last.
    pub open spec fn after_all(self, calls: Seq<EngineCall>) -> Settings
        decreases calls.len(),
    {
        if calls.len() == 0 {
            self
        } else {
            self.after_all(calls.drop_last()).after(calls.last())
        }
    }

    /// The sink that a class of output has been given, if any.
    pub open spec fn sink(self, unit: OLOUnit) -> Option<i32> {
        if self.sinks.contains_key(unit) {
            Some(self.sinks[unit])
        } else {
            None
        }
    }
}

/// A record of the engine's settings, kept beside the engine by whoever owns
/// it.
#[derive(Clone, Copy, Debug)]
pub struct EngineConfiguration {
    scale: Option<Double>,
    threshold: Option<Double>,
    print_all: Option<i32>,
    message: Option<i32>,
    warning: Option<i32>,
    error: Option<i32>,
}

impl View for EngineConfiguration {
    type V = Settings;

    closed spec fn view(&self) -> Settings {
        Settings {
            scale: self.scale,
            threshold: self.threshold,
            sinks: Map::new(
                |unit: OLOUnit| self.slot(unit) is Some,
                |unit: OLOUnit| self.slot(unit)->0,
            ),
        }
    }
}

impl EngineConfiguration {
    spec fn slot(self, unit: OLOUnit) -> Option<i32> {
        match unit {
            OLOUnit::PrintAll => self.print_all,
            OLOUnit::Message => self.message,
            OLOUnit::Warning => self.warning,
            OLOUnit::Error => self.error,
        }
    }

    /// The record of an engine that has not been configured yet.
    pub fn new() -> (config: EngineConfiguration)
        ensures
            config@ == Settings::untouched(),
    {
        let config = EngineConfiguration {
            scale: None,
            threshold: None,
            print_all: None,
            message: None,
            warning: None,
            error: None,
        };
        assert(config@.sinks =~= Map::empty());
        config
    }

    /// The renormalization scale, if one has been set.
    pub fn scale(&self) -> (mu: Option<Double>)
        ensures
            mu == self@.scale,
    {
        self.scale
    }

    /// The on-shell threshold, if one has been set.
    pub fn threshold(&self) -> (threshold: Option<Double>)
        ensures
            threshold == self@.threshold,
    {
        self.threshold
    }

    /// The sink that a class of output has been given, if any.
    pub fn sink(&self, unit: OLOUnit) -> (sink: Option<i32>)
        ensures
            sink == self@.sink(unit),
    {
        match unit {
            OLOUnit::PrintAll => self.print_all,
            OLOUnit::Message => self.message,
            OLOUnit::Warning => self.warning,
            OLOUnit::Error => self.error,
        }
    }

    /// Takes note that the engine has taken `call`.
    pub fn record(&mut self, call: &EngineCall)
        ensures
            final(self)@ == old(self)@.after(*call),
    {
        match *call {
            EngineCall::SetScale { mu } => {
                self.scale = Some(mu);
            },
            EngineCall::SetOnshell { threshold } => {
                self.threshold = Some(threshold);
            },
            EngineCall::SetUnit { unit, sink } => {
                match unit {
                    OLOUnit::PrintAll => {
                        self.print_all = Some(sink);
                    },
                    OLOUnit::Message => {
                        self.message = Some(sink);
                    },
                    OLOUnit::Warning => {
                        self.warning = Some(sink);
                    },
                    OLOUnit::Error => {
                        self.error = Some(sink);
                    },
                }
            },
            _ => {},
        }
        assert(self@.sinks =~= old(self)@.after(*call).sinks);
    }
}

/// Sets the renormalization scale: notes it in `config` and gives the call
/// that tells the engine. The scale holds for every evaluation that follows,
/// until it is set again.
pub fn set_renormalization_scale(config: &mut EngineConfiguration, mu: Double) -> (call:
    EngineCall)
    ensures
        call == (EngineCall::SetScale { mu }),
        final(config)@ == old(config)@.after(call),
        final(config)@.scale == Some(mu),
        final(config)@.threshold == old(config)@.threshold,
        final(config)@.sinks == old(config)@.sinks,
{
    let call = EngineCall::SetScale { mu };
    config.record(&call);
    call
}

/// Sets the threshold under which the engine takes an invariant to be on
/// shell: notes it in `config` and gives the call that tells the engine.
pub fn set_onshell_threshold(config: &mut EngineConfiguration, threshold: Double) -> (call:
    EngineCall)
    ensures
        call == (EngineCall::SetOnshell { threshold }),
        final(config)@ == old(config)@.after(call),
        final(config)@.threshold == Some(threshold),
        final(config)@.scale == old(config)@.scale,
        final(config)@.sinks == old(config)@.sinks,
{
    let call = EngineCall::SetOnshell { threshold };
    config.record(&call);
    call
}

/// The sink that a request names: the one given, or standard output.
pub open spec fn sink_or_default(fortran_unit_number: Option<i32>) -> i32 {
    match fortran_unit_number {
        Some(sink) => sink,
        None => DEFAULT_SINK,
    }
}

/// Sends one class of the engine's diagnostic output to a sink, standard
/// output where none is given: notes it in `config` and gives the call that
/// tells the engine. No numerical result depends on it.
pub fn set_log_level(
    config: &mut EngineConfiguration,
    unit: OLOUnit,
    fortran_unit_number: Option<i32>,
) -> (call: EngineCall)
    ensures
        call == (EngineCall::SetUnit { unit, sink: sink_or_default(fortran_unit_number) }),
        final(config)@ == old(config)@.after(call),
        final(config)@.sink(unit) == Some(sink_or_default(fortran_unit_number)),
        forall|other: OLOUnit|
            other != unit ==> final(config)@.sink(other) == old(config)@.sink(other),
        final(config)@.scale == old(config)@.scale,
        final(config)@.threshold == old(config)@.threshold,
{
    let sink: i32 = match fortran_unit_number {
        Some(sink) => sink,
        None => DEFAULT_SINK,
    };
    let call = EngineCall::SetUnit { unit, sink };
    config.record(&call);
    call
}

/// Sends one class of the engine's diagnostic output to a sink, the class
/// being given by its name in any mix of upper and lower case. A name that
/// is none of the four is refused before anything is noted or any call made.
pub fn set_log_level_by_name(
    config: &mut EngineConfiguration,
    unit_name: &str,
    fortran_unit_number: Option<i32>,
) -> (r: Result<EngineCall, ConfigError>)
    ensures
        match OLOUnit::parsed(lowercase_of(unit_name@)) {
            Ok(unit) => {
                &&& r == Ok::<EngineCall, ConfigError>(
                    EngineCall::SetUnit { unit, sink: sink_or_default(fortran_unit_number) },
                )
                &&& final(config)@ == old(config)@.after(r->Ok_0)
            },
            Err(e) => r == Err::<EngineCall, ConfigError>(e) && *final(config) == *old(config),
        },
{
    match OLOUnit::from_name(unit_name) {
        Ok(unit) => Ok(set_log_level(config, unit, fortran_unit_number)),
        Err(e) => Err(e),
    }
}

/// An evaluation leaves every setting as it was.
pub proof fn lemma_evaluation_keeps_settings(settings: Settings, call: EngineCall)
    requires
        call.is_evaluation(),
    ensures
        settings.after(call) == settings,
{
}

/// However many evaluations are made in a row, the last finds the settings
/// that the first found.
pub proof fn lemma_evaluations_keep_settings(settings: Settings, calls: Seq<EngineCall>)
    requires
        forall|i: int| 0 <= i < calls.len() ==> (#[trigger] calls[i]).is_evaluation(),
    ensures
        settings.after_all(calls) == settings,
    decreases calls.len(),
{
    if calls.len() > 0 {
        lemma_evaluations_keep_settings(settings, calls.drop_last());
    }
}

/// The scale stays as it is until a call sets it again.
pub proof fn lemma_scale_persists(settings: Settings, calls: Seq<EngineCall>)
    requires
        forall|i: int| 0 <= i < calls.len() ==> !((#[trigger] calls[i]) is SetScale),
    ensures
        settings.after_all(calls).scale == settings.scale,
    decreases calls.len(),
{
    if calls.len() > 0 {
        lemma_scale_persists(settings, calls.drop_last());
    }
}

/// The threshold stays as it is until a call sets it again.
pub proof fn lemma_threshold_persists(settings: Settings, calls: Seq<EngineCall>)
    requires
        forall|i: int| 0 <= i < calls.len() ==> !((#[trigger] calls[i]) is SetOnshell),
    ensures
        settings.after_all(calls).threshold == settings.threshold,
    decreases calls.len(),
{
    if calls.len() > 0 {
        lemma_threshold_persists(settings, calls.drop_last());
    }
}

/// The sink of a class of output stays as it is until a call sets the sink
/// of that class again.
pub proof fn lemma_sink_persists(settings: Settings, unit: OLOUnit, calls: Seq<EngineCall>)
    requires
        forall|i: int|
            0 <= i < calls.len() ==> !((#[trigger] calls[i]) is SetUnit && calls[i]->unit
                == unit),
    ensures
        settings.after_all(calls).sink(unit) == settings.sink(unit),
    decreases calls.len(),
{
    if calls.len() > 0 {
        lemma_sink_persists(settings, unit, calls.drop_last());
    }
}

/// The setting made last is the one in force.
pub proof fn lemma_last_setting_holds(settings: Settings, calls: Seq<EngineCall>, call: EngineCall)
    ensures
        call matches EngineCall::SetScale { mu } ==> settings.after_all(calls.push(call)).scale
            == Some(mu),
        call matches EngineCall::SetOnshell { threshold } ==> settings.after_all(
            calls.push(call),
        ).threshold == Some(threshold),
        call matches EngineCall::SetUnit { unit, sink } ==> settings.after_all(
            calls.push(call),
        ).sink(unit) == Some(sink),
{
    assert(calls.push(call).drop_last() =~= calls);
}

} // verus!
