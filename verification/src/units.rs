//! The classes of diagnostic output that the engine can redirect, and the
//! names it knows them by.

use vstd::prelude::*;
use vstd::string::StringExecFns;

verus! {

/// The sink that standard output has in the engine's numbering.
pub const DEFAULT_SINK: i32 = 6;

/// A class of the engine's diagnostic output.
#[derive(Clone, Copy, Debug, PartialEq, Eq, Structural)]
pub enum OLOUnit {
    PrintAll,
    Message,
    Warning,
    Error,
}

/// Why a configuration request was refused before it reached the engine.
#[derive(Clone, Copy, Debug, PartialEq, Eq, Structural)]
pub enum ConfigError {
    /// The name given is that of no output class.
    InvalidUnit,
}

impl ConfigError {
    /// The text that goes with the error.
    pub fn message(self) -> (s: &'static str)
        ensures
            s@ == "Invalid OLOUnit"@,
    {
        "Invalid OLOUnit"
    }
}

impl OLOUnit {
    /// The name by which the engine knows the class.
    pub open spec fn spec_name(self) -> Seq<char> {
        match self {
            OLOUnit::PrintAll => "printall"@,
            OLOUnit::Message => "message"@,
            OLOUnit::Warning => "warning"@,
            OLOUnit::Error => "error"@,
        }
    }

    /// The class that a lower-case name stands for, if any.
    pub open spec fn named(lower: Seq<char>) -> Option<OLOUnit> {
        if lower == "printall"@ {
            Some(OLOUnit::PrintAll)
        } else if lower == "message"@ {
            Some(OLOUnit::Message)
        } else if lower == "warning"@ {
            Some(OLOUnit::Warning)
        } else if lower == "error"@ {
            Some(OLOUnit::Error)
        } else {
            None
        }
    }

    /// What [`OLOUnit::from_name`] answers to a name whose lower-case form is
    /// `lower`.
    pub open spec fn parsed(lower: Seq<char>) -> Result<OLOUnit, ConfigError> {
        match OLOUnit::named(lower) {
            Some(unit) => Ok(unit),
            None => Err(ConfigError::InvalidUnit),
        }
    }

    /// The name by which the engine knows the class.
    pub fn name(self) -> (s: &'static str)
        ensures
            s@ == self.spec_name(),
    {
        match self {
            OLOUnit::PrintAll => "printall",
            OLOUnit::Message => "message",
            OLOUnit::Warning => "warning",
            OLOUnit::Error => "error",
        }
    }

    /// The class with the given name, which must already be in lower case.
    /// Any other text is refused.
    pub fn from_lowercase(lower: &str) -> (r: Result<OLOUnit, ConfigError>)
        ensures
            r == OLOUnit::parsed(lower@),
    {
        let given = String::from_str(lower);
        if given == String::from_str("printall") {
            Ok(OLOUnit::PrintAll)
        } else if given == String::from_str("message") {
            Ok(OLOUnit::Message)
        } else if given == String::from_str("warning") {
            Ok(OLOUnit::Warning)
        } else if given == String::from_str("error") {
            Ok(OLOUnit::Error)
        } else {
            Err(ConfigError::InvalidUnit)
        }
    }

    /// The class with the given name, in any mix of upper and lower case.
    /// The name is brought to lower case first; what does not then spell one
    /// of the four names is refused.
    pub fn from_name(unit_name: &str) -> (r: Result<OLOUnit, ConfigError>)
        ensures
            r == OLOUnit::parsed(lowercase_of(unit_name@)),
    {
        let lower = unit_name.to_lowercase();
        OLOUnit::from_lowercase(lower.as_str())
    }
}

/// The lower-case form of a text, as `str::to_lowercase` gives it.
pub uninterp spec fn lowercase_of(s: Seq<char>) -> Seq<char>;

/// `str::to_lowercase` of the standard library: the result is the lower-case
/// form of the argument by Unicode's rules, which depends on the text alone.
/// Named, not spelled out here.
pub assume_specification[ str::to_lowercase ](s: &str) -> (r: String)
    ensures
        r@ == lowercase_of(s@),
;

/// Every class is found again under its own name.
pub proof fn lemma_name_round_trip(unit: OLOUnit)
    ensures
        OLOUnit::named(unit.spec_name()) == Some(unit),
        OLOUnit::parsed(unit.spec_name()) == Ok::<OLOUnit, ConfigError>(unit),
{
    reveal_strlit("printall");
    reveal_strlit("message");
    reveal_strlit("warning");
    reveal_strlit("error");
    assert("printall"@.len() == 8);
    assert("message"@.len() == 7);
    assert("warning"@.len() == 7);
    assert("error"@.len() == 5);
    assert("message"@[0] == 'm');
    assert("warning"@[0] == 'w');
}

} // verus!
