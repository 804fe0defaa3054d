use vstd::prelude::*;
use vstd::string::StringExecFns;

use crate::pattern::{glob_matches, GlobPattern};

verus! {

/// A connected display output as reported by the output-enumeration source.
#[derive(Debug, Clone)]
pub struct OutputInfo {
    pub name: String,
    pub make: Option<String>,
    pub model: Option<String>,
    pub serial: Option<String>,
}

/// The descriptive identity of an output: "make model serial" when all three
/// are known and the serial is not empty, "make model" when only those two
/// are known, and nothing otherwise.
pub open spec fn identifier_of(o: OutputInfo) -> Option<Seq<char>> {
    match (o.make, o.model, o.serial) {
        (Some(make), Some(model), Some(serial)) if serial@.len() > 0 => Some(
            make@ + " "@ + model@ + " "@ + serial@,
        ),
        (Some(make), Some(model), _) => Some(make@ + " "@ + model@),
        _ => None,
    }
}

/// Whether a pattern selects output `o`: it matches the output's name, its
/// descriptive identity, or its serial number.
pub open spec fn output_matches(o: OutputInfo, pattern: Seq<char>) -> bool {
    ||| glob_matches(pattern, o.name@)
    ||| (identifier_of(o) matches Some(id) && glob_matches(pattern, id))
    ||| (o.serial matches Some(serial) && glob_matches(pattern, serial@))
}

/// The one-line description of an output: "name (identity)", with
/// "unknown" standing for a missing identity.
pub open spec fn display_of(o: OutputInfo) -> Seq<char> {
    let id = match identifier_of(o) {
        Some(id) => id,
        None => "unknown"@,
    };
    o.name@ + " ("@ + id + ")"@
}

impl OutputInfo {
    pub fn build_identifier(&self) -> (r: Option<String>)
        ensures
            match r {
                Some(s) => identifier_of(*self) == Some(s@),
                None => identifier_of(*self) is None,
            },
    {
        match (&self.make, &self.model) {
            (Some(make), Some(model)) => {
                let mut id = make.clone();
                id.append(" ");
                id.append(model.as_str());
                match &self.serial {
                    Some(serial) => {
                        if !serial.as_str().is_empty() {
                            id.append(" ");
                            id.append(serial.as_str());
                        }
                    },
                    None => {},
                }
                Some(id)
            },
            _ => None,
        }
    }

    pub fn matches_pattern(&self, pattern: &GlobPattern) -> (r: bool)
        ensures
            r == output_matches(*self, pattern@),
    {
        if pattern.matches(self.name.as_str()) {
            return true;
        }
        let id_matches = match self.build_identifier() {
            Some(id) => pattern.matches(id.as_str()),
            None => false,
        };
        if id_matches {
            return true;
        }
        match &self.serial {
            Some(serial) => pattern.matches(serial.as_str()),
            None => false,
        }
    }

    /// The one-line description used in status reports and logs.
    pub fn to_string(&self) -> (r: String)
        ensures
            r@ == display_of(*self),
    {
        let mut line = self.name.clone();
        line.append(" (");
        match self.build_identifier() {
            Some(id) => line.append(id.as_str()),
            None => line.append("unknown"),
        }
        line.append(")");
        line
    }
}

} // verus!
