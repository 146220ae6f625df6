use vstd::prelude::*;

verus! {

/// What one logging call asks of the sinks: the formatted line, and which of
/// the two sinks takes it. Neither, one or both may be asked.
pub struct Emission {
    /// The formatted line, without a line end.
    pub line: String,
    /// The path of the file whose whole contents become `line`, where the file
    /// sink takes the line.
    pub file: Option<String>,
    /// Whether the console takes the line.
    pub console: bool,
}

/// What an emission holds, as mathematical values.
pub struct EmissionView {
    pub line: Seq<char>,
    pub file: Option<Seq<char>>,
    pub console: bool,
}

impl View for Emission {
    type V = EmissionView;

    open spec fn view(&self) -> EmissionView {
        EmissionView {
            line: self.line@,
            file: match self.file {
                Some(path) => Some(path@),
                None => None,
            },
            console: self.console,
        }
    }
}

/// What a logging call handed back, as mathematical values.
pub open spec fn emitted(out: Option<Emission>) -> Option<EmissionView> {
    match out {
        Some(emission) => Some(emission@),
        None => None,
    }
}

} // verus!
