//! Parameter sweep experiments: which hyperparameter is swept.
//!
//! The sweep values are floating point and live with the experiment runner;
//! here are the sweep's name and the parsing of the command-line choice.
use vstd::prelude::*;

use crate::utils::text::{ascii_lowercase, is_ascii_text, lowercase, text_eq, to_lowercase};

verus! {

/// Which hyperparameter to sweep in the experiment.
#[derive(Debug, Clone, Copy, PartialEq, Eq, Structural)]
pub enum SweepParam {
    /// Sweep local_lambda [0.95, 0.96, ..., 1.00].
    Lambda,
}

/// The display name of a sweep parameter.
pub open spec fn sweep_name(p: SweepParam) -> Seq<char> {
    match p {
        SweepParam::Lambda => "lambda"@,
    }
}

/// The error for an unknown sweep parameter name `name` (as lowercased).
pub open spec fn unknown_sweep_message(name: Seq<char>) -> Seq<char> {
    "Unknown sweep parameter '"@ + name + "'; expected 'lambda'"@
}

impl SweepParam {
    /// Returns the parameter name for display.
    pub fn name(&self) -> (r: &'static str)
        ensures
            r@ == sweep_name(*self),
    {
        proof {
            reveal_strlit("lambda");
        }
        match self {
            SweepParam::Lambda => "lambda",
        }
    }

    /// Selects the sweep parameter of an already lowercased name: `lambda`
    /// is the only one; any other name is an error naming it.
    pub fn from_lowercase_name(name: &str) -> (r: Result<SweepParam, String>)
        ensures
            (r is Ok) == (name@ == "lambda"@),
            r matches Ok(p) ==> p == SweepParam::Lambda,
            r matches Err(e) ==> e@ == unknown_sweep_message(name@),
    {
        proof {
            reveal_strlit("lambda");
            reveal_strlit("Unknown sweep parameter '");
            reveal_strlit("'; expected 'lambda'");
        }
        if text_eq(name, "lambda") {
            Ok(SweepParam::Lambda)
        } else {
            let mut e = String::new();
            e.append("Unknown sweep parameter '");
            e.append(name);
            e.append("'; expected 'lambda'");
            Err(e)
        }
    }

    /// Parses a sweep parameter name from the command line, ignoring case.
    pub fn from_name(name: &str) -> (r: Result<SweepParam, String>)
        ensures
            (r is Ok) == (lowercase(name@) == "lambda"@),
            r matches Ok(p) ==> p == SweepParam::Lambda,
            r matches Err(e) ==> e@ == unknown_sweep_message(lowercase(name@)),
            is_ascii_text(name@) ==> ((r is Ok) == (ascii_lowercase(name@) == "lambda"@)),
    {
        let lower = to_lowercase(name);
        Self::from_lowercase_name(lower.as_str())
    }
}

} // verus!
