//! Typed failures of the extraction pipeline and their diagnostic texts.

use vstd::prelude::*;
use vstd::string::StringExecFns;

verus! {

/// The patterns a detection stage can be governed by.
#[derive(Clone, Copy, Debug, PartialEq, Eq, Structural)]
pub enum PatternId {
    NewTceGlobalVars,
    TceSignFunction,
    TceSignFunctionAction,
    Helper,
    PatternSet,
    Decipher,
    FunctionTce,
    TceGlobalVars,
    TceNFunction,
    ShortCircuit,
    NTransform,
    NTransformTce,
    ForParamMatching,
    CleanedFunction,
}

/// The capture groups that are looked up by name.
#[derive(Clone, Copy, Debug, PartialEq, Eq, Structural)]
pub enum GroupName {
    Code,
    Varname,
}

/// The capture groups that are looked up by position: the whole match and the first two
/// groups behind it.
#[derive(Clone, Copy, Debug, PartialEq, Eq, Structural)]
pub enum GroupIndex {
    First,
    Second,
    Third,
}

/// Why the input text itself was unusable.
#[derive(Clone, Copy, Debug, PartialEq, Eq, Structural)]
pub enum InputFault {
    Null,
    Encoding,
}

/// The classes of failure that a caller may want to tell apart.
#[derive(Clone, Copy, Debug, PartialEq, Eq, Structural)]
pub enum ErrorClass {
    InvalidInput,
    Internal,
    Engine,
    NotFound,
    Malformed,
}

/// A failure of one detection stage.
#[derive(Clone, Copy, Debug, PartialEq, Eq, Structural)]
pub enum ExtractError {
    /// The input was absent or not valid UTF-8.
    InvalidInput { fault: InputFault },
    /// A catalog pattern did not compile.
    PatternCompileError { pattern: PatternId },
    /// The backtracking matcher gave up on the input.
    EngineBacktrackFailure { pattern: PatternId },
    /// A required pattern is absent from the input.
    NoMatch { pattern: PatternId },
    /// The pattern matched but the group at this position did not take part.
    MissingCapture { pattern: PatternId, group: GroupIndex },
    /// The pattern matched but the group with this name did not take part.
    MissingNamedGroup { pattern: PatternId, group: GroupName },
}

impl PatternId {
    /// The catalog name of the pattern, as diagnostics print it.
    pub open spec fn name_text(self) -> Seq<char> {
        match self {
            PatternId::NewTceGlobalVars => "NEW_TCE_GLOBAL_VARS_REGEXP"@,
            PatternId::TceSignFunction => "TCE_SIGN_FUNCTION_REGEXP"@,
            PatternId::TceSignFunctionAction => "TCE_SIGN_FUNCTION_ACTION_REGEXP"@,
            PatternId::Helper => "HELPER_REGEXP"@,
            PatternId::PatternSet => "PATTERN_REGEX_SET"@,
            PatternId::Decipher => "DECIPHER_REGEXP"@,
            PatternId::FunctionTce => "FUNCTION_TCE_REGEXP"@,
            PatternId::TceGlobalVars => "TCE_GLOBAL_VARS_REGEXP"@,
            PatternId::TceNFunction => "TCE_N_FUNCTION_REGEXP"@,
            PatternId::ShortCircuit => "short_circuit_pattern"@,
            PatternId::NTransform => "N_TRANSFORM_REGEXP"@,
            PatternId::NTransformTce => "N_TRANSFORM_TCE_REGEXP"@,
            PatternId::ForParamMatching => "FOR_PARAM_MATCHING"@,
            PatternId::CleanedFunction => "CLEANED_FUNCTION_REGEXP"@,
        }
    }

    /// The text that the pattern is applied to, as diagnostics name it.
    pub open spec fn input_text(self) -> Seq<char> {
        match self {
            PatternId::PatternSet => "action_body"@,
            PatternId::ShortCircuit => "n_function"@,
            PatternId::ForParamMatching => "n_function"@,
            PatternId::CleanedFunction => "n_function"@,
            _ => "body"@,
        }
    }

    pub fn name(self) -> (r: &'static str)
        ensures
            r@ == self.name_text(),
    {
        match self {
            PatternId::NewTceGlobalVars => "NEW_TCE_GLOBAL_VARS_REGEXP",
            PatternId::TceSignFunction => "TCE_SIGN_FUNCTION_REGEXP",
            PatternId::TceSignFunctionAction => "TCE_SIGN_FUNCTION_ACTION_REGEXP",
            PatternId::Helper => "HELPER_REGEXP",
            PatternId::PatternSet => "PATTERN_REGEX_SET",
            PatternId::Decipher => "DECIPHER_REGEXP",
            PatternId::FunctionTce => "FUNCTION_TCE_REGEXP",
            PatternId::TceGlobalVars => "TCE_GLOBAL_VARS_REGEXP",
            PatternId::TceNFunction => "TCE_N_FUNCTION_REGEXP",
            PatternId::ShortCircuit => "short_circuit_pattern",
            PatternId::NTransform => "N_TRANSFORM_REGEXP",
            PatternId::NTransformTce => "N_TRANSFORM_TCE_REGEXP",
            PatternId::ForParamMatching => "FOR_PARAM_MATCHING",
            PatternId::CleanedFunction => "CLEANED_FUNCTION_REGEXP",
        }
    }

    pub fn input(self) -> (r: &'static str)
        ensures
            r@ == self.input_text(),
    {
        match self {
            PatternId::PatternSet => "action_body",
            PatternId::ShortCircuit => "n_function",
            PatternId::ForParamMatching => "n_function",
            PatternId::CleanedFunction => "n_function",
            _ => "body",
        }
    }
}

impl GroupName {
    /// The name as it is written in the pattern.
    pub open spec fn text(self) -> Seq<char> {
        match self {
            GroupName::Code => "code"@,
            GroupName::Varname => "varname"@,
        }
    }

    pub fn as_str(self) -> (r: &'static str)
        ensures
            r@ == self.text(),
    {
        match self {
            GroupName::Code => "code",
            GroupName::Varname => "varname",
        }
    }
}

impl GroupIndex {
    /// The position of the group in a match, counted from 0.
    pub open spec fn position(self) -> int {
        match self {
            GroupIndex::First => 0,
            GroupIndex::Second => 1,
            GroupIndex::Third => 2,
        }
    }

    /// How diagnostics count the group.
    pub open spec fn ordinal_text(self) -> Seq<char> {
        match self {
            GroupIndex::First => "first"@,
            GroupIndex::Second => "second"@,
            GroupIndex::Third => "third"@,
        }
    }

    pub fn index(self) -> (r: usize)
        ensures
            r == self.position(),
    {
        match self {
            GroupIndex::First => 0,
            GroupIndex::Second => 1,
            GroupIndex::Third => 2,
        }
    }

    pub fn ordinal(self) -> (r: &'static str)
        ensures
            r@ == self.ordinal_text(),
    {
        match self {
            GroupIndex::First => "first",
            GroupIndex::Second => "second",
            GroupIndex::Third => "third",
        }
    }
}

/// `"<lead>'<input>' using regex '<pattern>'"`: the tail that the messages about a search share.
pub open spec fn search_tail_text(lead: Seq<char>, pattern: PatternId) -> Seq<char> {
    lead + pattern.input_text() + "' using regex '"@ + pattern.name_text() + "'"@
}

fn search_tail(lead: &str, pattern: PatternId) -> (r: String)
    ensures
        r@ == search_tail_text(lead@, pattern),
{
    let mut message = String::from_str(lead);
    message.append(pattern.input());
    message.append("' using regex '");
    message.append(pattern.name());
    message.append("'");
    message
}

impl ExtractError {
    /// The class of the failure.
    pub open spec fn class_of(self) -> ErrorClass {
        match self {
            ExtractError::InvalidInput { .. } => ErrorClass::InvalidInput,
            ExtractError::PatternCompileError { .. } => ErrorClass::Internal,
            ExtractError::EngineBacktrackFailure { .. } => ErrorClass::Engine,
            ExtractError::NoMatch { .. } => ErrorClass::NotFound,
            ExtractError::MissingCapture { .. } => ErrorClass::Malformed,
            ExtractError::MissingNamedGroup { .. } => ErrorClass::Malformed,
        }
    }

    pub fn class(self) -> (r: ErrorClass)
        ensures
            r == self.class_of(),
    {
        match self {
            ExtractError::InvalidInput { .. } => ErrorClass::InvalidInput,
            ExtractError::PatternCompileError { .. } => ErrorClass::Internal,
            ExtractError::EngineBacktrackFailure { .. } => ErrorClass::Engine,
            ExtractError::NoMatch { .. } => ErrorClass::NotFound,
            ExtractError::MissingCapture { .. } => ErrorClass::Malformed,
            ExtractError::MissingNamedGroup { .. } => ErrorClass::Malformed,
        }
    }

    /// The diagnostic that a caller is shown for the failure.
    pub open spec fn message_text(self) -> Seq<char> {
        match self {
            ExtractError::InvalidInput { fault: InputFault::Null } => "Input is null"@,
            ExtractError::InvalidInput { fault: InputFault::Encoding } => "Invalid Input string"@,
            ExtractError::PatternCompileError { pattern } => "Invalid regex for '"@ + pattern.name_text()
                + "'"@,
            ExtractError::EngineBacktrackFailure { pattern } => search_tail_text(
                "Backtrace failed for input '"@,
                pattern,
            ),
            ExtractError::NoMatch { pattern } => search_tail_text(
                "No captures found for input '"@,
                pattern,
            ),
            ExtractError::MissingCapture { pattern, group } => search_tail_text(
                "No "@ + group.ordinal_text() + " capture group found for input '"@,
                pattern,
            ),
            ExtractError::MissingNamedGroup { pattern, group } => search_tail_text(
                "No capture group named '"@ + group.text() + "' found for input '"@,
                pattern,
            ),
        }
    }

    pub fn message(self) -> (r: String)
        ensures
            r@ == self.message_text(),
    {
        match self {
            ExtractError::InvalidInput { fault: InputFault::Null } => String::from_str(
                "Input is null",
            ),
            ExtractError::InvalidInput { fault: InputFault::Encoding } => String::from_str(
                "Invalid Input string",
            ),
            ExtractError::PatternCompileError { pattern } => {
                let mut message = String::from_str("Invalid regex for '");
                message.append(pattern.name());
                message.append("'");
                message
            },
            ExtractError::EngineBacktrackFailure { pattern } => search_tail(
                "Backtrace failed for input '",
                pattern,
            ),
            ExtractError::NoMatch { pattern } => search_tail(
                "No captures found for input '",
                pattern,
            ),
            ExtractError::MissingCapture { pattern, group } => {
                let mut lead = String::from_str("No ");
                lead.append(group.ordinal());
                lead.append(" capture group found for input '");
                search_tail(lead.as_str(), pattern)
            },
            ExtractError::MissingNamedGroup { pattern, group } => {
                let mut lead = String::from_str("No capture group named '");
                lead.append(group.as_str());
                lead.append("' found for input '");
                search_tail(lead.as_str(), pattern)
            },
        }
    }
}

} // verus!
