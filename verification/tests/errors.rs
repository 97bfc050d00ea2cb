use sig_extractor::error::{
    ErrorClass, ExtractError, GroupIndex, GroupName, InputFault, PatternId,
};

#[test]
fn message_of_a_missing_pattern() {
    let e = ExtractError::NoMatch { pattern: PatternId::Helper };
    assert_eq!(e.message(), "No captures found for input 'body' using regex 'HELPER_REGEXP'");
    let e = ExtractError::NoMatch { pattern: PatternId::NewTceGlobalVars };
    assert_eq!(
        e.message(),
        "No captures found for input 'body' using regex 'NEW_TCE_GLOBAL_VARS_REGEXP'"
    );
}

#[test]
fn message_of_an_unrecognised_helper_names_the_action_body() {
    let e = ExtractError::NoMatch { pattern: PatternId::PatternSet };
    assert_eq!(
        e.message(),
        "No captures found for input 'action_body' using regex 'PATTERN_REGEX_SET'"
    );
}

#[test]
fn message_of_a_pattern_that_does_not_compile() {
    let e = ExtractError::PatternCompileError { pattern: PatternId::TceSignFunction };
    assert_eq!(e.message(), "Invalid regex for 'TCE_SIGN_FUNCTION_REGEXP'");
    let e = ExtractError::PatternCompileError { pattern: PatternId::CleanedFunction };
    assert_eq!(e.message(), "Invalid regex for 'CLEANED_FUNCTION_REGEXP'");
}

#[test]
fn message_of_an_engine_that_gave_up() {
    let e = ExtractError::EngineBacktrackFailure { pattern: PatternId::Decipher };
    assert_eq!(e.message(), "Backtrace failed for input 'body' using regex 'DECIPHER_REGEXP'");
}

#[test]
fn message_of_a_missing_group_counts_in_words() {
    let e = ExtractError::MissingCapture { pattern: PatternId::TceSignFunction, group: GroupIndex::First };
    assert_eq!(
        e.message(),
        "No first capture group found for input 'body' using regex 'TCE_SIGN_FUNCTION_REGEXP'"
    );
    let e = ExtractError::MissingCapture { pattern: PatternId::ForParamMatching, group: GroupIndex::Second };
    assert_eq!(
        e.message(),
        "No second capture group found for input 'n_function' using regex 'FOR_PARAM_MATCHING'"
    );
    let e = ExtractError::MissingCapture { pattern: PatternId::Helper, group: GroupIndex::Third };
    assert_eq!(
        e.message(),
        "No third capture group found for input 'body' using regex 'HELPER_REGEXP'"
    );
    let e = ExtractError::MissingCapture { pattern: PatternId::ShortCircuit, group: GroupIndex::First };
    assert_eq!(
        e.message(),
        "No first capture group found for input 'n_function' using regex 'short_circuit_pattern'"
    );
}

#[test]
fn message_of_a_missing_named_group() {
    let e = ExtractError::MissingNamedGroup {
        pattern: PatternId::NewTceGlobalVars,
        group: GroupName::Code,
    };
    assert_eq!(
        e.message(),
        "No capture group named 'code' found for input 'body' using regex 'NEW_TCE_GLOBAL_VARS_REGEXP'"
    );
    let e = ExtractError::MissingNamedGroup {
        pattern: PatternId::NewTceGlobalVars,
        group: GroupName::Varname,
    };
    assert_eq!(
        e.message(),
        "No capture group named 'varname' found for input 'body' using regex 'NEW_TCE_GLOBAL_VARS_REGEXP'"
    );
}

#[test]
fn message_of_an_unusable_input() {
    let e = ExtractError::InvalidInput { fault: InputFault::Null };
    assert_eq!(e.message(), "Input is null");
    let e = ExtractError::InvalidInput { fault: InputFault::Encoding };
    assert_eq!(e.message(), "Invalid Input string");
}

#[test]
fn every_failure_has_its_class() {
    assert_eq!(
        ExtractError::InvalidInput { fault: InputFault::Null }.class(),
        ErrorClass::InvalidInput
    );
    assert_eq!(
        ExtractError::PatternCompileError { pattern: PatternId::Helper }.class(),
        ErrorClass::Internal
    );
    assert_eq!(
        ExtractError::EngineBacktrackFailure { pattern: PatternId::Helper }.class(),
        ErrorClass::Engine
    );
    assert_eq!(ExtractError::NoMatch { pattern: PatternId::Helper }.class(), ErrorClass::NotFound);
    assert_eq!(
        ExtractError::MissingCapture { pattern: PatternId::Helper, group: GroupIndex::Third }.class(),
        ErrorClass::Malformed
    );
    assert_eq!(
        ExtractError::MissingNamedGroup { pattern: PatternId::Helper, group: GroupName::Code }
            .class(),
        ErrorClass::Malformed
    );
}

#[test]
fn pattern_names_and_inputs() {
    assert_eq!(PatternId::FunctionTce.name(), "FUNCTION_TCE_REGEXP");
    assert_eq!(PatternId::TceGlobalVars.name(), "TCE_GLOBAL_VARS_REGEXP");
    assert_eq!(PatternId::TceNFunction.name(), "TCE_N_FUNCTION_REGEXP");
    assert_eq!(PatternId::NTransform.name(), "N_TRANSFORM_REGEXP");
    assert_eq!(PatternId::NTransformTce.name(), "N_TRANSFORM_TCE_REGEXP");
    assert_eq!(PatternId::TceSignFunctionAction.name(), "TCE_SIGN_FUNCTION_ACTION_REGEXP");
    assert_eq!(PatternId::PatternSet.input(), "action_body");
    assert_eq!(PatternId::CleanedFunction.input(), "n_function");
    assert_eq!(PatternId::TceNFunction.input(), "body");
    assert_eq!(GroupName::Code.as_str(), "code");
    assert_eq!(GroupName::Varname.as_str(), "varname");
}

#[test]
fn groups_are_counted_from_the_whole_match() {
    assert_eq!(GroupIndex::First.index(), 0);
    assert_eq!(GroupIndex::Second.index(), 1);
    assert_eq!(GroupIndex::Third.index(), 2);
    assert_eq!(GroupIndex::First.ordinal(), "first");
    assert_eq!(GroupIndex::Second.ordinal(), "second");
    assert_eq!(GroupIndex::Third.ordinal(), "third");
}
