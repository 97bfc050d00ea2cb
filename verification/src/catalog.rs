//! The pattern catalog: named regular-expression fragments for the JavaScript
//! idioms that the extractors look for, and the larger patterns composed from them.
//!
//! Nothing here matches anything. A pattern is text; composing is concatenation, and the
//! contract of each builder says which fragments the text is made of, in which order.

use vstd::prelude::*;
use vstd::string::StringExecFns;

verus! {

/// A JavaScript identifier.
pub const VARIABLE_PART: &'static str = "[a-zA-Z_\\$][a-zA-Z_0-9\\$]*";

/// What opens a property access: `["` or a dot.
pub const BEFORE_ACCESS: &'static str = "(?:\\[\\\"|\\.)";

/// What closes a property access: `"]` or nothing.
pub const AFTER_ACCESS: &'static str = "(?:\\\"\\]|)";

/// A method body that reverses the array in place.
pub const REVERSE_PART: &'static str = ":function\\(\\w\\)\\{(?:return )?\\w\\.reverse\\(\\)\\}";

/// A method body that returns the array from an index on.
pub const SLICE_PART: &'static str = ":function\\(\\w,\\w\\)\\{return \\w\\.slice\\(\\w\\)\\}";

/// A method body that removes a prefix of the array.
pub const SPLICE_PART: &'static str = ":function\\(\\w,\\w\\)\\{\\w\\.splice\\(0,\\w\\)\\}";

/// A method body that swaps the first element with the one at an index taken modulo the length.
pub const SWAP_PART: &'static str =
    ":function\\(\\w,\\w\\)\\{\
    var \\w=\\w\\[0\\];\\w\\[0\\]=\\w\\[\\w%\\w\\.length\\];\\w\\[\\w(?:%\\w\\.length|)\\]=\\w(?:;return \\w)?\\}";

/// A method of whatever body, with braces nested one level deep at most.
pub const METHOD_PART: &'static str =
    ":function\\([^)]*\\)\\{[^{}]*(?:\\{[^{}]*\\}[^{}]*)*\\}";

/// The decipher function in its flattened form: split, inline indexed calls, join.
pub const FUNCTION_TCE_REGEXP: &'static str =
    "function(?:\\s+[a-zA-Z_\\$][a-zA-Z0-9_\\$]*)?\\(\\w\\)\\{\
    \\w=\\w\\.split\\((?:\"\"|[a-zA-Z0-9_$]*\\[\\d+])\\);\
    \\s*((?:(?:\\w=)?[a-zA-Z_\\$][a-zA-Z0-9_\\$]*(?:\\[\\\"|\\.)[a-zA-Z_\\$][a-zA-Z0-9_\\$]*(?:\\\"\\]|)\\(\\w,\\d+\\);)+)\
    return \\w\\.join\\((?:\"\"|[a-zA-Z0-9_$]*\\[\\d+])\\)}";

/// The n-transform function with a prefixed literal as its fallback.
pub const N_TRANSFORM_REGEXP: &'static str =
    "function\\(\\s*(\\w+)\\s*\\)\\s*\\{\
    var\\s*(\\w+)=(?:\\1\\.split\\(.*?\\)|String\\.prototype\\.split\\.call\\(\\1,.*?\\)),\
    \\s*(\\w+)=(\\[.*?]);\\s*\\3\\[\\d+]\
    (.*?try)(\\{.*?})catch\\(\\s*(\\w+)\\s*\\)\\s*\\{\
    \\s*return\"[\\w-]+([A-z0-9-]+)\"\\s*\\+\\s*\\1\\s*}\
    \\s*return\\s*(\\2\\.join\\(\"\"\\)|Array\\.prototype\\.join\\.call\\(\\2,.*?\\))};";

/// The older flattened n-transform function, with the plain catch-then-join tail.
pub const N_TRANSFORM_TCE_REGEXP: &'static str =
    "function\\(\\s*(\\w+)\\s*\\)\\s*\\{\
    \\s*var\\s*(\\w+)=\\1\\.split\\(\\1\\.slice\\(0,0\\)\\),\\s*(\\w+)=\\[.*?];\
    .*?catch\\(\\s*(\\w+)\\s*\\)\\s*\\{\
    \\s*return(?:\"[^\"]+\"|\\s*[a-zA-Z_0-9$]*\\[\\d+])\\s*\\+\\s*\\1\\s*}\
    \\s*return\\s*\\2\\.join\\((?:\"\"|[a-zA-Z_0-9$]*\\[\\d+])\\)};";

/// A global `var X = "...".split("...")` or array of strings that a flattened function
/// may depend on.
pub const TCE_GLOBAL_VARS_REGEXP: &'static str =
    "(?:^|[;,])\\s*(var\\s+([\\w$]+)\\s*=\\s*\
    (?:\
    ([\"'])(?:\\\\.|[^\\\\])*?\\3\
    \\s*\\.\\s*split\\((\
    ([\"'])(?:\\\\.|[^\\\\])*?\\5\
    \\))\
    |\
    \\[\\s*(?:([\"'])(?:\\\\.|[^\\\\])*?\\6\\s*,?\\s*)+\\]\
    ))(?=\\s*[,;])";

/// The declaration of the global constant table; the groups `code` and `varname` hold
/// the statement and the name it binds.
pub const NEW_TCE_GLOBAL_VARS_REGEXP: &'static str =
    "('use\\s*strict';)?\
    (?<code>var\\s*\
    (?<varname>[a-zA-Z0-9_$]+)\\s*=\\s*\
    (?<value>\
    (?:\"[^\"\\\\]*(?:\\\\.[^\"\\\\]*)*\"|'[^'\\\\]*(?:\\\\.[^'\\\\]*)*')\
    \\.split\\(\
    (?:\"[^\"\\\\]*(?:\\\\.[^\"\\\\]*)*\"|'[^'\\\\]*(?:\\\\.[^'\\\\]*)*')\
    \\)\
    |\
    \\[\
    (?:(?:\"[^\"\\\\]*(?:\\\\.[^\"\\\\]*)*\"|'[^'\\\\]*(?:\\\\.[^'\\\\]*)*')\
    \\s*,?\\s*)*\
    \\]\
    |\
    \"[^\"]*\"\\.split\\(\"[^\"]*\"\\)\
    )\
    )";

/// The decipher function in its consolidated form, which works through the constant table.
pub const TCE_SIGN_FUNCTION_REGEXP: &'static str =
    "function\\(\\s*([a-zA-Z0-9$])\\s*\\)\\s*\\{\
    \\s*\\1\\s*=\\s*\\1\\[(\\w+)\\[\\d+\\]\\]\\(\\2\\[\\d+\\]\\);\
    ([a-zA-Z0-9$]+)\\[\\2\\[\\d+\\]\\]\\(\\s*\\1\\s*,\\s*\\d+\\s*\\);\
    \\s*\\3\\[\\2\\[\\d+\\]\\]\\(\\s*\\1\\s*,\\s*\\d+\\s*\\);\
    .*?return\\s*\\1\\[\\2\\[\\d+\\]\\]\\(\\2\\[\\d+\\]\\)\\};";

/// The object of three methods that goes with the consolidated decipher function.
pub const TCE_SIGN_FUNCTION_ACTION_REGEXP: &'static str =
    "var\\s+([$A-Za-z0-9_]+)\\s*=\\s*\\{\\s*[$A-Za-z0-9_]+\\s*:\\s*function\\s*\\([^)]*\\)\\s*\\{[^{}]*(?:\\{[^{}]*}[^{}]*)*}\\s*,\\s*[$A-Za-z0-9_]+\\s*:\\s*function\\s*\\([^)]*\\)\\s*\\{[^{}]*(?:\\{[^{}]*}[^{}]*)*}\\s*,\\s*[$A-Za-z0-9_]+\\s*:\\s*function\\s*\\([^)]*\\)\\s*\\{[^{}]*(?:\\{[^{}]*}[^{}]*)*}\\s*};";

/// The n-transform function in its flattened form, which works through the constant table.
pub const TCE_N_FUNCTION_REGEXP: &'static str =
    "function\\s*\\((\\w+)\\)\\s*\\{var\\s*\\w+\\s*=\\s*\\1\\[\\w+\\[\\d+\\]\\]\\(\\w+\\[\\d+\\]\\)\\s*,\\s*\\w+\\s*=\\s*\\[.*?\\]\\;.*?catch\\s*\\(\\s*(\\w+)\\s*\\)\\s*\\{return\\s*\\w+\\[\\d+\\]\\s*\\+\\s*\\1\\}\\s*return\\s*\\w+\\[\\w+\\[\\d+\\]\\]\\(\\w+\\[\\d+\\]\\)\\}\\s*\\;";

/// The head of a one-parameter function; group 1 is the parameter.
pub const FOR_PARAM_MATCHING: &'static str = r"function\s*\(\s*(\w+)\s*\)";

/// The name that the assembled script binds the decipher function to.
pub const DECIPHER_FUNC_NAME: &'static str = "DisTubeDecipherFunc";

/// The name that the assembled script binds the n-transform function to.
pub const N_TRANSFORM_FUNC_NAME: &'static str = "DisTubeNTransformFunc";

/// An identifier as a key in an object literal, quoted or not.
pub open spec fn variable_part_define_text() -> Seq<char> {
    "\\\"?"@ + VARIABLE_PART@ + "\\\"?"@
}

/// A property access, by bracket or by dot.
pub open spec fn variable_part_access_text() -> Seq<char> {
    BEFORE_ACCESS@ + VARIABLE_PART@ + AFTER_ACCESS@
}

/// The decipher function in its direct form: a one-letter parameter that is split, run
/// through indexed calls on the helper object, and joined.
pub open spec fn decipher_regexp_text() -> Seq<char> {
    "function(?: "@ + VARIABLE_PART@ + ")?\\(([a-zA-Z])\\)\\{"@
        + "\\1=\\1\\.split\\(\"\"\\);\\s*"@ + "((?:(?:\\1=)?"@ + VARIABLE_PART@
        + variable_part_access_text() + "\\(\\1,\\d+\\);)+)"@ + "return \\1\\.join\\(\"\"\\)"@
        + "\\}"@
}

/// One key of the helper object with the method body `part`.
pub open spec fn helper_method_text(part: Seq<char>) -> Seq<char> {
    variable_part_define_text() + part
}

/// The helper object: `var H={key:function(..){..},..};`, whatever its methods do.
/// Group 1 is the object's name, group 2 its body.
pub open spec fn helper_regexp_text() -> Seq<char> {
    "var ("@ + VARIABLE_PART@ + ")=\\{((?:"@ + helper_method_text(METHOD_PART@)
        + ",?\\n?)+)\\};"@
}

/// What stands before a method body inside the helper object: the start of a line or a
/// comma, then the key.
pub open spec fn pattern_prefix_text() -> Seq<char> {
    "(?:^|,)\\\"?("@ + VARIABLE_PART@ + ")\\\"?"@
}

/// The pattern that finds the method body `part` under some key, line by line.
pub open spec fn action_pattern_text(part: Seq<char>) -> Seq<char> {
    "(?m)"@ + pattern_prefix_text() + part
}

/// The four action patterns, in the order reverse, slice, splice, swap.
pub open spec fn action_patterns_text() -> Seq<Seq<char>> {
    seq![
        action_pattern_text(REVERSE_PART@),
        action_pattern_text(SLICE_PART@),
        action_pattern_text(SPLICE_PART@),
        action_pattern_text(SWAP_PART@),
    ]
}

/// `pattern` with the inline flags `flags` set for the whole of it.
pub open spec fn flagged_text(flags: Seq<char>, pattern: Seq<char>) -> Seq<char> {
    "(?"@ + flags + ")"@ + pattern
}

/// The early return that some players insert into the flattened n-transform function,
/// where `table` is the constant table's name, already escaped.
pub open spec fn short_circuit_text(table: Seq<char>) -> Seq<char> {
    ";\\s*if\\s*\\(\\s*typeof\\s+[a-zA-Z0-9_$]+\\s*===?\\s*(?:\"undefined\"|'undefined'|"@
        + table + "\\[\\d+\\])\\s*\\)\\s*return\\s+\\w+;"@
}

/// The early return of the parameter `param` in the other n-transform forms, however it
/// is spaced.
pub open spec fn cleaned_function_text(param: Seq<char>) -> Seq<char> {
    "if\\s*\\(typeof\\s*[^\\s()]+\\s*===?.*?\\)\\s*return\\s+"@ + param + "\\s*;?"@
}

pub fn variable_part_define() -> (p: String)
    ensures
        p@ == variable_part_define_text(),
{
    let mut p = String::from_str("\\\"?");
    p.append(VARIABLE_PART);
    p.append("\\\"?");
    p
}

pub fn variable_part_access() -> (p: String)
    ensures
        p@ == variable_part_access_text(),
{
    let mut p = String::from_str(BEFORE_ACCESS);
    p.append(VARIABLE_PART);
    p.append(AFTER_ACCESS);
    p
}

pub fn decipher_regexp() -> (p: String)
    ensures
        p@ == decipher_regexp_text(),
{
    let access = variable_part_access();
    let mut p = String::from_str("function(?: ");
    p.append(VARIABLE_PART);
    p.append(")?\\(([a-zA-Z])\\)\\{");
    p.append("\\1=\\1\\.split\\(\"\"\\);\\s*");
    p.append("((?:(?:\\1=)?");
    p.append(VARIABLE_PART);
    p.append(access.as_str());
    p.append("\\(\\1,\\d+\\);)+)");
    p.append("return \\1\\.join\\(\"\"\\)");
    p.append("\\}");
    p
}

pub fn helper_method(part: &str) -> (p: String)
    ensures
        p@ == helper_method_text(part@),
{
    let mut p = variable_part_define();
    p.append(part);
    p
}

pub fn helper_regexp() -> (p: String)
    ensures
        p@ == helper_regexp_text(),
{
    let method = helper_method(METHOD_PART);
    let mut p = String::from_str("var (");
    p.append(VARIABLE_PART);
    p.append(")=\\{((?:");
    p.append(method.as_str());
    p.append(",?\\n?)+)\\};");
    p
}

pub fn pattern_prefix() -> (p: String)
    ensures
        p@ == pattern_prefix_text(),
{
    let mut p = String::from_str("(?:^|,)\\\"?(");
    p.append(VARIABLE_PART);
    p.append(")\\\"?");
    p
}

pub fn action_pattern(part: &str) -> (p: String)
    ensures
        p@ == action_pattern_text(part@),
{
    let prefix = pattern_prefix();
    let mut p = String::from_str("(?m)");
    p.append(prefix.as_str());
    p.append(part);
    p
}

pub fn action_patterns() -> (set: Vec<String>)
    ensures
        set@.len() == 4,
        forall|i: int| 0 <= i < 4 ==> (#[trigger] set@[i])@ == action_patterns_text()[i],
{
    let mut set: Vec<String> = Vec::new();
    set.push(action_pattern(REVERSE_PART));
    set.push(action_pattern(SLICE_PART));
    set.push(action_pattern(SPLICE_PART));
    set.push(action_pattern(SWAP_PART));
    set
}

pub fn flagged(flags: &str, pattern: &str) -> (p: String)
    ensures
        p@ == flagged_text(flags@, pattern@),
{
    let mut p = String::from_str("(?");
    p.append(flags);
    p.append(")");
    p.append(pattern);
    p
}

pub fn short_circuit_pattern(table: &str) -> (p: String)
    ensures
        p@ == short_circuit_text(table@),
{
    let mut p = String::from_str(
        ";\\s*if\\s*\\(\\s*typeof\\s+[a-zA-Z0-9_$]+\\s*===?\\s*(?:\"undefined\"|'undefined'|",
    );
    p.append(table);
    p.append("\\[\\d+\\])\\s*\\)\\s*return\\s+\\w+;");
    p
}

pub fn cleaned_function_pattern(param: &str) -> (p: String)
    ensures
        p@ == cleaned_function_text(param@),
{
    let mut p = String::from_str(
        "if\\s*\\(typeof\\s*[^\\s()]+\\s*===?.*?\\)\\s*return\\s+",
    );
    p.append(param);
    p.append("\\s*;?");
    p
}

} // verus!
