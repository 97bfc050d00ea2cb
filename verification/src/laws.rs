//! What holds of every extraction, whatever the engines find.

use vstd::prelude::*;
use crate::assembled_script;
use crate::catalog::{action_patterns_text, DECIPHER_FUNC_NAME};
use crate::engine::{replaced_text, set_compiles};
use crate::error::{ErrorClass, ExtractError, GroupIndex, PatternId};
use crate::matcher::{fancy_search, std_is_match, std_search, MatchText, SearchText};
use crate::sig::{
    action_table_form, action_table_text, decipher_script, helper_pattern, n_function_pattern,
    n_table_form, n_transform_script, sign_action_pattern, sign_function_pattern, table_of,
    table_pattern, without_short_circuit,
};

verus! {

/// Whether `part` stands in `text` from position `at` on.
pub open spec fn occurs_at(text: Seq<char>, part: Seq<char>, at: int) -> bool {
    0 <= at && at + part.len() <= text.len() && text.subrange(at, at + part.len()) == part
}

/// A script without its constant table is no script: where the table's declaration is
/// not found, the extraction fails with that, a failure of the not-found class, whatever
/// the searches for the two functions would find. And whatever else fails the locator
/// fails the extraction in the same way.
pub proof fn missing_table_fails_first(body: Seq<char>)
    ensures
        std_search(table_pattern(), body) is Absent ==> assembled_script(body) == Err::<
            Seq<char>,
            ExtractError,
        >(ExtractError::NoMatch { pattern: PatternId::NewTceGlobalVars }),
        std_search(table_pattern(), body) is Absent ==> assembled_script(body)->Err_0.class_of()
            == ErrorClass::NotFound,
        table_of(std_search(table_pattern(), body)) matches Err(e) ==> assembled_script(body)
            == Err::<Seq<char>, ExtractError>(e),
{
}

/// The consolidated form wins: where the decipher function and its object of actions are
/// both found, the decipher script is made of them and of the constant table, whatever a
/// search for a helper object would find. The script begins with the declaration of
/// `DisTubeDecipherFunc`, and the function stands behind it as it was found.
pub proof fn consolidated_form_wins(
    body: Seq<char>,
    table: Seq<char>,
    function: Seq<char>,
    object: Seq<char>,
)
    requires
        fancy_search(sign_function_pattern(), body) matches SearchText::Found(found)
            && found.group(GroupIndex::First.position()) == Some(function),
        std_search(sign_action_pattern(), body) matches SearchText::Found(found) && found.group(GroupIndex::First.position())
            == Some(object),
    ensures
        decipher_script(body, table) == Ok::<Seq<char>, ExtractError>(
            action_table_text(function, object, table),
        ),
        occurs_at(
            action_table_text(function, object, table),
            "var "@ + DECIPHER_FUNC_NAME@ + " = "@,
            0,
        ),
        occurs_at(
            action_table_text(function, object, table),
            function,
            ("var "@ + DECIPHER_FUNC_NAME@ + " = "@).len() as int,
        ),
{
    let declaration = "var "@ + DECIPHER_FUNC_NAME@ + " = "@;
    let script = action_table_text(function, object, table);
    assert(script.subrange(0, declaration.len() as int) =~= declaration);
    assert(script.subrange(
        declaration.len() as int,
        declaration.len() as int + function.len() as int,
    ) =~= function);
}

/// A helper object without a known action is refused, and not as a missing one: where the
/// consolidated form steps aside and the helper object is found, but none of the four
/// action patterns matches in its body, the extraction fails on the set of actions. Where
/// the helper object is not found it fails on the helper pattern.
pub proof fn unrecognised_helper_is_refused(
    body: Seq<char>,
    table: Seq<char>,
    helper: Seq<char>,
    actions: Seq<char>,
)
    requires
        action_table_form(body, table) == Ok::<Option<Seq<char>>, ExtractError>(None),
        std_search(helper_pattern(), body) matches SearchText::Found(found) && found.group(GroupIndex::First.position())
            == Some(helper) && found.group(GroupIndex::Third.position()) == Some(actions),
        set_compiles(action_patterns_text()),
        forall|i: int|
            0 <= i < action_patterns_text().len() ==> !std_is_match(
                #[trigger] action_patterns_text()[i],
                actions,
            ),
    ensures
        decipher_script(body, table) == Err::<Seq<char>, ExtractError>(
            ExtractError::NoMatch { pattern: PatternId::PatternSet },
        ),
        decipher_script(body, table) != Err::<Seq<char>, ExtractError>(
            ExtractError::NoMatch { pattern: PatternId::Helper },
        ),
{
}

/// Where the consolidated form steps aside and no helper object is found, the extraction
/// fails on the helper pattern.
pub proof fn missing_helper_is_reported(body: Seq<char>, table: Seq<char>)
    requires
        action_table_form(body, table) == Ok::<Option<Seq<char>>, ExtractError>(None),
        std_search(helper_pattern(), body) is Absent,
    ensures
        decipher_script(body, table) == Err::<Seq<char>, ExtractError>(
            ExtractError::NoMatch { pattern: PatternId::Helper },
        ),
{
}

/// The n-transform function that works through the constant table wins: where it is
/// found, the script is made of it, whatever the searches for the other forms would find.
pub proof fn table_form_wins(body: Seq<char>, name: Seq<char>, table: Seq<char>)
    requires
        fancy_search(n_function_pattern(), body) is Found,
    ensures
        n_transform_script(body, name, table) == n_table_form(
            fancy_search(n_function_pattern(), body)->Found_0,
            name,
            table,
        ),
{
}

/// A text in which `from` does not occur is left as it is.
pub proof fn absent_text_is_not_replaced(text: Seq<char>, from: Seq<char>, to: Seq<char>)
    requires
        from.len() > 0,
        forall|at: int| !occurs_at(text, from, at),
    ensures
        replaced_text(text, from, to) == text,
    decreases text.len(),
{
    if text.len() >= from.len() {
        assert(!occurs_at(text, from, 0));
        let rest = text.drop_first();
        assert forall|at: int| !occurs_at(rest, from, at) by {
            if occurs_at(rest, from, at) {
                assert(text.subrange(at + 1, at + 1 + from.len()) =~= rest.subrange(
                    at,
                    at + from.len(),
                ));
                assert(occurs_at(text, from, at + 1));
            }
        }
        absent_text_is_not_replaced(rest, from, to);
        assert(seq![text[0]] + rest =~= text);
    }
}

/// A text in which `from` occurs once, between `before` and `after`, has that one
/// occurrence replaced and everything else kept.
pub proof fn single_occurrence_is_replaced(
    before: Seq<char>,
    from: Seq<char>,
    after: Seq<char>,
    to: Seq<char>,
)
    requires
        from.len() > 0,
        forall|at: int| occurs_at(before + from + after, from, at) ==> at == before.len(),
    ensures
        replaced_text(before + from + after, from, to) == before + to + after,
    decreases before.len(),
{
    let text = before + from + after;
    if before.len() == 0 {
        assert(text.subrange(0, from.len() as int) =~= from);
        assert(text.subrange(from.len() as int, text.len() as int) =~= after);
        assert forall|at: int| !occurs_at(after, from, at) by {
            if occurs_at(after, from, at) {
                assert(text.subrange(at + from.len(), at + from.len() + from.len())
                    =~= after.subrange(at, at + from.len()));
                assert(occurs_at(text, from, at + from.len()));
            }
        }
        absent_text_is_not_replaced(after, from, to);
        assert(to + after =~= before + to + after);
    } else {
        assert(!occurs_at(text, from, 0));
        let rest = before.drop_first();
        assert(text.drop_first() =~= rest + from + after);
        assert forall|at: int| occurs_at(rest + from + after, from, at) implies at
            == rest.len() by {
            assert(text.subrange(at + 1, at + 1 + from.len()) =~= (rest + from + after).subrange(
                at,
                at + from.len(),
            ));
            assert(occurs_at(text, from, at + 1));
        }
        single_occurrence_is_replaced(rest, from, after, to);
        assert(seq![text[0]] + (rest + to + after) =~= before + to + after);
    }
}

/// The early return leaves and the rest stays: where the search finds the guard and the
/// guard stands once in the function, what comes out is the function with a semicolon
/// in the guard's place.
pub proof fn short_circuit_leaves_the_rest(
    before: Seq<char>,
    guard: Seq<char>,
    after: Seq<char>,
    found: MatchText,
)
    requires
        guard.len() > 0,
        found.group(GroupIndex::First.position()) == Some(guard),
        forall|at: int| occurs_at(before + guard + after, guard, at) ==> at == before.len(),
    ensures
        without_short_circuit(before + guard + after, SearchText::Found(found)) == Ok::<
            Seq<char>,
            ExtractError,
        >(before + ";"@ + after),
{
    single_occurrence_is_replaced(before, guard, after, ";"@);
}

/// An extraction is a function of the script: two runs on the same script, each of which
/// ends as the contract of `extract_script` says, end in the same script or the same
/// failure.
pub proof fn rerun_gives_the_same(
    body: Seq<char>,
    first: Result<Seq<char>, ExtractError>,
    second: Result<Seq<char>, ExtractError>,
)
    requires
        first == assembled_script(body),
        second == assembled_script(body),
    ensures
        first == second,
{
}

} // verus!
