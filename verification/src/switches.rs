//! Switches that the environment turns on and off.
//!
//! A switch is a word in an environment variable, in any mix of ASCII upper and
//! lower case. A switch that is on by default needs a word for "off" to be turned
//! off; one that is off by default needs a word for "on" to be turned on. Any other
//! text, and an unset variable, leave the default.

use crate::text::lowers_to;
use vstd::prelude::*;

verus! {

/// The words that turn a switch off, in lower case.
pub open spec fn is_off_word(s: Seq<char>) -> bool {
    s == "0"@ || s == "false"@ || s == "off"@ || s == "no"@
}

/// The words that turn a switch on, in lower case.
pub open spec fn is_on_word(s: Seq<char>) -> bool {
    s == "1"@ || s == "true"@ || s == "on"@ || s == "yes"@
}

/// What a switch that is on by default says for the text of its variable, if any.
pub open spec fn default_on(value: Option<Seq<char>>) -> bool {
    !(value matches Some(s) && is_off_word(crate::text::ascii_lowercase(s)))
}

/// What a switch that is off by default says for the text of its variable, if any.
pub open spec fn default_off(value: Option<Seq<char>>) -> bool {
    value matches Some(s) && is_on_word(crate::text::ascii_lowercase(s))
}

/// The text of a variable that may be unset.
pub open spec fn text_of(value: Option<&str>) -> Option<Seq<char>> {
    match value {
        Some(s) => Some(s@),
        None => None,
    }
}

/// Reads a switch that is on unless its variable says `0`, `false`, `off` or `no`.
pub fn parse_default_on_flag(value: Option<&str>) -> (r: bool)
    ensures
        r == default_on(text_of(value)),
{
    match value {
        Some(s) => !(lowers_to(s, "0") || lowers_to(s, "false") || lowers_to(s, "off")
            || lowers_to(s, "no")),
        None => true,
    }
}

/// Reads a switch that is off unless its variable says `1`, `true`, `on` or `yes`.
pub fn parse_default_off_flag(value: Option<&str>) -> (r: bool)
    ensures
        r == default_off(text_of(value)),
{
    match value {
        Some(s) => lowers_to(s, "1") || lowers_to(s, "true") || lowers_to(s, "on") || lowers_to(
            s,
            "yes",
        ),
        None => false,
    }
}

/// What a default-off switch that remembers its first answer says: that answer, or
/// what the text of its variable says where it was not asked yet.
pub open spec fn remembered(seen: Option<bool>, value: Option<Seq<char>>) -> bool {
    match seen {
        Some(answer) => answer,
        None => default_off(value),
    }
}

/// Whether emulators over one fastmem arena share one page table, given the text of
/// `NEXIUM_DYNARMIC_SHARED_PAGE_TABLE`. They do not unless it says so. The first answer
/// is kept in `seen`, which starts as `None`, and is given again from then on, whatever
/// the variable says later.
pub fn shared_fastmem_page_table_enabled(seen: &mut Option<bool>, value: Option<&str>) -> (r: bool)
    ensures
        r == remembered(*old(seen), text_of(value)),
        *old(seen) matches Some(answer) ==> r == answer,
        *old(seen) is None ==> r == default_off(text_of(value)),
        *final(seen) == Some(r),
{
    let answer = match *seen {
        Some(answer) => answer,
        None => parse_default_off_flag(value),
    };
    *seen = Some(answer);
    answer
}

/// The answer kept after a switch was asked with its variable set to these texts, one
/// after the other.
pub open spec fn seen_after_all(values: Seq<Option<Seq<char>>>) -> Option<bool>
    decreases values.len(),
{
    if values.len() == 0 {
        None
    } else {
        Some(remembered(seen_after_all(values.drop_last()), values.last()))
    }
}

/// The first call and every later one give the same answer, the one that the variable
/// asked for at the first call, even after the variable changed.
pub proof fn law_first_answer_is_kept(values: Seq<Option<Seq<char>>>, call: int)
    requires
        0 <= call < values.len(),
    ensures
        remembered(seen_after_all(values.take(call)), values[call]) == default_off(values[0]),
    decreases call,
{
    if call > 0 {
        law_first_answer_is_kept(values, call - 1);
        assert(values.take(call).drop_last() =~= values.take(call - 1));
    }
}

/// No text counts both as "on" and as "off": a text that turns a default-off switch
/// on leaves a default-on switch on, and one that turns a default-on switch off
/// leaves a default-off switch off.
pub proof fn law_no_text_is_both_on_and_off(value: Option<Seq<char>>)
    ensures
        default_off(value) ==> default_on(value),
        !default_on(value) ==> !default_off(value),
{
    reveal_strlit("0");
    reveal_strlit("false");
    reveal_strlit("off");
    reveal_strlit("no");
    reveal_strlit("1");
    reveal_strlit("true");
    reveal_strlit("on");
    reveal_strlit("yes");
    if let Some(s) = value {
        let l = crate::text::ascii_lowercase(s);
        if is_off_word(l) && is_on_word(l) {
            assert(l[0] == '0' || l[0] == 'f' || (l[0] == 'o' && l[1] == 'f') || l[0] == 'n');
            assert(l[0] == '1' || l[0] == 't' || (l[0] == 'o' && l[1] == 'n') || l[0] == 'y');
        }
    }
}

/// Letter case never matters: texts with the same ASCII lower case set every switch
/// alike.
pub proof fn law_case_does_not_matter(a: Seq<char>, b: Seq<char>)
    requires
        crate::text::ascii_lowercase(a) == crate::text::ascii_lowercase(b),
    ensures
        default_on(Some(a)) == default_on(Some(b)),
        default_off(Some(a)) == default_off(Some(b)),
{
}

/// A variable that is unset has no text, and one that is set has exactly its own.
pub proof fn law_text_is_taken_as_it_is(s: &str)
    ensures
        text_of(None) is None,
        text_of(Some(s)) == Some(s@),
{
}

/// A default-on switch is off exactly for the words `0`, `false`, `off` and `no`, and a
/// default-off switch is on exactly for `1`, `true`, `on` and `yes`, in any letter case;
/// an unset variable leaves the default.
pub proof fn law_switch_words(s: Seq<char>)
    ensures
        default_on(None),
        !default_off(None),
        default_on(Some(s)) <==> !seq!["0"@, "false"@, "off"@, "no"@].contains(
            crate::text::ascii_lowercase(s),
        ),
        default_off(Some(s)) <==> seq!["1"@, "true"@, "on"@, "yes"@].contains(
            crate::text::ascii_lowercase(s),
        ),
{
    let off = seq!["0"@, "false"@, "off"@, "no"@];
    assert(off[0] == "0"@ && off[1] == "false"@ && off[2] == "off"@ && off[3] == "no"@);
    assert(off.contains("0"@) && off.contains("false"@) && off.contains("off"@) && off.contains(
        "no"@,
    ));
    let on = seq!["1"@, "true"@, "on"@, "yes"@];
    assert(on[0] == "1"@ && on[1] == "true"@ && on[2] == "on"@ && on[3] == "yes"@);
    assert(on.contains("1"@) && on.contains("true"@) && on.contains("on"@) && on.contains(
        "yes"@,
    ));
}

/// A switch that was asked before gives its answer again; one that was not is read from
/// its variable.
pub proof fn law_remembered_answer_wins(seen: bool, value: Option<Seq<char>>)
    ensures
        remembered(Some(seen), value) == seen,
        remembered(None, value) == default_off(value),
{
}

} // verus!
