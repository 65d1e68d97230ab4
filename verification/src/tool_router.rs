//! Detection of a tool call in the text a model gave.

use vstd::prelude::*;
use vstd::string::StrSliceExecFns;
use crate::text::chars_of;

verus! {

/// The marker with which a tool call begins.
pub open spec fn marker() -> Seq<char> {
    "tool:"@
}

/// `text` is a tool call of `name` with `argument`: the marker, the name,
/// which holds no colon, one colon, and the argument, which may hold any.
pub open spec fn is_tool_call(text: Seq<char>, name: Seq<char>, argument: Seq<char>) -> bool {
    &&& text == marker() + name + seq![':'] + argument
    &&& !name.contains(':')
}

/// A text is a tool call in at most one way.
pub proof fn lemma_tool_call_is_unique(
    text: Seq<char>,
    name1: Seq<char>,
    argument1: Seq<char>,
    name2: Seq<char>,
    argument2: Seq<char>,
)
    requires
        is_tool_call(text, name1, argument1),
        is_tool_call(text, name2, argument2),
    ensures
        name1 == name2,
        argument1 == argument2,
{
    let m = marker().len() as int;
    let n1 = name1.len() as int;
    let n2 = name2.len() as int;
    assert(forall|i: int| 0 <= i < n1 ==> text[m + i] == name1[i]);
    assert(forall|i: int| 0 <= i < n2 ==> text[m + i] == name2[i]);
    assert(text[m + n1] == ':');
    assert(text[m + n2] == ':');
    if n1 < n2 {
        assert(name2[n1] == ':');
        assert(name2.contains(':'));
    }
    if n2 < n1 {
        assert(name1[n2] == ':');
        assert(name1.contains(':'));
    }
    assert(name1 =~= name2);
    assert(text.len() == m + n1 + 1 + argument1.len());
    assert(text.len() == m + n2 + 1 + argument2.len());
    assert(forall|i: int| 0 <= i < argument1.len() ==> text[m + n1 + 1 + i] == argument1[i]);
    assert(forall|i: int| 0 <= i < argument2.len() ==> text[m + n1 + 1 + i] == argument2[i]);
    assert(argument1 =~= argument2);
}

/// Looks for a tool call in `text`. A call is found when the text begins
/// with the marker and holds a further colon: the name runs up to that
/// colon, and everything after it, colons included, is the argument. Any
/// other text holds no call.
pub fn detect_tool_call(text: &str) -> (call: Option<(String, String)>)
    ensures
        match call {
            Some((name, argument)) => is_tool_call(text@, name@, argument@),
            None => forall|name: Seq<char>, argument: Seq<char>|
                !is_tool_call(text@, name, argument),
        },
{
    proof {
        reveal_strlit("tool:");
    }
    let chars = chars_of(text);
    let n = chars.len();
    if n < 5 || chars[0] != 't' || chars[1] != 'o' || chars[2] != 'o' || chars[3] != 'l' || chars[4]
        != ':' {
        assert forall|name: Seq<char>, argument: Seq<char>| !is_tool_call(text@, name, argument) by {
            if is_tool_call(text@, name, argument) {
                let whole = marker() + name + seq![':'] + argument;
                assert(whole.len() >= 5);
                assert(forall|i: int| 0 <= i < 5 ==> whole[i] == marker()[i]);
            }
        }
        return None;
    }
    let mut end: usize = 5;
    while end < n && chars[end] != ':'
        invariant
            5 <= end <= n,
            n == chars.len(),
            forall|i: int| 5 <= i < end ==> chars@[i] != ':',
        decreases n - end,
    {
        end += 1;
    }
    if end == n {
        assert forall|name: Seq<char>, argument: Seq<char>| !is_tool_call(text@, name, argument) by {
            if is_tool_call(text@, name, argument) {
                let whole = marker() + name + seq![':'] + argument;
                assert(whole[5 + name.len() as int] == ':');
            }
        }
        return None;
    }
    let name = text.substring_char(5, end).to_owned();
    let argument = text.substring_char(end + 1, n).to_owned();
    proof {
        assert(text@ =~= marker() + name@ + seq![':'] + argument@);
        assert(!name@.contains(':'));
    }
    Some((name, argument))
}

} // verus!
