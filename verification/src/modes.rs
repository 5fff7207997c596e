//! Choice of a read-only approval mode for a new agent session.
//!
//! After `session/new`, the editor asks the agent to switch to the most
//! restrictive approval mode it offers: `read-only`, else `suggest`, else
//! `ask`, unless the session already uses it.
use vstd::prelude::*;
use crate::acp::{JsonRpcRequest, set_config_option_request, set_mode_request};
use crate::json::{Json, JsonValue, items_view, lemma_items_view};
use crate::runtime::RunningAgentState;
use crate::text::{owned, str_eq, strings_view};

verus! {

/// `mode` is offered and not the current mode.
pub open spec fn mode_candidate(
    values: Seq<Seq<char>>,
    current: Option<Seq<char>>,
    mode: Seq<char>,
) -> bool {
    values.contains(mode) && current != Some(mode)
}

/// The preferred approval mode: the first of `read-only`, `suggest`, `ask`
/// that is offered and not already current.
pub open spec fn preferred_mode(values: Seq<Seq<char>>, current: Option<Seq<char>>) -> Option<
    Seq<char>,
> {
    if mode_candidate(values, current, "read-only"@) {
        Some("read-only"@)
    } else if mode_candidate(values, current, "suggest"@) {
        Some("suggest"@)
    } else if mode_candidate(values, current, "ask"@) {
        Some("ask"@)
    } else {
        None
    }
}

/// The string members `key` of the items, in order, skipping items without one.
pub open spec fn str_members(items: Seq<JsonValue>, key: Seq<char>) -> Seq<Seq<char>>
    decreases items.len(),
{
    if items.len() == 0 {
        Seq::empty()
    } else {
        let front = str_members(items.drop_last(), key);
        match items.last().str_field(key) {
            Some(s) => front.push(s),
            None => front,
        }
    }
}

/// The values offered by a config option: the string `value` of each entry
/// of its `options` array.
pub open spec fn option_values(option: JsonValue) -> Seq<Seq<char>> {
    match option.array_field("options"@) {
        Some(items) => str_members(items, "value"@),
        None => Seq::empty(),
    }
}

/// The option is the approval-mode option: its category or its id is `mode`.
pub open spec fn is_mode_option(option: JsonValue, id: Seq<char>) -> bool {
    option.str_field("category"@) == Some("mode"@) || id == "mode"@
}

/// `preferred_config_mode` over the remaining config options: the first
/// option without a string `id` ends the search with nothing; the first mode
/// option decides.
pub open spec fn config_mode_in(options: Seq<JsonValue>) -> Option<(Seq<char>, Seq<char>)>
    decreases options.len(),
{
    if options.len() == 0 {
        None
    } else {
        let o = options[0];
        match o.str_field("id"@) {
            None => None,
            Some(id) => if !is_mode_option(o, id) {
                config_mode_in(options.drop_first())
            } else {
                match preferred_mode(option_values(o), o.str_field("currentValue"@)) {
                    Some(v) => Some((id, v)),
                    None => None,
                }
            },
        }
    }
}

/// The config option and value to request, from a `session/new` result.
pub open spec fn config_mode(result: JsonValue) -> Option<(Seq<char>, Seq<char>)> {
    match result.array_field("configOptions"@) {
        Some(options) => config_mode_in(options),
        None => None,
    }
}

/// The session mode to request, from a `session/new` result.
pub open spec fn session_mode(result: JsonValue) -> Option<Seq<char>> {
    match result.field("modes"@) {
        Some(modes) => match modes.array_field("availableModes"@) {
            Some(available) => preferred_mode(
                str_members(available, "id"@),
                modes.str_field("currentModeId"@),
            ),
            None => None,
        },
        None => None,
    }
}

fn contains_string(values: &[String], s: &str) -> (r: bool)
    ensures
        r == strings_view(values@).contains(s@),
{
    let n = values.len();
    let mut i: usize = 0;
    while i < n
        invariant
            n == values@.len(),
            i <= n,
            forall|k: int| 0 <= k < i ==> values@[k]@ != s@,
        decreases n - i,
    {
        if str_eq(values[i].as_str(), s) {
            assert(strings_view(values@)[i as int] == s@);
            return true;
        }
        i = i + 1;
    }
    assert forall|k: int| 0 <= k < strings_view(values@).len() implies strings_view(
        values@,
    )[k] != s@ by {
        assert(strings_view(values@)[k] == values@[k]@);
    }
    false
}

fn is_candidate(values: &[String], current: Option<&str>, mode: &str) -> (r: bool)
    ensures
        r == mode_candidate(
            strings_view(values@),
            match current {
                Some(c) => Some(c@),
                None => None,
            },
            mode@,
        ),
{
    if !contains_string(values, mode) {
        return false;
    }
    match current {
        Some(c) => !str_eq(c, mode),
        None => true,
    }
}

/// The preferred approval mode among the offered values.
pub fn preferred_mode_value(values: &[String], current: Option<&str>) -> (r: Option<String>)
    ensures
        match r {
            Some(m) => preferred_mode(
                strings_view(values@),
                match current {
                    Some(c) => Some(c@),
                    None => None,
                },
            ) == Some(m@),
            None => preferred_mode(
                strings_view(values@),
                match current {
                    Some(c) => Some(c@),
                    None => None,
                },
            ) is None,
        },
{
    if is_candidate(values, current, "read-only") {
        return Some(owned("read-only"));
    }
    if is_candidate(values, current, "suggest") {
        return Some(owned("suggest"));
    }
    if is_candidate(values, current, "ask") {
        return Some(owned("ask"));
    }
    None
}

/// The string members `key` of the items.
pub fn string_members(items: &Vec<Json>, key: &str) -> (r: Vec<String>)
    ensures
        strings_view(r@) == str_members(items_view(items@), key@),
{
    proof {
        lemma_items_view(items@);
    }
    let mut r: Vec<String> = Vec::new();
    let n = items.len();
    let mut i: usize = 0;
    while i < n
        invariant
            n == items@.len(),
            items_view(items@).len() == n,
            forall|k: int| 0 <= k < n ==> #[trigger] items_view(items@)[k] == items@[k]@,
            i <= n,
            strings_view(r@) == str_members(items_view(items@).subrange(0, i as int), key@),
        decreases n - i,
    {
        let ghost front = items_view(items@).subrange(0, i as int);
        let ghost next = items_view(items@).subrange(0, i + 1);
        assert(next.drop_last() =~= front);
        assert(next.last() == items@[i as int]@);
        match items[i].get_str(key) {
            Some(s) => {
                r.push(owned(s));
                assert(strings_view(r@) =~= str_members(front, key@).push(s@));
            },
            None => {},
        }
        i = i + 1;
    }
    assert(items_view(items@).subrange(0, n as int) =~= items_view(items@));
    r
}

/// The values offered by a config option.
pub fn config_option_values(option: &Json) -> (r: Vec<String>)
    ensures
        strings_view(r@) == option_values(option@),
{
    match option.get_array("options") {
        Some(items) => string_members(items, "value"),
        None => Vec::new(),
    }
}

/// The config option and value to request from a `session/new` result.
pub fn preferred_config_mode(result: &Json) -> (r: Option<(String, String)>)
    ensures
        match r {
            Some((id, v)) => config_mode(result@) == Some((id@, v@)),
            None => config_mode(result@) is None,
        },
{
    let options = match result.get_array("configOptions") {
        Some(o) => o,
        None => return None,
    };
    proof {
        lemma_items_view(options@);
    }
    let ghost ov = items_view(options@);
    let n = options.len();
    let mut i: usize = 0;
    assert(ov.subrange(0, n as int) =~= ov);
    while i < n
        invariant
            n == options@.len(),
            ov == items_view(options@),
            ov.len() == n,
            forall|k: int| 0 <= k < n ==> #[trigger] ov[k] == options@[k]@,
            config_mode(result@) == config_mode_in(ov),
            i <= n,
            config_mode_in(ov) == config_mode_in(ov.subrange(i as int, n as int)),
        decreases n - i,
    {
        let ghost rest = ov.subrange(i as int, n as int);
        assert(rest[0] == options@[i as int]@);
        assert(rest.drop_first() =~= ov.subrange(i + 1, n as int));
        let option = &options[i];
        let id = match option.get_str("id") {
            Some(id) => id,
            None => return None,
        };
        let is_mode = match option.get_str("category") {
            Some(c) => str_eq(c, "mode"),
            None => false,
        } || str_eq(id, "mode");
        if is_mode {
            let values = config_option_values(option);
            let current = option.get_str("currentValue");
            return match preferred_mode_value(values.as_slice(), current) {
                Some(v) => Some((owned(id), v)),
                None => None,
            };
        }
        i = i + 1;
    }
    None
}

/// The session mode to request from a `session/new` result.
pub fn preferred_session_mode(result: &Json) -> (r: Option<String>)
    ensures
        opt_chars(r) == session_mode(result@),
{
    let modes = match result.get("modes") {
        Some(m) => m,
        None => return None,
    };
    let current = modes.get_str("currentModeId");
    let available = match modes.get_array("availableModes") {
        Some(a) => a,
        None => return None,
    };
    let values = string_members(available, "id");
    preferred_mode_value(values.as_slice(), current)
}

/// The characters of an optional string.
pub open spec fn opt_chars(s: Option<String>) -> Option<Seq<char>> {
    match s {
        Some(t) => Some(t@),
        None => None,
    }
}

/// The request that switches a new session to the preferred approval mode,
/// if the `session/new` result offers one: a config option when the result
/// has a mode config option, else a session mode.
pub open spec fn approval_mode_choice(result: Option<JsonValue>) -> Option<
    (Seq<char>, Option<Seq<char>>, Seq<char>),
> {
    match result {
        None => None,
        Some(r) => match config_mode(r) {
            Some((config_id, value)) => Some(("session/set_config_option"@, Some(config_id), value)),
            None => match session_mode(r) {
                Some(mode_id) => Some(("session/set_mode"@, None, mode_id)),
                None => None,
            },
        },
    }
}

/// Builds the approval-mode request for a new session, taking the agent's
/// next request id for it.
pub fn approval_mode_request(
    running: &mut RunningAgentState,
    session_id: &str,
    session_result: Option<&Json>,
) -> (r: Option<JsonRpcRequest>)
    requires
        old(running).next_request_id < u64::MAX,
    ensures
        final(running).name == old(running).name,
        final(running).session_id == old(running).session_id,
        match approval_mode_choice(
            match session_result {
                Some(j) => Some(j@),
                None => None,
            },
        ) {
            None => r is None && final(running).next_request_id == old(running).next_request_id,
            Some((method, config_id, value)) => {
                &&& final(running).next_request_id == old(running).next_request_id + 1
                &&& r matches Some(req) && req.is_request(
                    old(running).next_request_id,
                    method,
                    match config_id {
                        Some(c) => JsonValue::Object(
                            Seq::empty().push(("sessionId"@, JsonValue::Str(session_id@))).push(
                                ("configId"@, JsonValue::Str(c)),
                            ).push(("value"@, JsonValue::Str(value))),
                        ),
                        None => JsonValue::Object(
                            Seq::empty().push(("sessionId"@, JsonValue::Str(session_id@))).push(
                                ("modeId"@, JsonValue::Str(value)),
                            ),
                        ),
                    },
                )
            },
        },
{
    let result = match session_result {
        Some(r) => r,
        None => return None,
    };
    if let Some((config_id, value)) = preferred_config_mode(result) {
        let request_id = running.next_request_id;
        running.next_request_id = running.next_request_id + 1;
        return Some(set_config_option_request(request_id, owned(session_id), config_id, value));
    }
    if let Some(mode_id) = preferred_session_mode(result) {
        let request_id = running.next_request_id;
        running.next_request_id = running.next_request_id + 1;
        return Some(set_mode_request(request_id, owned(session_id), mode_id));
    }
    None
}

/// Law: the approval mode requested is the most restrictive one offered
/// that is not already current, in the order read-only, suggest, ask: a
/// chosen mode is offered and not current, read-only is chosen whenever it
/// is offered and not current, a less restrictive mode is chosen only when
/// every more restrictive one is not offered or already current, and nothing
/// is chosen only when none of the three can be.
pub proof fn law_most_restrictive_mode_is_chosen(values: Seq<Seq<char>>, current: Option<Seq<char>>)
    ensures
        values.contains("read-only"@) && current != Some("read-only"@) ==> preferred_mode(
            values,
            current,
        ) == Some("read-only"@),
        preferred_mode(values, current) matches Some(m) ==> {
            &&& values.contains(m)
            &&& current != Some(m)
            &&& (m == "read-only"@ || m == "suggest"@ || m == "ask"@)
        },
        preferred_mode(values, current) == Some("suggest"@) ==> !(values.contains("read-only"@)
            && current != Some("read-only"@)),
        preferred_mode(values, current) == Some("ask"@) ==> {
            &&& !(values.contains("read-only"@) && current != Some("read-only"@))
            &&& !(values.contains("suggest"@) && current != Some("suggest"@))
        },
        preferred_mode(values, current) is None ==> {
            &&& !(values.contains("read-only"@) && current != Some("read-only"@))
            &&& !(values.contains("suggest"@) && current != Some("suggest"@))
            &&& !(values.contains("ask"@) && current != Some("ask"@))
        },
{
    reveal_strlit("read-only");
    reveal_strlit("suggest");
    reveal_strlit("ask");
    assert("read-only"@.len() != "suggest"@.len());
    assert("read-only"@.len() != "ask"@.len());
    assert("suggest"@.len() != "ask"@.len());
}

/// The config option has a string id and is not the approval-mode option,
/// so the search goes on past it.
pub open spec fn skipped_option(o: JsonValue) -> bool {
    match o.str_field("id"@) {
        Some(id) => !is_mode_option(o, id),
        None => false,
    }
}

/// The config option has a string id and is the approval-mode option.
pub open spec fn mode_option(o: JsonValue) -> bool {
    match o.str_field("id"@) {
        Some(id) => is_mode_option(o, id),
        None => false,
    }
}

/// Law: the config choice comes from the first approval-mode option, and
/// only when every option before it has a string id: the chosen id is that
/// option's id and the chosen value its most restrictive offered mode that
/// is not current; nothing is chosen when that option offers none, or when
/// an option without a string id comes first.
pub proof fn law_first_mode_option_decides(options: Seq<JsonValue>)
    ensures
        config_mode_in(options) matches Some((id, v)) ==> exists|k: int|
            0 <= k < options.len() && (forall|j: int| 0 <= j < k ==> #[trigger] skipped_option(
                options[j],
            )) && mode_option(options[k]) && options[k].str_field("id"@) == Some(id)
                && preferred_mode(option_values(options[k]), options[k].str_field("currentValue"@))
                == Some(v),
        forall|k: int|
            0 <= k < options.len() && (forall|j: int| 0 <= j < k ==> #[trigger] skipped_option(
                options[j],
            )) && #[trigger] mode_option(options[k]) ==> config_mode_in(options) == match preferred_mode(
                option_values(options[k]),
                options[k].str_field("currentValue"@),
            ) {
                Some(v) => Some((options[k].str_field("id"@)->0, v)),
                None => None,
            },
    decreases options.len(),
{
    if options.len() > 0 {
        let rest = options.drop_first();
        law_first_mode_option_decides(rest);
        assert forall|j: int| 0 < j < options.len() implies options[j] == rest[j - 1] by {}
        if skipped_option(options[0]) {
            if let Some((id, v)) = config_mode_in(options) {
                let k = choose|k: int|
                    0 <= k < rest.len() && (forall|j: int| 0 <= j < k ==> #[trigger] skipped_option(
                        rest[j],
                    )) && mode_option(rest[k]) && rest[k].str_field("id"@) == Some(id)
                        && preferred_mode(option_values(rest[k]), rest[k].str_field("currentValue"@))
                        == Some(v);
                assert forall|j: int| 0 <= j < k + 1 implies #[trigger] skipped_option(
                    options[j],
                ) by {
                    if j > 0 {
                        assert(options[j] == rest[j - 1]);
                    }
                }
            }
            assert forall|k: int|
                0 <= k < options.len() && (forall|j: int| 0 <= j < k ==> #[trigger] skipped_option(
                    options[j],
                )) && #[trigger] mode_option(options[k]) implies config_mode_in(options)
                == match preferred_mode(
                option_values(options[k]),
                options[k].str_field("currentValue"@),
            ) {
                Some(v) => Some((options[k].str_field("id"@)->0, v)),
                None => None,
            } by {
                if k == 0 {
                    assert(!mode_option(options[0]));
                } else {
                    assert forall|j: int| 0 <= j < k - 1 implies #[trigger] skipped_option(
                        rest[j],
                    ) by {
                        assert(rest[j] == options[j + 1]);
                    }
                    assert(rest[k - 1] == options[k]);
                }
            }
        } else {
            assert forall|k: int|
                0 <= k < options.len() && (forall|j: int| 0 <= j < k ==> #[trigger] skipped_option(
                    options[j],
                )) && #[trigger] mode_option(options[k]) implies k == 0 by {
                if k > 0 {
                    assert(skipped_option(options[0]));
                }
            }
        }
    }
}

/// Law: the string members of a list are collected one for one, in order:
/// an item gives its member when it has a string one and nothing otherwise,
/// and the members of two lists put together are the members of the first
/// followed by those of the second.
pub proof fn law_string_members_keep_order(
    a: Seq<JsonValue>,
    b: Seq<JsonValue>,
    item: JsonValue,
    key: Seq<char>,
)
    ensures
        str_members(seq![item], key) == match item.str_field(key) {
            Some(s) => seq![s],
            None => Seq::empty(),
        },
        str_members(a + b, key) == str_members(a, key) + str_members(b, key),
    decreases b.len(),
{
    assert(seq![item].drop_last() =~= Seq::<JsonValue>::empty());
    assert(seq![item].last() == item);
    assert(str_members(Seq::<JsonValue>::empty(), key) == Seq::<Seq<char>>::empty());
    match item.str_field(key) {
        Some(s) => assert(Seq::<Seq<char>>::empty().push(s) =~= seq![s]),
        None => {},
    }
    if b.len() > 0 {
        assert((a + b).drop_last() =~= a + b.drop_last());
        assert((a + b).last() == b.last());
        law_string_members_keep_order(a, b.drop_last(), item, key);
        let front = str_members(a, key) + str_members(b.drop_last(), key);
        match b.last().str_field(key) {
            Some(s) => assert(front.push(s) =~= str_members(a, key) + str_members(
                b.drop_last(),
                key,
            ).push(s)),
            None => {},
        }
    } else {
        assert(a + b =~= a);
        assert(str_members(a, key) + str_members(b, key) =~= str_members(a, key));
    }
}

} // verus!
