//! One-line summaries of agent messages for the editor's log: what a
//! response settled and what a notification reports.
use vstd::prelude::*;
use crate::json::{Json, JsonValue, items_view, lemma_items_view, str_opt};
use crate::text::{join, join_strings, owned, strings_view};

verus! {

/// The config option carries the approval mode: its category or its id is
/// `mode`, and it has a current value.
pub open spec fn current_mode_in(options: Seq<JsonValue>) -> Option<Seq<char>>
    decreases options.len(),
{
    if options.len() == 0 {
        None
    } else {
        let o = options[0];
        if (o.str_field("category"@) == Some("mode"@) || o.str_field("id"@) == Some("mode"@))
            && o.str_field("currentValue"@) is Some {
            o.str_field("currentValue"@)
        } else {
            current_mode_in(options.drop_first())
        }
    }
}

/// `label` followed by the value, when there is one.
pub open spec fn labelled(label: Seq<char>, value: Option<Seq<char>>) -> Seq<Seq<char>> {
    match value {
        Some(v) => seq![label + v],
        None => Seq::empty(),
    }
}

/// The parts of a response summary: the session id, the current config
/// mode and the current session mode, each where the result has it.
pub open spec fn summary_parts(result: JsonValue) -> Seq<Seq<char>> {
    let session = result.str_field("sessionId"@);
    let config_mode = match result.array_field("configOptions"@) {
        Some(options) => current_mode_in(options),
        None => None,
    };
    let session_mode = match result.field("modes"@) {
        Some(modes) => modes.str_field("currentModeId"@),
        None => None,
    };
    labelled("sessionId="@, session) + labelled("configMode="@, config_mode) + labelled(
        "mode="@,
        session_mode,
    )
}

/// The summary of a response result: its parts separated by commas, or `ok`
/// when it has none.
pub open spec fn result_summary(result: JsonValue) -> Seq<char> {
    let parts = summary_parts(result);
    if parts.len() == 0 {
        "ok"@
    } else {
        join(parts, ", "@)
    }
}

fn find_current_mode(options: &Vec<Json>) -> (r: Option<&str>)
    ensures
        str_opt(r, current_mode_in(items_view(options@))),
{
    let ghost items = items_view(options@);
    proof {
        lemma_items_view(options@);
    }
    let n = options.len();
    let mut i: usize = 0;
    assert(items.skip(0) =~= items);
    while i < n
        invariant
            n == options@.len(),
            items == items_view(options@),
            items.len() == n,
            forall|k: int| 0 <= k < n ==> #[trigger] items[k] == options@[k]@,
            i <= n,
            current_mode_in(items) == current_mode_in(items.skip(i as int)),
        decreases n - i,
    {
        assert(items.skip(i as int).drop_first() =~= items.skip(i + 1));
        assert(items.skip(i as int)[0] == items[i as int]);
        let o = &options[i];
        let category_is_mode = match o.get_str("category") {
            Some(c) => crate::text::str_eq(c, "mode"),
            None => false,
        };
        let id_is_mode = match o.get_str("id") {
            Some(c) => crate::text::str_eq(c, "mode"),
            None => false,
        };
        if category_is_mode || id_is_mode {
            proof {
                reveal_strlit("mode");
            }
            match o.get_str("currentValue") {
                Some(v) => {
                    return Some(v);
                },
                None => {},
            }
        }
        i = i + 1;
    }
    None
}

fn push_labelled(parts: &mut Vec<String>, label: &str, value: Option<&str>)
    ensures
        strings_view(final(parts)@) == strings_view(old(parts)@) + labelled(
            label@,
            match value {
                Some(v) => Some(v@),
                None => None,
            },
        ),
{
    let ghost before = parts@;
    match value {
        Some(v) => {
            let mut s = owned(label);
            s.append(v);
            parts.push(s);
            assert(strings_view(parts@) =~= strings_view(before) + seq![label@ + v@]);
        },
        None => {
            assert(strings_view(parts@) =~= strings_view(before) + Seq::<Seq<char>>::empty());
        },
    }
}

/// The summary of a response result that the log shows.
pub fn response_result_summary(result: &Json) -> (r: String)
    ensures
        r@ == result_summary(result@),
{
    let session = result.get_str("sessionId");
    let config_mode = match result.get_array("configOptions") {
        Some(options) => find_current_mode(options),
        None => None,
    };
    let session_mode = match result.get("modes") {
        Some(modes) => modes.get_str("currentModeId"),
        None => None,
    };
    let mut parts: Vec<String> = Vec::new();
    assert(strings_view(parts@) =~= Seq::<Seq<char>>::empty());
    push_labelled(&mut parts, "sessionId=", session);
    push_labelled(&mut parts, "configMode=", config_mode);
    push_labelled(&mut parts, "mode=", session_mode);
    if parts.len() == 0 {
        owned("ok")
    } else {
        join_strings(&parts, ", ")
    }
}

/// `params.update.sessionUpdate` as a string.
pub open spec fn update_kind_of(params: Option<JsonValue>) -> Option<Seq<char>> {
    match params {
        Some(p) => match p.field("update"@) {
            Some(u) => u.str_field("sessionUpdate"@),
            None => None,
        },
        None => None,
    }
}

/// `params.update.toolCall.<key>` as a string.
pub open spec fn tool_call_field(params: Option<JsonValue>, key: Seq<char>) -> Option<Seq<char>> {
    match params {
        Some(p) => match p.field("update"@) {
            Some(u) => match u.field("toolCall"@) {
                Some(t) => t.str_field(key),
                None => None,
            },
            None => None,
        },
        None => None,
    }
}

/// The kind of session update a notification carries.
pub fn notification_update_kind(params: Option<&Json>) -> (r: Option<&str>)
    ensures
        str_opt(
            r,
            update_kind_of(
                match params {
                    Some(p) => Some(p@),
                    None => None,
                },
            ),
        ),
{
    match params {
        Some(p) => match p.get("update") {
            Some(u) => u.get_str("sessionUpdate"),
            None => None,
        },
        None => None,
    }
}

fn tool_call_str<'a>(params: Option<&'a Json>, key: &str) -> (r: Option<&'a str>)
    ensures
        str_opt(
            r,
            tool_call_field(
                match params {
                    Some(p) => Some(p@),
                    None => None,
                },
                key@,
            ),
        ),
{
    match params {
        Some(p) => match p.get("update") {
            Some(u) => match u.get("toolCall") {
                Some(t) => t.get_str(key),
                None => None,
            },
            None => None,
        },
        None => None,
    }
}

/// The kind of the tool call a notification reports.
pub fn notification_tool_kind(params: Option<&Json>) -> (r: Option<&str>)
    ensures
        str_opt(
            r,
            tool_call_field(
                match params {
                    Some(p) => Some(p@),
                    None => None,
                },
                "kind"@,
            ),
        ),
{
    tool_call_str(params, "kind")
}

/// The status of the tool call a notification reports.
pub fn notification_tool_status(params: Option<&Json>) -> (r: Option<&str>)
    ensures
        str_opt(
            r,
            tool_call_field(
                match params {
                    Some(p) => Some(p@),
                    None => None,
                },
                "status"@,
            ),
        ),
{
    tool_call_str(params, "status")
}

/// The config option names the approval mode (by category or id) and has a
/// current value.
pub open spec fn reports_mode(o: JsonValue) -> bool {
    &&& (o.str_field("category"@) == Some("mode"@) || o.str_field("id"@) == Some("mode"@))
    &&& o.str_field("currentValue"@) is Some
}

/// Law: the config mode in a summary is the current value of the first
/// option that names the approval mode and has a current value; there is
/// none only when no option does.
pub proof fn law_first_reported_mode_is_summarized(options: Seq<JsonValue>)
    ensures
        current_mode_in(options) matches Some(v) ==> exists|k: int|
            0 <= k < options.len() && reports_mode(options[k]) && options[k].str_field(
                "currentValue"@,
            ) == Some(v) && forall|j: int| 0 <= j < k ==> !#[trigger] reports_mode(options[j]),
        current_mode_in(options) is None ==> forall|k: int|
            0 <= k < options.len() ==> !#[trigger] reports_mode(options[k]),
    decreases options.len(),
{
    if options.len() > 0 {
        let rest = options.drop_first();
        law_first_reported_mode_is_summarized(rest);
        if !reports_mode(options[0]) {
            if let Some(v) = current_mode_in(options) {
                let k = choose|k: int|
                    0 <= k < rest.len() && reports_mode(rest[k]) && rest[k].str_field(
                        "currentValue"@,
                    ) == Some(v) && forall|j: int| 0 <= j < k ==> !#[trigger] reports_mode(rest[j]);
                assert(options[k + 1] == rest[k]);
                assert forall|j: int| 0 <= j < k + 1 implies !#[trigger] reports_mode(options[j]) by {
                    if j > 0 {
                        assert(options[j] == rest[j - 1]);
                    }
                }
            } else {
                assert forall|k: int| 0 <= k < options.len() implies !#[trigger] reports_mode(
                    options[k],
                ) by {
                    if k > 0 {
                        assert(options[k] == rest[k - 1]);
                    }
                }
            }
        }
    }
}

/// Law: a summary lists the session id, then the config mode, then the
/// session mode, each exactly when the result has it, and is `ok` only
/// when it has none of them.
pub proof fn law_summary_lists_what_the_result_settled(result: JsonValue)
    ensures
        (summary_parts(result).len() == 0) == ({
            &&& result.str_field("sessionId"@) is None
            &&& match result.array_field("configOptions"@) {
                Some(options) => current_mode_in(options) is None,
                None => true,
            }
            &&& match result.field("modes"@) {
                Some(modes) => modes.str_field("currentModeId"@) is None,
                None => true,
            }
        }),
        summary_parts(result).len() == 0 ==> result_summary(result) == "ok"@,
        result.str_field("sessionId"@) matches Some(s) ==> summary_parts(result)[0]
            == "sessionId="@ + s,
{
}

} // verus!
