//! Requests that the agent sends to the editor while a turn runs: tool-call
//! permission (`session/request_permission`), legacy approval
//! (`agent/approval`) and anything else, which is refused.
//!
//! The editor asks the user a yes/no question for the first two and answers
//! with the option or decision that the answer selects.
use vstd::prelude::*;
use crate::acp::JsonRpcInboundRequest;
use crate::json::{
    Json, JsonNumber, JsonValue, NumberValue, entries_view, items_view, json_str, lemma_items_view,
    new_entries, push_entry,
};
use crate::text::{
    ascii_lower, contains_seq, is_blank, join, join_strings, owned, starts_with, str_ascii_lower,
    str_contains, str_eq, str_starts_with, strings_view, trim, trimmed,
};

verus! {

/// `o.unwrap_or(d)` on characters.
pub open spec fn str_or(o: Option<Seq<char>>, d: Seq<char>) -> Seq<char> {
    match o {
        Some(s) => s,
        None => d,
    }
}

/// The id of a permission option: its `optionId`, or, when it has no
/// `optionId` member, its `option_id`; only a string counts.
pub open spec fn option_id_of(option: JsonValue) -> Option<Seq<char>> {
    match option.field("optionId"@) {
        Some(v) => v.str_value(),
        None => option.str_field("option_id"@),
    }
}

/// The option allows the tool call: its kind starts with `allow` or its name
/// mentions `allow` in any ASCII case.
pub open spec fn option_is_allow(option: JsonValue) -> bool {
    let kind = str_or(option.str_field("kind"@), Seq::empty());
    let name = ascii_lower(str_or(option.str_field("name"@), Seq::empty()));
    starts_with(kind, "allow"@) || contains_seq(name, "allow"@)
}

/// The option rejects the tool call: its kind starts with `reject` or its
/// name mentions `deny` or `reject` in any ASCII case.
pub open spec fn option_is_reject(option: JsonValue) -> bool {
    let kind = str_or(option.str_field("kind"@), Seq::empty());
    let name = ascii_lower(str_or(option.str_field("name"@), Seq::empty()));
    starts_with(kind, "reject"@) || contains_seq(name, "deny"@) || contains_seq(name, "reject"@)
}

/// The id of the first option of the wanted sort that has an id.
pub open spec fn choice_in(options: Seq<JsonValue>, allow: bool) -> Option<Seq<char>>
    decreases options.len(),
{
    if options.len() == 0 {
        None
    } else {
        let o = options[0];
        let wanted = if allow {
            option_is_allow(o)
        } else {
            option_is_reject(o)
        };
        if wanted && option_id_of(o) is Some {
            option_id_of(o)
        } else {
            choice_in(options.drop_first(), allow)
        }
    }
}

/// The `options` array of permission parameters, empty when there is none.
pub open spec fn permission_options(params: JsonValue) -> Seq<JsonValue> {
    match params.array_field("options"@) {
        Some(o) => o,
        None => Seq::empty(),
    }
}

/// The option ids that a yes and a no select: the first allowing option
/// (else the first option's id, else `allow`) and the first rejecting option
/// (else `deny`).
pub open spec fn permission_choices(params: JsonValue) -> (Seq<char>, Seq<char>) {
    let options = permission_options(params);
    let first_id = if options.len() > 0 {
        option_id_of(options[0])
    } else {
        None
    };
    let allow = match choice_in(options, true) {
        Some(a) => a,
        None => str_or(first_id, "allow"@),
    };
    let reject = str_or(choice_in(options, false), "deny"@);
    (allow, reject)
}

/// The tool call of permission parameters: `toolCall`, or `tool_call` when
/// there is no `toolCall` member.
pub open spec fn tool_call_of(params: JsonValue) -> Option<JsonValue> {
    match params.field("toolCall"@) {
        Some(t) => Some(t),
        None => params.field("tool_call"@),
    }
}

/// A string member of the tool call.
pub open spec fn tool_call_str(params: Option<JsonValue>, key: Seq<char>) -> Option<Seq<char>> {
    match params {
        Some(p) => match tool_call_of(p) {
            Some(t) => t.str_field(key),
            None => None,
        },
        None => None,
    }
}

/// The question asked for a permission request: the title of `toolCall`,
/// else that of `tool_call`, else a generic question.
pub open spec fn permission_prompt_title(params: JsonValue) -> Seq<char> {
    let from_camel = match params.field("toolCall"@) {
        Some(t) => t.str_field("title"@),
        None => None,
    };
    let from_snake = match params.field("tool_call"@) {
        Some(t) => t.str_field("title"@),
        None => None,
    };
    match from_camel {
        Some(t) => t,
        None => str_or(from_snake, "Approve agent tool call?"@),
    }
}

/// Wraps the id of a permission option.
pub fn acp_permission_option_id(option: &Json) -> (r: Option<String>)
    ensures
        match r {
            Some(s) => option_id_of(option@) == Some(s@),
            None => option_id_of(option@) is None,
        },
{
    let v = match option.get("optionId") {
        Some(v) => v.as_str(),
        None => option.get_str("option_id"),
    };
    match v {
        Some(s) => Some(owned(s)),
        None => None,
    }
}

fn str_member_or_empty(option: &Json, key: &str) -> (r: String)
    ensures
        r@ == str_or(option@.str_field(key@), Seq::empty()),
{
    match option.get_str(key) {
        Some(s) => owned(s),
        None => String::new(),
    }
}

fn option_wanted(option: &Json, allow: bool) -> (r: bool)
    ensures
        r == if allow {
            option_is_allow(option@)
        } else {
            option_is_reject(option@)
        },
{
    let kind = str_member_or_empty(option, "kind");
    let raw_name = str_member_or_empty(option, "name");
    let name = str_ascii_lower(raw_name.as_str());
    if allow {
        str_starts_with(kind.as_str(), "allow") || str_contains(name.as_str(), "allow")
    } else {
        str_starts_with(kind.as_str(), "reject") || str_contains(name.as_str(), "deny")
            || str_contains(name.as_str(), "reject")
    }
}

/// The id of the first option of the wanted sort that has one.
pub fn acp_permission_option(options: &Vec<Json>, allow: bool) -> (r: Option<String>)
    ensures
        match r {
            Some(s) => choice_in(items_view(options@), allow) == Some(s@),
            None => choice_in(items_view(options@), allow) is None,
        },
{
    proof {
        lemma_items_view(options@);
    }
    let ghost ov = items_view(options@);
    let n = options.len();
    let mut i: usize = 0;
    assert(ov.subrange(0, n as int) =~= ov);
    while i < n
        invariant
            n == options@.len(),
            ov == items_view(options@),
            ov.len() == n,
            forall|k: int| 0 <= k < n ==> #[trigger] ov[k] == options@[k]@,
            i <= n,
            choice_in(ov, allow) == choice_in(ov.subrange(i as int, n as int), allow),
        decreases n - i,
    {
        let ghost rest = ov.subrange(i as int, n as int);
        assert(rest[0] == options@[i as int]@);
        assert(rest.drop_first() =~= ov.subrange(i + 1, n as int));
        if option_wanted(&options[i], allow) {
            let id = acp_permission_option_id(&options[i]);
            if id.is_some() {
                return id;
            }
        }
        i = i + 1;
    }
    None
}

/// The option ids that a yes and a no select.
pub fn acp_permission_choices(params: &Json) -> (r: (String, String))
    ensures
        (r.0@, r.1@) == permission_choices(params@),
{
    let empty: Vec<Json> = Vec::new();
    let options = match params.get_array("options") {
        Some(o) => o,
        None => &empty,
    };
    proof {
        lemma_items_view(options@);
    }
    let allow = match acp_permission_option(options, true) {
        Some(a) => a,
        None => {
            let first = if options.len() > 0 {
                acp_permission_option_id(&options[0])
            } else {
                None
            };
            match first {
                Some(a) => a,
                None => owned("allow"),
            }
        },
    };
    let reject = match acp_permission_option(options, false) {
        Some(r) => r,
        None => owned("deny"),
    };
    (allow, reject)
}

fn tool_call<'a>(params: &'a Json) -> (r: Option<&'a Json>)
    ensures
        match r {
            Some(t) => tool_call_of(params@) == Some(t@),
            None => tool_call_of(params@) is None,
        },
{
    match params.get("toolCall") {
        Some(t) => Some(t),
        None => params.get("tool_call"),
    }
}

/// The title of the tool call, for the log.
pub fn permission_title(params: Option<&Json>) -> (r: Option<&str>)
    ensures
        match r {
            Some(s) => tool_call_str(
                match params {
                    Some(p) => Some(p@),
                    None => None,
                },
                "title"@,
            ) == Some(s@),
            None => tool_call_str(
                match params {
                    Some(p) => Some(p@),
                    None => None,
                },
                "title"@,
            ) is None,
        },
{
    match params {
        Some(p) => match tool_call(p) {
            Some(t) => t.get_str("title"),
            None => None,
        },
        None => None,
    }
}

/// The kind of the tool call, for the log.
pub fn permission_kind(params: Option<&Json>) -> (r: Option<&str>)
    ensures
        match r {
            Some(s) => tool_call_str(
                match params {
                    Some(p) => Some(p@),
                    None => None,
                },
                "kind"@,
            ) == Some(s@),
            None => tool_call_str(
                match params {
                    Some(p) => Some(p@),
                    None => None,
                },
                "kind"@,
            ) is None,
        },
{
    match params {
        Some(p) => match tool_call(p) {
            Some(t) => t.get_str("kind"),
            None => None,
        },
        None => None,
    }
}

/// `id:kind` for each option with an id, the kind being `unknown` when absent.
pub open spec fn option_summaries(options: Seq<JsonValue>) -> Seq<Seq<char>>
    decreases options.len(),
{
    if options.len() == 0 {
        Seq::empty()
    } else {
        let front = option_summaries(options.drop_last());
        let o = options.last();
        match option_id_of(o) {
            Some(id) => front.push(id + ":"@ + str_or(o.str_field("kind"@), "unknown"@)),
            None => front,
        }
    }
}

/// The options of a permission request as `id:kind` pairs, for the log.
pub open spec fn option_summary(params: Option<JsonValue>) -> Seq<char> {
    match params {
        Some(p) => match p.array_field("options"@) {
            Some(options) => join(option_summaries(options), ", "@),
            None => "[]"@,
        },
        None => "[]"@,
    }
}

/// The options of a permission request as `id:kind` pairs, for the log.
pub fn permission_option_summary(params: Option<&Json>) -> (r: String)
    ensures
        r@ == option_summary(
            match params {
                Some(p) => Some(p@),
                None => None,
            },
        ),
{
    let options = match params {
        Some(p) => match p.get_array("options") {
            Some(o) => o,
            None => return owned("[]"),
        },
        None => return owned("[]"),
    };
    proof {
        lemma_items_view(options@);
    }
    let mut parts: Vec<String> = Vec::new();
    let n = options.len();
    let mut i: usize = 0;
    while i < n
        invariant
            n == options@.len(),
            items_view(options@).len() == n,
            forall|k: int| 0 <= k < n ==> #[trigger] items_view(options@)[k] == options@[k]@,
            i <= n,
            strings_view(parts@) == option_summaries(items_view(options@).subrange(0, i as int)),
        decreases n - i,
    {
        let ghost front = items_view(options@).subrange(0, i as int);
        let ghost next = items_view(options@).subrange(0, i + 1);
        assert(next.drop_last() =~= front);
        assert(next.last() == options@[i as int]@);
        let option = &options[i];
        match acp_permission_option_id(option) {
            Some(id) => {
                let mut item = id;
                item.append(":");
                match option.get_str("kind") {
                    Some(k) => item.append(k),
                    None => item.append("unknown"),
                }
                parts.push(item);
                assert(strings_view(parts@) =~= strings_view(parts@).drop_last().push(
                    parts@.last()@,
                ));
                assert(strings_view(parts@).drop_last() =~= option_summaries(front));
            },
            None => {},
        }
        i = i + 1;
    }
    assert(items_view(options@).subrange(0, n as int) =~= items_view(options@));
    join_strings(&parts, ", ")
}

/// A value shown in the permission question: text as it is, or JSON that
/// is shown pretty-printed.
#[derive(Debug)]
pub enum BodyValue {
    Text(String),
    Pretty(Json),
}

/// What the permission question shows below its title: one JSON value
/// pretty-printed, or labelled sections separated by blank lines.
#[derive(Debug)]
pub enum PermissionBody {
    Whole(Json),
    Sections(Vec<(&'static str, BodyValue)>),
}

/// The model of a [`BodyValue`].
pub enum BodyValueView {
    Text(Seq<char>),
    Pretty(JsonValue),
}

/// The model of a [`BodyValue`].
pub open spec fn body_value_view(b: BodyValue) -> BodyValueView {
    match b {
        BodyValue::Text(t) => BodyValueView::Text(t@),
        BodyValue::Pretty(j) => BodyValueView::Pretty(j@),
    }
}

/// The model of labelled sections.
pub open spec fn sections_view(v: Seq<(&'static str, BodyValue)>) -> Seq<(Seq<char>, BodyValueView)> {
    v.map_values(|e: (&'static str, BodyValue)| (e.0@, body_value_view(e.1)))
}

/// A one-section list when the value is there.
pub open spec fn section(label: Seq<char>, value: Option<BodyValueView>) -> Seq<
    (Seq<char>, BodyValueView),
> {
    match value {
        Some(v) => seq![(label, v)],
        None => Seq::empty(),
    }
}

/// The sections that describe a tool call: its kind, its content as
/// details, and its raw input (`rawInput`, else `raw_input`), each where the
/// tool call has it.
pub open spec fn tool_call_sections(t: JsonValue) -> Seq<(Seq<char>, BodyValueView)> {
    let kind = match t.str_field("kind"@) {
        Some(k) => Some(BodyValueView::Text(k)),
        None => None,
    };
    let details = match t.field("content"@) {
        Some(c) => Some(BodyValueView::Pretty(c)),
        None => None,
    };
    let input = match t.field("rawInput"@) {
        Some(x) => Some(BodyValueView::Pretty(x)),
        None => match t.field("raw_input"@) {
            Some(x) => Some(BodyValueView::Pretty(x)),
            None => None,
        },
    };
    section("Kind"@, kind) + section("Details"@, details) + section("Input"@, input)
}

/// `b` is the body of the permission question for `params`: the whole
/// parameters without a tool call; the tool call's sections when it has
/// any; else the whole tool call.
pub open spec fn permission_body_of(b: PermissionBody, params: JsonValue) -> bool {
    match tool_call_of(params) {
        None => b matches PermissionBody::Whole(j) && j@ == params,
        Some(t) => if tool_call_sections(t).len() == 0 {
            b matches PermissionBody::Whole(j) && j@ == t
        } else {
            b matches PermissionBody::Sections(v) && sections_view(v@) == tool_call_sections(t)
        },
    }
}

fn push_section(v: &mut Vec<(&'static str, BodyValue)>, label: &'static str, value: BodyValue)
    ensures
        sections_view(final(v)@) == sections_view(old(v)@) + seq![(label@, body_value_view(value))],
{
    let ghost before = v@;
    v.push((label, value));
    assert(sections_view(v@) =~= sections_view(before) + seq![(label@, body_value_view(value))]);
}

/// Plans the body of the permission question for the request parameters.
pub fn permission_body(params: &Json) -> (r: PermissionBody)
    ensures
        permission_body_of(r, params@),
{
    let tool_call = match params.get("toolCall") {
        Some(t) => t,
        None => match params.get("tool_call") {
            Some(t) => t,
            None => return PermissionBody::Whole(params.deep_copy()),
        },
    };
    let mut sections: Vec<(&'static str, BodyValue)> = Vec::new();
    assert(sections_view(sections@) =~= Seq::<(Seq<char>, BodyValueView)>::empty());
    proof {
        reveal_strlit("Kind");
        reveal_strlit("Details");
        reveal_strlit("Input");
    }
    match tool_call.get_str("kind") {
        Some(k) => push_section(&mut sections, "Kind", BodyValue::Text(owned(k))),
        None => {},
    }
    match tool_call.get("content") {
        Some(c) => push_section(&mut sections, "Details", BodyValue::Pretty(c.deep_copy())),
        None => {},
    }
    let input = match tool_call.get("rawInput") {
        Some(x) => Some(x),
        None => tool_call.get("raw_input"),
    };
    match input {
        Some(x) => push_section(&mut sections, "Input", BodyValue::Pretty(x.deep_copy())),
        None => {},
    }
    assert(sections_view(sections@) =~= tool_call_sections(tool_call@));
    if sections.len() == 0 {
        PermissionBody::Whole(tool_call.deep_copy())
    } else {
        PermissionBody::Sections(sections)
    }
}

/// The text of labelled sections: each label, a colon, a newline and the
/// text, separated by blank lines.
pub open spec fn sections_text(sections: Seq<(String, String)>) -> Seq<char> {
    join(sections.map_values(|e: (String, String)| e.0@ + ":\n"@ + e.1@), "\n\n"@)
}

/// Renders labelled sections, their values already shown as text.
pub fn render_body_sections(sections: &Vec<(String, String)>) -> (r: String)
    ensures
        r@ == sections_text(sections@),
{
    let mut r = String::new();
    let n = sections.len();
    let mut i: usize = 0;
    while i < n
        invariant
            n == sections@.len(),
            i <= n,
            r@ == sections_text(sections@.subrange(0, i as int)),
        decreases n - i,
    {
        let ghost before = sections@.subrange(0, i as int).map_values(
            |e: (String, String)| e.0@ + ":\n"@ + e.1@,
        );
        let ghost after = sections@.subrange(0, i + 1).map_values(
            |e: (String, String)| e.0@ + ":\n"@ + e.1@,
        );
        assert(after.drop_last() =~= before);
        if i > 0 {
            r.append("\n\n");
        }
        r.append(sections[i].0.as_str());
        r.append(":\n");
        r.append(sections[i].1.as_str());
        assert(r@ =~= join(after, "\n\n"@));
        i = i + 1;
    }
    assert(sections@.subrange(0, n as int) =~= sections@);
    r
}

/// How the editor handles a request from the agent.
#[derive(Debug)]
pub enum AgentRequestAction {
    /// Ask whether to allow the tool call; answer with the allow or the reject option.
    Permission { id: Json, title: String, params: Json, allow_option: String, reject_option: String },
    /// Ask whether to accept the action; answer `accept` or `decline`.
    Approval { id: Json, title: String, body: String },
    /// Answer at once with this response.
    Reply(Json),
}

/// The response that selects a permission option.
pub open spec fn permission_response_value(id: JsonValue, option_id: Seq<char>) -> JsonValue {
    let outcome = JsonValue::Object(
        Seq::empty().push(("outcome"@, JsonValue::Str("selected"@))).push(
            ("optionId"@, JsonValue::Str(option_id)),
        ),
    );
    JsonValue::Object(
        Seq::empty().push(("jsonrpc"@, JsonValue::Str("2.0"@))).push(("id"@, id)).push(
            ("result"@, JsonValue::Object(Seq::empty().push(("outcome"@, outcome)))),
        ),
    )
}

/// The response that gives a legacy approval decision.
pub open spec fn approval_response_value(id: JsonValue, decision: Seq<char>) -> JsonValue {
    JsonValue::Object(
        Seq::empty().push(("jsonrpc"@, JsonValue::Str("2.0"@))).push(("id"@, id)).push(
            (
                "result"@,
                JsonValue::Object(Seq::empty().push(("decision"@, JsonValue::Str(decision)))),
            ),
        ),
    )
}

/// The error response to a request the editor does not support.
pub open spec fn unsupported_response_value(id: JsonValue, method: Seq<char>) -> JsonValue {
    let error = JsonValue::Object(
        Seq::empty().push(("code"@, JsonValue::Number(NumberValue::NegInt(-32601i64)))).push(
            ("message"@, JsonValue::Str("unsupported agent request: "@ + method)),
        ),
    );
    JsonValue::Object(
        Seq::empty().push(("jsonrpc"@, JsonValue::Str("2.0"@))).push(("id"@, id)).push(
            ("error"@, error),
        ),
    )
}

/// The response that selects a permission option.
pub fn permission_response(id: Json, option_id: String) -> (r: Json)
    ensures
        r@ == permission_response_value(id@, option_id@),
{
    let mut outcome = new_entries();
    push_entry(&mut outcome, "outcome", json_str("selected"));
    push_entry(&mut outcome, "optionId", Json::String(option_id));
    let mut result = new_entries();
    push_entry(&mut result, "outcome", Json::Object(outcome));
    let mut e = new_entries();
    push_entry(&mut e, "jsonrpc", json_str("2.0"));
    push_entry(&mut e, "id", id);
    push_entry(&mut e, "result", Json::Object(result));
    Json::Object(e)
}

/// The response that gives a legacy approval decision.
pub fn approval_response(id: Json, decision: &str) -> (r: Json)
    ensures
        r@ == approval_response_value(id@, decision@),
{
    let mut result = new_entries();
    push_entry(&mut result, "decision", json_str(decision));
    let mut e = new_entries();
    push_entry(&mut e, "jsonrpc", json_str("2.0"));
    push_entry(&mut e, "id", id);
    push_entry(&mut e, "result", Json::Object(result));
    Json::Object(e)
}

/// The error response to an unsupported request.
pub fn unsupported_request_response(id: Json, method: &str) -> (r: Json)
    ensures
        r@ == unsupported_response_value(id@, method@),
{
    let mut message = owned("unsupported agent request: ");
    message.append(method);
    let mut error = new_entries();
    push_entry(&mut error, "code", Json::Number(JsonNumber::NegInt(-32601)));
    push_entry(&mut error, "message", Json::String(message));
    let mut e = new_entries();
    push_entry(&mut e, "jsonrpc", json_str("2.0"));
    push_entry(&mut e, "id", id);
    push_entry(&mut e, "error", Json::Object(error));
    Json::Object(e)
}

/// The parameters of a request, `null` when absent.
pub open spec fn params_or_null(params: Option<Json>) -> JsonValue {
    match params {
        Some(p) => p@,
        None => JsonValue::Null,
    }
}

/// `r` is how the editor handles `request`: a permission question for
/// `session/request_permission`, an approval question for `agent/approval`,
/// and an error reply for any other method.
pub open spec fn action_for(request: JsonRpcInboundRequest, r: AgentRequestAction) -> bool {
    if request.method@ == "session/request_permission"@ {
        r matches AgentRequestAction::Permission {
            id,
            title,
            params,
            allow_option,
            reject_option,
        } && id@ == request.id@ && params@ == params_or_null(request.params) && title@
            == permission_prompt_title(params@) && (allow_option@, reject_option@)
            == permission_choices(params@)
    } else if request.method@ == "agent/approval"@ {
        r matches AgentRequestAction::Approval { id, title, body } && id@ == request.id@
            && title@ == str_or(
            params_or_null(request.params).str_field("title"@),
            "Approve agent action?"@,
        ) && body@ == str_or(params_or_null(request.params).str_field("body"@), Seq::empty())
    } else {
        r matches AgentRequestAction::Reply(reply) && reply@ == unsupported_response_value(
            request.id@,
            request.method@,
        )
    }
}

/// Decides how to handle a request from the agent, by its method.
pub fn agent_request_action(request: JsonRpcInboundRequest) -> (r: AgentRequestAction)
    ensures
        action_for(request, r),
{
    let JsonRpcInboundRequest { jsonrpc: _, id, method, params } = request;
    let params = match params {
        Some(p) => p,
        None => Json::Null,
    };
    if str_eq(method.as_str(), "session/request_permission") {
        let title = {
            let from_camel = match params.get("toolCall") {
                Some(t) => t.get_str("title"),
                None => None,
            };
            match from_camel {
                Some(t) => owned(t),
                None => {
                    let from_snake = match params.get("tool_call") {
                        Some(t) => t.get_str("title"),
                        None => None,
                    };
                    match from_snake {
                        Some(t) => owned(t),
                        None => owned("Approve agent tool call?"),
                    }
                },
            }
        };
        let (allow_option, reject_option) = acp_permission_choices(&params);
        AgentRequestAction::Permission { id, title, params, allow_option, reject_option }
    } else if str_eq(method.as_str(), "agent/approval") {
        let title = match params.get_str("title") {
            Some(t) => owned(t),
            None => owned("Approve agent action?"),
        };
        let body = match params.get_str("body") {
            Some(b) => owned(b),
            None => String::new(),
        };
        AgentRequestAction::Approval { id, title, body }
    } else {
        AgentRequestAction::Reply(unsupported_request_response(id, method.as_str()))
    }
}

/// The response to send once the user answered (`true` for yes).
pub fn answer_agent_request(action: AgentRequestAction, accepted: bool) -> (r: Json)
    ensures
        match action {
            AgentRequestAction::Permission { id, allow_option, reject_option, .. } => r@
                == permission_response_value(
                id@,
                if accepted {
                    allow_option@
                } else {
                    reject_option@
                },
            ),
            AgentRequestAction::Approval { id, .. } => r@ == approval_response_value(
                id@,
                if accepted {
                    "accept"@
                } else {
                    "decline"@
                },
            ),
            AgentRequestAction::Reply(reply) => r == reply,
        },
{
    match action {
        AgentRequestAction::Permission { id, allow_option, reject_option, .. } => {
            permission_response(
                id,
                if accepted {
                    allow_option
                } else {
                    reject_option
                },
            )
        },
        AgentRequestAction::Approval { id, .. } => {
            approval_response(
                id,
                if accepted {
                    "accept"
                } else {
                    "decline"
                },
            )
        },
        AgentRequestAction::Reply(reply) => reply,
    }
}

/// The yes/no question shown to the user.
pub fn yes_no_prompt(title: &str) -> (r: String)
    ensures
        r@ == title@ + " [y/N] "@,
{
    let mut r = owned(title);
    r.append(" [y/N] ");
    r
}

/// The user's answer means yes: `y` or `yes` in any ASCII case, with
/// surrounding whitespace ignored.
pub open spec fn affirmative(input: Seq<char>) -> bool {
    let a = ascii_lower(trim(input));
    a == "y"@ || a == "yes"@
}

/// Reads the user's answer to a yes/no question.
pub fn is_affirmative(input: &str) -> (r: bool)
    ensures
        r == affirmative(input@),
{
    let t = trimmed(input);
    let a = str_ascii_lower(t.as_str());
    str_eq(a.as_str(), "y") || str_eq(a.as_str(), "yes")
}

/// The option is of the wanted sort (allowing or rejecting) and has an id.
pub open spec fn selectable(option: JsonValue, allow: bool) -> bool {
    &&& if allow {
        option_is_allow(option)
    } else {
        option_is_reject(option)
    }
    &&& option_id_of(option) is Some
}

/// Law: the option chosen for a yes (or a no) is the first one, in the
/// agent's order, that allows (or rejects) and has an id: it is at some
/// position `k`, is selectable there, and no option before `k` is; nothing
/// is chosen only when no option is selectable.
pub proof fn law_first_selectable_option_is_chosen(options: Seq<JsonValue>, allow: bool)
    ensures
        choice_in(options, allow) matches Some(id) ==> exists|k: int|
            0 <= k < options.len() && selectable(options[k], allow) && option_id_of(options[k])
                == Some(id) && forall|j: int| 0 <= j < k ==> !#[trigger] selectable(
                options[j],
                allow,
            ),
        choice_in(options, allow) is None ==> forall|k: int|
            0 <= k < options.len() ==> !#[trigger] selectable(options[k], allow),
    decreases options.len(),
{
    if options.len() > 0 {
        let rest = options.drop_first();
        law_first_selectable_option_is_chosen(rest, allow);
        if selectable(options[0], allow) {
            assert(choice_in(options, allow) == option_id_of(options[0]));
        } else {
            assert(choice_in(options, allow) == choice_in(rest, allow));
            if let Some(id) = choice_in(options, allow) {
                let k = choose|k: int|
                    0 <= k < rest.len() && selectable(rest[k], allow) && option_id_of(rest[k])
                        == Some(id) && forall|j: int| 0 <= j < k ==> !#[trigger] selectable(
                        rest[j],
                        allow,
                    );
                assert(rest[k] == options[k + 1]);
                assert forall|j: int| 0 <= j < k + 1 implies !#[trigger] selectable(
                    options[j],
                    allow,
                ) by {
                    if j > 0 {
                        assert(options[j] == rest[j - 1]);
                    }
                }
            } else {
                assert forall|k: int| 0 <= k < options.len() implies !#[trigger] selectable(
                    options[k],
                    allow,
                ) by {
                    if k > 0 {
                        assert(options[k] == rest[k - 1]);
                    }
                }
            }
        }
    }
}

/// Law: a no selects the first rejecting option that has an id, and `deny`
/// when there is none; a yes selects the first allowing option that has an
/// id, else the first option's id, else `allow`.
pub proof fn law_permission_choices_follow_the_agent_order(params: JsonValue)
    ensures
        ({
            let options = permission_options(params);
            &&& (forall|k: int| 0 <= k < options.len() ==> !#[trigger] selectable(options[k], false))
                ==> permission_choices(params).1 == "deny"@
            &&& forall|k: int|
                0 <= k < options.len() && #[trigger] selectable(options[k], false) && (forall|
                    j: int,
                | 0 <= j < k ==> !selectable(options[j], false)) ==> permission_choices(params).1
                    == option_id_of(options[k])->0
            &&& forall|k: int|
                0 <= k < options.len() && #[trigger] selectable(options[k], true) && (forall|
                    j: int,
                | 0 <= j < k ==> !selectable(options[j], true)) ==> permission_choices(params).0
                    == option_id_of(options[k])->0
        }),
{
    let options = permission_options(params);
    law_first_selectable_option_is_chosen(options, false);
    law_first_selectable_option_is_chosen(options, true);
    assert forall|k: int|
        0 <= k < options.len() && #[trigger] selectable(options[k], false) && (forall|j: int|
            0 <= j < k ==> !selectable(options[j], false)) implies permission_choices(params).1
        == option_id_of(options[k])->0 by {
        let c = choice_in(options, false);
        if let Some(id) = c {
            let m = choose|m: int|
                0 <= m < options.len() && selectable(options[m], false) && option_id_of(options[m])
                    == Some(id) && forall|j: int| 0 <= j < m ==> !#[trigger] selectable(
                    options[j],
                    false,
                );
            if m < k {
                assert(!selectable(options[m], false));
            } else if m > k {
                assert(!selectable(options[k], false));
            }
        }
    }
    assert forall|k: int|
        0 <= k < options.len() && #[trigger] selectable(options[k], true) && (forall|j: int|
            0 <= j < k ==> !selectable(options[j], true)) implies permission_choices(params).0
        == option_id_of(options[k])->0 by {
        let c = choice_in(options, true);
        if let Some(id) = c {
            let m = choose|m: int|
                0 <= m < options.len() && selectable(options[m], true) && option_id_of(options[m])
                    == Some(id) && forall|j: int| 0 <= j < m ==> !#[trigger] selectable(
                    options[j],
                    true,
                );
            if m < k {
                assert(!selectable(options[m], true));
            } else if m > k {
                assert(!selectable(options[k], true));
            }
        }
    }
}

/// Law: the option summaries list, in order, one `id:kind` entry for each
/// option that has an id: a single option gives one entry exactly when it
/// has an id, and the summaries of two lists put together are those of the
/// first followed by those of the second.
pub proof fn law_option_summaries_keep_order(a: Seq<JsonValue>, b: Seq<JsonValue>, o: JsonValue)
    ensures
        option_summaries(seq![o]) == match option_id_of(o) {
            Some(id) => seq![id + ":"@ + str_or(o.str_field("kind"@), "unknown"@)],
            None => Seq::empty(),
        },
        option_summaries(a + b) == option_summaries(a) + option_summaries(b),
    decreases b.len(),
{
    assert(seq![o].drop_last() =~= Seq::<JsonValue>::empty());
    assert(seq![o].last() == o);
    assert(option_summaries(Seq::<JsonValue>::empty()) == Seq::<Seq<char>>::empty());
    match option_id_of(o) {
        Some(id) => assert(Seq::<Seq<char>>::empty().push(
            id + ":"@ + str_or(o.str_field("kind"@), "unknown"@),
        ) =~= seq![id + ":"@ + str_or(o.str_field("kind"@), "unknown"@)]),
        None => {},
    }
    if b.len() > 0 {
        assert((a + b).drop_last() =~= a + b.drop_last());
        assert((a + b).last() == b.last());
        law_option_summaries_keep_order(a, b.drop_last(), o);
        let l = b.last();
        match option_id_of(l) {
            Some(id) => assert((option_summaries(a) + option_summaries(b.drop_last())).push(
                id + ":"@ + str_or(l.str_field("kind"@), "unknown"@),
            ) =~= option_summaries(a) + option_summaries(b.drop_last()).push(
                id + ":"@ + str_or(l.str_field("kind"@), "unknown"@),
            )),
            None => {},
        }
    } else {
        assert(a + b =~= a);
        assert(option_summaries(a) + option_summaries(b) =~= option_summaries(a));
    }
}

} // verus!
