//! The subprocess client's wire model: messages, events, requests and
//! responses, and the decoding of parsed protocol lines into them.
//!
//! The child process writes newline-delimited JSON. A line carrying `id` and
//! `ok` is a response; a line carrying an `event` member is an asynchronous
//! event. Everything here decodes from [`JsonNode`] and is verified; the
//! surrounding process plumbing stays outside the library.

use vstd::prelude::*;
use crate::json::JsonNode;
use crate::json::json_of;
use crate::json::parse_json;
use crate::json::lemma_obj_get_concat;
use crate::json::lemma_obj_get_take_step;
use crate::json::spec_obj_get;
use crate::text::str_eq;

verus! {

/// One inline keyboard button as the wire carries it.
#[derive(Debug, Clone)]
pub struct TelethonButton {
    pub text: String,
    pub kind: String,
    pub data: Option<String>,
    pub url: Option<String>,
}

/// One message as the wire carries it.
#[derive(Debug)]
pub struct TelethonMessage {
    pub id: i64,
    pub chat_id: i64,
    pub sender_id: i64,
    pub text: String,
    pub is_outgoing: bool,
    pub buttons: Vec<Vec<TelethonButton>>,
}

/// One asynchronous event from the child process.
#[derive(Debug)]
pub struct TelethonEvent {
    pub kind: String,
    pub message: Option<TelethonMessage>,
}

/// One request to the child process.
#[derive(Debug)]
pub struct TelethonRequest {
    pub id: String,
    pub command: String,
    pub payload: JsonNode,
}

/// One response from the child process.
#[derive(Debug)]
pub struct TelethonResponse {
    pub id: String,
    pub ok: bool,
    pub payload: Option<JsonNode>,
    pub error: Option<String>,
}

/// The authentication state the child process reports.
#[derive(Debug, Clone)]
pub enum AuthState {
    NotStarted,
    WaitingPhoneNumber,
    WaitingCode { phone_number: String },
    WaitingPassword { password_hint: String },
    Ready { user_id: i64, first_name: String, last_name: String, phone: String },
    Error { message: String },
    Closed,
}

/// An optional string member: absent and null decode to None, a string to
/// its content; anything else refuses the whole decode.
pub open spec fn spec_opt_string(v: Option<JsonNode>) -> Option<Option<String>> {
    match v {
        None => Some(None),
        Some(JsonNode::Null) => Some(None),
        Some(JsonNode::Str(s)) => Some(Some(s)),
        Some(_) => None,
    }
}

/// An optional payload member: absent and null decode to None, anything
/// else to itself.
pub open spec fn spec_opt_payload(v: Option<JsonNode>) -> Option<JsonNode> {
    match v {
        None => None,
        Some(JsonNode::Null) => None,
        Some(p) => Some(p),
    }
}

/// What a response line decodes to: an object with a string `id`, a boolean
/// `ok`, an optional `payload` and an optional string `error`.
pub open spec fn spec_response_of(n: JsonNode) -> Option<TelethonResponse> {
    match n {
        JsonNode::Obj(fields) => {
            match (spec_obj_get(fields@, "id"@), spec_obj_get(fields@, "ok"@)) {
                (Some(JsonNode::Str(id)), Some(JsonNode::Bool(ok))) => {
                    match spec_opt_string(spec_obj_get(fields@, "error"@)) {
                        Some(error) => Some(
                            TelethonResponse {
                                id,
                                ok,
                                payload: spec_opt_payload(spec_obj_get(fields@, "payload"@)),
                                error,
                            },
                        ),
                        None => None,
                    }
                },
                _ => None,
            }
        },
        _ => None,
    }
}

/// What a button object decodes to: a string `text` and `type`, and
/// optional string `data` and `url`.
pub open spec fn spec_button_of(n: JsonNode) -> Option<TelethonButton> {
    match n {
        JsonNode::Obj(fields) => {
            match (spec_obj_get(fields@, "text"@), spec_obj_get(fields@, "type"@)) {
                (Some(JsonNode::Str(text)), Some(JsonNode::Str(kind))) => {
                    match (
                        spec_opt_string(spec_obj_get(fields@, "data"@)),
                        spec_opt_string(spec_obj_get(fields@, "url"@)),
                    ) {
                        (Some(data), Some(url)) => Some(TelethonButton { text, kind, data, url }),
                        _ => None,
                    }
                },
                _ => None,
            }
        },
        _ => None,
    }
}

/// What one button row decodes to: every element a button.
pub open spec fn spec_button_row_of(items: Seq<JsonNode>) -> Option<Seq<TelethonButton>>
    decreases items.len(),
{
    if items.len() == 0 {
        Some(Seq::empty())
    } else {
        match spec_button_row_of(items.drop_last()) {
            Some(rest) => match spec_button_of(items.last()) {
                Some(b) => Some(rest.push(b)),
                None => None,
            },
            None => None,
        }
    }
}

/// What the button grid decodes to: every element a row of buttons.
pub open spec fn spec_button_rows_of(rows: Seq<JsonNode>) -> Option<Seq<Seq<TelethonButton>>>
    decreases rows.len(),
{
    if rows.len() == 0 {
        Some(Seq::empty())
    } else {
        match spec_button_rows_of(rows.drop_last()) {
            Some(rest) => match rows.last() {
                JsonNode::Arr(items) => match spec_button_row_of(items@) {
                    Some(row) => Some(rest.push(row)),
                    None => None,
                },
                _ => None,
            },
            None => None,
        }
    }
}

/// The scalar members of a message object, when they decode: its id, chat,
/// sender, text and direction.
pub open spec fn spec_message_scalars(n: JsonNode) -> Option<(i64, i64, i64, String, bool)> {
    match n {
        JsonNode::Obj(fields) => {
            match (
                spec_obj_get(fields@, "id"@),
                spec_obj_get(fields@, "chat_id"@),
                spec_obj_get(fields@, "sender_id"@),
                spec_obj_get(fields@, "text"@),
                spec_obj_get(fields@, "is_outgoing"@),
            ) {
                (
                    Some(JsonNode::Num(Some(id))),
                    Some(JsonNode::Num(Some(chat_id))),
                    Some(JsonNode::Num(Some(sender_id))),
                    Some(JsonNode::Str(text)),
                    Some(JsonNode::Bool(is_outgoing)),
                ) => Some((id, chat_id, sender_id, text, is_outgoing)),
                _ => None,
            }
        },
        _ => None,
    }
}

/// The button grid member of a message object, when it decodes.
pub open spec fn spec_message_buttons(n: JsonNode) -> Option<Seq<Seq<TelethonButton>>> {
    match n {
        JsonNode::Obj(fields) => {
            match spec_obj_get(fields@, "buttons"@) {
                Some(JsonNode::Arr(rows)) => spec_button_rows_of(rows@),
                _ => None,
            }
        },
        _ => None,
    }
}

/// A decoded message agrees with the node: scalars by value, button rows
/// row by row.
pub open spec fn spec_message_matches(m: TelethonMessage, n: JsonNode) -> bool {
    &&& (match spec_message_scalars(n) {
        Some(s) => m.id == s.0 && m.chat_id == s.1 && m.sender_id == s.2 && m.text == s.3
            && m.is_outgoing == s.4,
        None => false,
    })
    &&& (match spec_message_buttons(n) {
        Some(rows) => m.buttons@.len() == rows.len() && (forall|i: int|
            0 <= i < rows.len() ==> (#[trigger] m.buttons@[i])@ == rows[i]),
        None => false,
    })
}

/// The message object decodes at all.
pub open spec fn spec_message_decodes(n: JsonNode) -> bool {
    spec_message_scalars(n) is Some && spec_message_buttons(n) is Some
}

impl TelethonButton {
    /// Decode a button object.
    #[verifier::loop_isolation(false)]
    pub fn decode(n: JsonNode) -> (r: Option<TelethonButton>)
        ensures
            r == spec_button_of(n),
    {
        proof {
            reveal_strlit("text");
            reveal_strlit("type");
            reveal_strlit("data");
            reveal_strlit("url");
            assert("text"@[1] != "type"@[1]);
            assert("text"@[0] != "data"@[0]);
            assert("type"@[0] != "data"@[0]);
            assert("url"@.len() != "text"@.len());
            assert("text"@ != "type"@);
            assert("text"@ != "data"@);
            assert("type"@ != "data"@);
            assert("url"@ != "text"@);
            assert("url"@ != "type"@);
            assert("url"@ != "data"@);
        }
        match n {
            JsonNode::Obj(fields) => {
                let mut text: Option<String> = None;
                let mut kind: Option<String> = None;
                let mut data: Option<JsonNode> = None;
                let mut url: Option<JsonNode> = None;
                let ghost all = fields@;
                let mut fields = fields;
                proof {
                    assert(all.take(0) =~= Seq::<(String, JsonNode)>::empty());
                }
                let ghost mut seen: int = 0;
                while fields.len() > 0
                    invariant
                        0 <= seen <= all.len(),
                        fields@ =~= all.skip(seen),
                        (match spec_obj_get(all.take(seen), "text"@) {
                            Some(JsonNode::Str(s)) => text == Some(s),
                            Some(_) => false,
                            None => text is None,
                        }),
                        (match spec_obj_get(all.take(seen), "type"@) {
                            Some(JsonNode::Str(s)) => kind == Some(s),
                            Some(_) => false,
                            None => kind is None,
                        }),
                        data == spec_obj_get(all.take(seen), "data"@),
                        url == spec_obj_get(all.take(seen), "url"@),
                    decreases fields.len(),
                {
                    let entry = fields.remove(0);
                    proof {
                        assert(entry == all[seen]);
                        lemma_obj_get_take_step(all, seen, "text"@);
                        lemma_obj_get_take_step(all, seen, "type"@);
                        lemma_obj_get_take_step(all, seen, "data"@);
                        lemma_obj_get_take_step(all, seen, "url"@);
                    }
                    if str_eq(entry.0.as_str(), "text") {
                        match (&text, entry.1) {
                            (None, JsonNode::Str(s)) => {
                                text = Some(s);
                            },
                            (None, _) => {
                                proof {
                                    lemma_obj_get_concat(
                                        all.take(seen + 1),
                                        all.skip(seen + 1),
                                        "text"@,
                                    );
                                    assert(all.take(seen + 1).add(all.skip(seen + 1)) =~= all);
                                }
                                return None;
                            },
                            (Some(_), _) => {},
                        }
                    } else if str_eq(entry.0.as_str(), "type") {
                        match (&kind, entry.1) {
                            (None, JsonNode::Str(s)) => {
                                kind = Some(s);
                            },
                            (None, _) => {
                                proof {
                                    lemma_obj_get_concat(
                                        all.take(seen + 1),
                                        all.skip(seen + 1),
                                        "type"@,
                                    );
                                    assert(all.take(seen + 1).add(all.skip(seen + 1)) =~= all);
                                }
                                return None;
                            },
                            (Some(_), _) => {},
                        }
                    } else if str_eq(entry.0.as_str(), "data") {
                        if data.is_none() {
                            data = Some(entry.1);
                        }
                    } else if str_eq(entry.0.as_str(), "url") {
                        if url.is_none() {
                            url = Some(entry.1);
                        }
                    }
                    proof {
                        seen = seen + 1;
                        assert(fields@ =~= all.skip(seen));
                    }
                }
                proof {
                    assert(all.take(all.len() as int) =~= all);
                }
                let text = match text {
                    Some(t) => t,
                    None => {
                        return None;
                    },
                };
                let kind = match kind {
                    Some(k) => k,
                    None => {
                        return None;
                    },
                };
                let data = match data {
                    None => None,
                    Some(JsonNode::Null) => None,
                    Some(JsonNode::Str(s)) => Some(s),
                    Some(_) => {
                        return None;
                    },
                };
                let url = match url {
                    None => None,
                    Some(JsonNode::Null) => None,
                    Some(JsonNode::Str(s)) => Some(s),
                    Some(_) => {
                        return None;
                    },
                };
                Some(TelethonButton { text, kind, data, url })
            },
            _ => None,
        }
    }
}



/// A decoded event agrees with the node: its kind from `type`, its message
/// member decoded when present.
pub open spec fn spec_event_matches(e: TelethonEvent, n: JsonNode) -> bool {
    &&& (match n.spec_get("type"@) {
        Some(JsonNode::Str(k)) => e.kind == k,
        _ => false,
    })
    &&& (match n.spec_get("message"@) {
        None => e.message is None,
        Some(JsonNode::Null) => e.message is None,
        Some(m_node) => e.message is Some && spec_message_matches(e.message->Some_0, m_node),
    })
}

/// The event object decodes at all.
pub open spec fn spec_event_decodes(n: JsonNode) -> bool {
    &&& (match n.spec_get("type"@) {
        Some(JsonNode::Str(_)) => true,
        _ => false,
    })
    &&& (match n.spec_get("message"@) {
        None => true,
        Some(JsonNode::Null) => true,
        Some(m_node) => spec_message_decodes(m_node),
    })
}

impl TelethonResponse {
    /// Decode a response object.
    #[verifier::loop_isolation(false)]
    pub fn decode(n: JsonNode) -> (r: Option<TelethonResponse>)
        ensures
            r == spec_response_of(n),
    {
        proof {
            reveal_strlit("id");
            reveal_strlit("ok");
            reveal_strlit("payload");
            reveal_strlit("error");
            assert("id"@.len() != "ok"@.len() || "id"@[0] != "ok"@[0]);
            assert("id"@[0] != "ok"@[0]);
            assert("id"@ != "ok"@);
            assert("payload"@.len() != "id"@.len());
            assert("payload"@.len() != "ok"@.len());
            assert("payload"@.len() != "error"@.len());
            assert("error"@.len() != "id"@.len());
            assert("error"@.len() != "ok"@.len());
            assert("payload"@ != "id"@);
            assert("payload"@ != "ok"@);
            assert("payload"@ != "error"@);
            assert("error"@ != "id"@);
            assert("error"@ != "ok"@);
        }
        match n {
            JsonNode::Obj(fields) => {
                let mut id: Option<String> = None;
                let mut ok: Option<bool> = None;
                let mut payload: Option<JsonNode> = None;
                let mut error: Option<JsonNode> = None;
                let ghost all = fields@;
                let mut fields = fields;
                proof {
                    assert(all.take(0) =~= Seq::<(String, JsonNode)>::empty());
                }
                let ghost mut seen: int = 0;
                while fields.len() > 0
                    invariant
                        0 <= seen <= all.len(),
                        fields@ =~= all.skip(seen),
                        (match spec_obj_get(all.take(seen), "id"@) {
                            Some(JsonNode::Str(s)) => id == Some(s),
                            Some(_) => false,
                            None => id is None,
                        }),
                        (match spec_obj_get(all.take(seen), "ok"@) {
                            Some(JsonNode::Bool(b)) => ok == Some(b),
                            Some(_) => false,
                            None => ok is None,
                        }),
                        payload == spec_obj_get(all.take(seen), "payload"@),
                        error == spec_obj_get(all.take(seen), "error"@),
                    decreases fields.len(),
                {
                    let entry = fields.remove(0);
                    proof {
                        assert(entry == all[seen]);
                        lemma_obj_get_take_step(all, seen, "id"@);
                        lemma_obj_get_take_step(all, seen, "ok"@);
                        lemma_obj_get_take_step(all, seen, "payload"@);
                        lemma_obj_get_take_step(all, seen, "error"@);
                    }
                    if str_eq(entry.0.as_str(), "id") {
                        match (&id, entry.1) {
                            (None, JsonNode::Str(s)) => {
                                id = Some(s);
                            },
                            (None, _) => {
                                proof {
                                    lemma_obj_get_concat(
                                        all.take(seen + 1),
                                        all.skip(seen + 1),
                                        "id"@,
                                    );
                                    assert(all.take(seen + 1).add(all.skip(seen + 1)) =~= all);
                                }
                                return None;
                            },
                            (Some(_), _) => {},
                        }
                    } else if str_eq(entry.0.as_str(), "ok") {
                        match (&ok, entry.1) {
                            (None, JsonNode::Bool(b)) => {
                                ok = Some(b);
                            },
                            (None, _) => {
                                proof {
                                    lemma_obj_get_concat(
                                        all.take(seen + 1),
                                        all.skip(seen + 1),
                                        "ok"@,
                                    );
                                    assert(all.take(seen + 1).add(all.skip(seen + 1)) =~= all);
                                }
                                return None;
                            },
                            (Some(_), _) => {},
                        }
                    } else if str_eq(entry.0.as_str(), "payload") {
                        if payload.is_none() {
                            payload = Some(entry.1);
                        }
                    } else if str_eq(entry.0.as_str(), "error") {
                        if error.is_none() {
                            error = Some(entry.1);
                        }
                    }
                    proof {
                        seen = seen + 1;
                        assert(fields@ =~= all.skip(seen));
                    }
                }
                proof {
                    assert(all.take(all.len() as int) =~= all);
                }
                let id = match id {
                    Some(v) => v,
                    None => {
                        return None;
                    },
                };
                let ok = match ok {
                    Some(v) => v,
                    None => {
                        return None;
                    },
                };
                let error = match error {
                    None => None,
                    Some(JsonNode::Null) => None,
                    Some(JsonNode::Str(s)) => Some(s),
                    Some(_) => {
                        return None;
                    },
                };
                let payload = match payload {
                    None => None,
                    Some(JsonNode::Null) => None,
                    Some(p) => Some(p),
                };
                Some(TelethonResponse { id, ok, payload, error })
            },
            _ => None,
        }
    }
}

/// A failed prefix of the button grid fails the whole grid.
proof fn lemma_rows_extend_none(rows: Seq<JsonNode>, i: int)
    requires
        0 <= i <= rows.len(),
        spec_button_rows_of(rows.take(i)) is None,
    ensures
        spec_button_rows_of(rows) is None,
    decreases rows.len() - i,
{
    if i < rows.len() {
        assert(rows.take(i + 1).drop_last() =~= rows.take(i));
        lemma_rows_extend_none(rows, i + 1);
    } else {
        assert(rows.take(i) =~= rows);
    }
}

/// A failed prefix of a button row fails the whole row.
proof fn lemma_row_extend_none(items: Seq<JsonNode>, i: int)
    requires
        0 <= i <= items.len(),
        spec_button_row_of(items.take(i)) is None,
    ensures
        spec_button_row_of(items) is None,
    decreases items.len() - i,
{
    if i < items.len() {
        assert(items.take(i + 1).drop_last() =~= items.take(i));
        lemma_row_extend_none(items, i + 1);
    } else {
        assert(items.take(i) =~= items);
    }
}

/// Decode one row of buttons.
#[verifier::loop_isolation(false)]
fn decode_button_row(items: Vec<JsonNode>) -> (r: Option<Vec<TelethonButton>>)
    ensures
        (match r {
            Some(row) => spec_button_row_of(items@) == Some(row@),
            None => spec_button_row_of(items@) is None,
        }),
{
    let ghost all = items@;
    let mut items = items;
    let mut row: Vec<TelethonButton> = Vec::new();
    proof {
        assert(all.take(0) =~= Seq::<JsonNode>::empty());
    }
    let ghost mut seen: int = 0;
    while items.len() > 0
        invariant
            0 <= seen <= all.len(),
            items@ =~= all.skip(seen),
            spec_button_row_of(all.take(seen)) == Some(row@),
        decreases items.len(),
    {
        let node = items.remove(0);
        proof {
            assert(node == all[seen]);
            assert(all.take(seen + 1).drop_last() =~= all.take(seen));
            assert(all.take(seen + 1).last() == all[seen]);
        }
        match TelethonButton::decode(node) {
            Some(b) => {
                row.push(b);
            },
            None => {
                proof {
                    lemma_row_extend_none(all, seen + 1);
                }
                return None;
            },
        }
        proof {
            seen = seen + 1;
            assert(items@ =~= all.skip(seen));
        }
    }
    proof {
        assert(all.take(all.len() as int) =~= all);
    }
    Some(row)
}

/// Decode the button grid.
#[verifier::loop_isolation(false)]
fn decode_button_rows(rows: Vec<JsonNode>) -> (r: Option<Vec<Vec<TelethonButton>>>)
    ensures
        (match r {
            Some(grid) => (match spec_button_rows_of(rows@) {
                Some(rs) => grid@.len() == rs.len() && (forall|i: int|
                    0 <= i < rs.len() ==> (#[trigger] grid@[i])@ == rs[i]),
                None => false,
            }),
            None => spec_button_rows_of(rows@) is None,
        }),
{
    let ghost all = rows@;
    let mut rows = rows;
    let mut grid: Vec<Vec<TelethonButton>> = Vec::new();
    proof {
        assert(all.take(0) =~= Seq::<JsonNode>::empty());
    }
    let ghost mut seen: int = 0;
    while rows.len() > 0
        invariant
            0 <= seen <= all.len(),
            rows@ =~= all.skip(seen),
            (match spec_button_rows_of(all.take(seen)) {
                Some(rs) => grid@.len() == rs.len() && (forall|i: int|
                    0 <= i < rs.len() ==> (#[trigger] grid@[i])@ == rs[i]),
                None => false,
            }),
        decreases rows.len(),
    {
        let node = rows.remove(0);
        proof {
            assert(node == all[seen]);
            assert(all.take(seen + 1).drop_last() =~= all.take(seen));
            assert(all.take(seen + 1).last() == all[seen]);
        }
        match node {
            JsonNode::Arr(items) => {
                match decode_button_row(items) {
                    Some(row) => {
                        grid.push(row);
                    },
                    None => {
                        proof {
                            lemma_rows_extend_none(all, seen + 1);
                        }
                        return None;
                    },
                }
            },
            _ => {
                proof {
                    lemma_rows_extend_none(all, seen + 1);
                }
                return None;
            },
        }
        proof {
            seen = seen + 1;
            assert(rows@ =~= all.skip(seen));
        }
    }
    proof {
        assert(all.take(all.len() as int) =~= all);
    }
    Some(grid)
}

impl TelethonMessage {
    /// Decode a message object.
    #[verifier::loop_isolation(false)]
    pub fn decode(n: JsonNode) -> (r: Option<TelethonMessage>)
        ensures
            (match r {
                Some(m) => spec_message_matches(m, n),
                None => !spec_message_decodes(n),
            }),
    {
        proof {
            reveal_strlit("id");
            reveal_strlit("chat_id");
            reveal_strlit("sender_id");
            reveal_strlit("text");
            reveal_strlit("is_outgoing");
            reveal_strlit("buttons");
            assert("id"@.len() != "chat_id"@.len());
            assert("id"@.len() != "sender_id"@.len());
            assert("id"@.len() != "text"@.len());
            assert("id"@.len() != "is_outgoing"@.len());
            assert("id"@.len() != "buttons"@.len());
            assert("chat_id"@.len() != "sender_id"@.len());
            assert("chat_id"@.len() != "text"@.len());
            assert("chat_id"@.len() != "is_outgoing"@.len());
            assert("chat_id"@[0] != "buttons"@[0]);
            assert("sender_id"@.len() != "text"@.len());
            assert("sender_id"@.len() != "is_outgoing"@.len());
            assert("sender_id"@.len() != "buttons"@.len());
            assert("text"@.len() != "is_outgoing"@.len());
            assert("text"@.len() != "buttons"@.len());
            assert("is_outgoing"@.len() != "buttons"@.len());
            assert("id"@ != "chat_id"@ && "id"@ != "sender_id"@ && "id"@ != "text"@);
            assert("id"@ != "is_outgoing"@ && "id"@ != "buttons"@);
            assert("chat_id"@ != "sender_id"@ && "chat_id"@ != "text"@);
            assert("chat_id"@ != "is_outgoing"@ && "chat_id"@ != "buttons"@);
            assert("sender_id"@ != "text"@ && "sender_id"@ != "is_outgoing"@);
            assert("sender_id"@ != "buttons"@);
            assert("text"@ != "is_outgoing"@ && "text"@ != "buttons"@);
            assert("is_outgoing"@ != "buttons"@);
        }
        match n {
            JsonNode::Obj(fields) => {
                let mut id: Option<i64> = None;
                let mut chat_id: Option<i64> = None;
                let mut sender_id: Option<i64> = None;
                let mut text: Option<String> = None;
                let mut is_outgoing: Option<bool> = None;
                let mut buttons_node: Option<JsonNode> = None;
                let ghost all = fields@;
                let mut fields = fields;
                proof {
                    assert(all.take(0) =~= Seq::<(String, JsonNode)>::empty());
                }
                let ghost mut seen: int = 0;
                while fields.len() > 0
                    invariant
                        0 <= seen <= all.len(),
                        fields@ =~= all.skip(seen),
                        (match spec_obj_get(all.take(seen), "id"@) {
                            Some(JsonNode::Num(v)) => v is Some && id == v,
                            Some(_) => false,
                            None => id is None,
                        }),
                        (match spec_obj_get(all.take(seen), "chat_id"@) {
                            Some(JsonNode::Num(v)) => v is Some && chat_id == v,
                            Some(_) => false,
                            None => chat_id is None,
                        }),
                        (match spec_obj_get(all.take(seen), "sender_id"@) {
                            Some(JsonNode::Num(v)) => v is Some && sender_id == v,
                            Some(_) => false,
                            None => sender_id is None,
                        }),
                        (match spec_obj_get(all.take(seen), "text"@) {
                            Some(JsonNode::Str(s)) => text == Some(s),
                            Some(_) => false,
                            None => text is None,
                        }),
                        (match spec_obj_get(all.take(seen), "is_outgoing"@) {
                            Some(JsonNode::Bool(b)) => is_outgoing == Some(b),
                            Some(_) => false,
                            None => is_outgoing is None,
                        }),
                        buttons_node == spec_obj_get(all.take(seen), "buttons"@),
                    decreases fields.len(),
                {
                    let entry = fields.remove(0);
                    proof {
                        assert(entry == all[seen]);
                        lemma_obj_get_take_step(all, seen, "id"@);
                        lemma_obj_get_take_step(all, seen, "chat_id"@);
                        lemma_obj_get_take_step(all, seen, "sender_id"@);
                        lemma_obj_get_take_step(all, seen, "text"@);
                        lemma_obj_get_take_step(all, seen, "is_outgoing"@);
                        lemma_obj_get_take_step(all, seen, "buttons"@);
                        lemma_obj_get_concat(all.take(seen + 1), all.skip(seen + 1), "id"@);
                        lemma_obj_get_concat(all.take(seen + 1), all.skip(seen + 1), "chat_id"@);
                        lemma_obj_get_concat(all.take(seen + 1), all.skip(seen + 1), "sender_id"@);
                        lemma_obj_get_concat(all.take(seen + 1), all.skip(seen + 1), "text"@);
                        lemma_obj_get_concat(
                            all.take(seen + 1),
                            all.skip(seen + 1),
                            "is_outgoing"@,
                        );
                        assert(all.take(seen + 1).add(all.skip(seen + 1)) =~= all);
                    }
                    if str_eq(entry.0.as_str(), "id") {
                        match (&id, entry.1) {
                            (None, JsonNode::Num(Some(v))) => {
                                id = Some(v);
                            },
                            (None, _) => {
                                return None;
                            },
                            (Some(_), _) => {},
                        }
                    } else if str_eq(entry.0.as_str(), "chat_id") {
                        match (&chat_id, entry.1) {
                            (None, JsonNode::Num(Some(v))) => {
                                chat_id = Some(v);
                            },
                            (None, _) => {
                                return None;
                            },
                            (Some(_), _) => {},
                        }
                    } else if str_eq(entry.0.as_str(), "sender_id") {
                        match (&sender_id, entry.1) {
                            (None, JsonNode::Num(Some(v))) => {
                                sender_id = Some(v);
                            },
                            (None, _) => {
                                return None;
                            },
                            (Some(_), _) => {},
                        }
                    } else if str_eq(entry.0.as_str(), "text") {
                        match (&text, entry.1) {
                            (None, JsonNode::Str(s)) => {
                                text = Some(s);
                            },
                            (None, _) => {
                                return None;
                            },
                            (Some(_), _) => {},
                        }
                    } else if str_eq(entry.0.as_str(), "is_outgoing") {
                        match (&is_outgoing, entry.1) {
                            (None, JsonNode::Bool(b)) => {
                                is_outgoing = Some(b);
                            },
                            (None, _) => {
                                return None;
                            },
                            (Some(_), _) => {},
                        }
                    } else if str_eq(entry.0.as_str(), "buttons") {
                        if buttons_node.is_none() {
                            buttons_node = Some(entry.1);
                        }
                    }
                    proof {
                        seen = seen + 1;
                        assert(fields@ =~= all.skip(seen));
                    }
                }
                proof {
                    assert(all.take(all.len() as int) =~= all);
                }
                let id = match id {
                    Some(v) => v,
                    None => {
                        return None;
                    },
                };
                let chat_id = match chat_id {
                    Some(v) => v,
                    None => {
                        return None;
                    },
                };
                let sender_id = match sender_id {
                    Some(v) => v,
                    None => {
                        return None;
                    },
                };
                let text = match text {
                    Some(v) => v,
                    None => {
                        return None;
                    },
                };
                let is_outgoing = match is_outgoing {
                    Some(v) => v,
                    None => {
                        return None;
                    },
                };
                let rows = match buttons_node {
                    Some(JsonNode::Arr(rows)) => rows,
                    _ => {
                        return None;
                    },
                };
                let buttons = match decode_button_rows(rows) {
                    Some(grid) => grid,
                    None => {
                        return None;
                    },
                };
                Some(TelethonMessage { id, chat_id, sender_id, text, is_outgoing, buttons })
            },
            _ => None,
        }
    }
}

impl TelethonEvent {
    /// Decode an event object.
    #[verifier::loop_isolation(false)]
    pub fn decode(n: JsonNode) -> (r: Option<TelethonEvent>)
        ensures
            (match r {
                Some(e) => spec_event_matches(e, n),
                None => !spec_event_decodes(n),
            }),
    {
        proof {
            reveal_strlit("type");
            reveal_strlit("message");
            assert("type"@.len() != "message"@.len());
            assert("type"@ != "message"@);
        }
        match n {
            JsonNode::Obj(fields) => {
                let mut kind: Option<String> = None;
                let mut message_node: Option<JsonNode> = None;
                let ghost all = fields@;
                let mut fields = fields;
                proof {
                    assert(all.take(0) =~= Seq::<(String, JsonNode)>::empty());
                }
                let ghost mut seen: int = 0;
                while fields.len() > 0
                    invariant
                        0 <= seen <= all.len(),
                        fields@ =~= all.skip(seen),
                        (match spec_obj_get(all.take(seen), "type"@) {
                            Some(JsonNode::Str(s)) => kind == Some(s),
                            Some(_) => false,
                            None => kind is None,
                        }),
                        message_node == spec_obj_get(all.take(seen), "message"@),
                    decreases fields.len(),
                {
                    let entry = fields.remove(0);
                    proof {
                        assert(entry == all[seen]);
                        lemma_obj_get_take_step(all, seen, "type"@);
                        lemma_obj_get_take_step(all, seen, "message"@);
                        lemma_obj_get_concat(all.take(seen + 1), all.skip(seen + 1), "type"@);
                        assert(all.take(seen + 1).add(all.skip(seen + 1)) =~= all);
                    }
                    if str_eq(entry.0.as_str(), "type") {
                        match (&kind, entry.1) {
                            (None, JsonNode::Str(s)) => {
                                kind = Some(s);
                            },
                            (None, _) => {
                                return None;
                            },
                            (Some(_), _) => {},
                        }
                    } else if str_eq(entry.0.as_str(), "message") {
                        if message_node.is_none() {
                            message_node = Some(entry.1);
                        }
                    }
                    proof {
                        seen = seen + 1;
                        assert(fields@ =~= all.skip(seen));
                    }
                }
                proof {
                    assert(all.take(all.len() as int) =~= all);
                }
                let kind = match kind {
                    Some(v) => v,
                    None => {
                        return None;
                    },
                };
                let message = match message_node {
                    None => None,
                    Some(JsonNode::Null) => None,
                    Some(m_node) => {
                        match TelethonMessage::decode(m_node) {
                            Some(m) => Some(m),
                            None => {
                                return None;
                            },
                        }
                    },
                };
                Some(TelethonEvent { kind, message })
            },
            _ => None,
        }
    }
}

/// What one line from the child process amounts to.
#[derive(Debug)]
pub enum ClientLine {
    Response(TelethonResponse),
    Event(TelethonEvent),
    Ignored,
}

/// Classify one line from the child process: a response when it carries a
/// well-formed `id` and `ok`, else an event when it carries a decodable
/// `event` member, else ignored.
pub fn classify_line(line: &str) -> (r: ClientLine)
    ensures
        (match json_of(line@) {
            None => r is Ignored,
            Some(n) => {
                if spec_response_of(n) is Some {
                    r == ClientLine::Response(spec_response_of(n)->Some_0)
                } else {
                    match n.spec_get("event"@) {
                        Some(ev_node) => {
                            if spec_event_decodes(ev_node) {
                                r is Event && spec_event_matches(r->Event_0, ev_node)
                            } else {
                                r is Ignored
                            }
                        },
                        None => r is Ignored,
                    }
                }
            },
        }),
{
    let n = match parse_json(line) {
        Some(n) => n,
        None => {
            return ClientLine::Ignored;
        },
    };
    let looks_like_response = response_shape_ok(&n);
    if looks_like_response {
        match TelethonResponse::decode(n) {
            Some(resp) => ClientLine::Response(resp),
            None => ClientLine::Ignored,
        }
    } else {
        match take_member(n, "event") {
            Some(ev_node) => {
                match TelethonEvent::decode(ev_node) {
                    Some(e) => ClientLine::Event(e),
                    None => ClientLine::Ignored,
                }
            },
            None => ClientLine::Ignored,
        }
    }
}

/// Whether the node has the shape of a response: a string `id`, a boolean
/// `ok`, and an `error` member that is absent, null or a string.
fn response_shape_ok(n: &JsonNode) -> (r: bool)
    ensures
        r == (spec_response_of(*n) is Some),
{
    let id_ok = match n.get("id") {
        Some(v) => v.is_string(),
        None => false,
    };
    if !id_ok {
        return false;
    }
    let ok_ok = match n.get("ok") {
        Some(v) => v.is_bool(),
        None => false,
    };
    if !ok_ok {
        return false;
    }
    match n.get("error") {
        None => true,
        Some(JsonNode::Null) => true,
        Some(JsonNode::Str(_)) => true,
        Some(_) => false,
    }
}

/// Take one member out of an object by value: the first binding of `key`.
#[verifier::loop_isolation(false)]
fn take_member(n: JsonNode, key: &str) -> (r: Option<JsonNode>)
    ensures
        r == n.spec_get(key@),
{
    match n {
        JsonNode::Obj(fields) => {
            let mut found: Option<JsonNode> = None;
            let ghost all = fields@;
            let mut fields = fields;
            proof {
                assert(all.take(0) =~= Seq::<(String, JsonNode)>::empty());
            }
            let ghost mut seen: int = 0;
            while fields.len() > 0
                invariant
                    0 <= seen <= all.len(),
                    fields@ =~= all.skip(seen),
                    found == spec_obj_get(all.take(seen), key@),
                decreases fields.len(),
            {
                let entry = fields.remove(0);
                proof {
                    assert(entry == all[seen]);
                    lemma_obj_get_take_step(all, seen, key@);
                }
                if str_eq(entry.0.as_str(), key) {
                    if found.is_none() {
                        found = Some(entry.1);
                    }
                }
                proof {
                    seen = seen + 1;
                    assert(fields@ =~= all.skip(seen));
                }
            }
            proof {
                assert(all.take(all.len() as int) =~= all);
            }
            found
        },
        _ => None,
    }
}

} // verus!
