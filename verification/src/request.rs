//! The message-create request body and its JSON form.
//!
//! The body is serialized by the library itself: `body_to_json` builds the
//! request document (optional fields are left out when unset, as the wire
//! format asks), and `MessageBody::render` turns it into the text that is
//! sent. `message_body_from_json` is the exact inverse on documents;
//! `lemma_body_round_trip` proves that a serialized body deserializes to the
//! same value, field for field.

use vstd::prelude::*;
use vstd::string::StringExecFns;

use crate::decode::spec_opt_bool;
use crate::decode::spec_opt_str;
use crate::decode::spec_req_i32;
use crate::decode::spec_req_str;
use crate::events::opt_str_rep;
use crate::json::JsonRep;
use crate::json::JsonValue;
use crate::json::json_fields_rep;
use crate::json::json_seq_rep;
use crate::json::rep_get;
use crate::json::rep_lookup;
use crate::json::spec_json_text;
use crate::json::str_eq;
use crate::text::pairs_rep;

verus! {

/// Conversational role of a message.
#[derive(Debug, Clone, Copy, PartialEq, Eq, Structural)]
pub enum Role {
    Assistant,
    User,
}

/// The wire spelling of a role.
pub open spec fn role_text(r: Role) -> Seq<char> {
    match r {
        Role::Assistant => "assistant"@,
        Role::User => "user"@,
    }
}

/// The role named by a wire spelling.
pub open spec fn role_of_text(s: Seq<char>) -> Option<Role> {
    if s == "assistant"@ {
        Some(Role::Assistant)
    } else if s == "user"@ {
        Some(Role::User)
    } else {
        None
    }
}

fn role_str(r: Role) -> (s: String)
    ensures
        s@ == role_text(r),
{
    match r {
        Role::Assistant => String::from_str("assistant"),
        Role::User => String::from_str("user"),
    }
}

/// One input message of a request.
#[derive(Debug, Clone)]
pub struct Message {
    pub role: Role,
    pub content: String,
}

/// Model of `Message`.
pub struct MessageRep {
    pub role: Role,
    pub content: Seq<char>,
}

impl View for Message {
    type V = MessageRep;

    open spec fn view(&self) -> MessageRep {
        MessageRep { role: self.role, content: self.content@ }
    }
}

/// The models of a list of messages.
pub open spec fn message_seq_rep(ms: Seq<Message>) -> Seq<MessageRep> {
    Seq::new(ms.len(), |i: int| ms[i]@)
}

/// The models of a list of strings.
pub open spec fn string_seq_rep(ss: Seq<String>) -> Seq<Seq<char>> {
    Seq::new(ss.len(), |i: int| ss[i]@)
}

/// The body of a message-create request. Optional fields are sent only when
/// set. Metadata is a list of key/value pairs, sent as a JSON object in
/// list order.
#[derive(Debug, Clone)]
pub struct MessageBody {
    /// The model that will complete the prompt.
    pub model: String,
    /// Input messages.
    pub messages: Vec<Message>,
    /// The most tokens to generate before stopping.
    pub max_tokens: i32,
    /// Metadata about the request.
    pub metadata: Option<Vec<(String, String)>>,
    /// Custom text sequences that stop generation.
    pub stop_sequences: Option<Vec<String>>,
    /// Whether to stream the response incrementally.
    pub stream: Option<bool>,
    /// System prompt.
    pub system: Option<String>,
}

/// Model of `MessageBody`.
pub struct MessageBodyRep {
    pub model: Seq<char>,
    pub messages: Seq<MessageRep>,
    pub max_tokens: i32,
    pub metadata: Option<Seq<(Seq<char>, Seq<char>)>>,
    pub stop_sequences: Option<Seq<Seq<char>>>,
    pub stream: Option<bool>,
    pub system: Option<Seq<char>>,
}

impl View for MessageBody {
    type V = MessageBodyRep;

    open spec fn view(&self) -> MessageBodyRep {
        MessageBodyRep {
            model: self.model@,
            messages: message_seq_rep(self.messages@),
            max_tokens: self.max_tokens,
            metadata: match self.metadata {
                Some(ps) => Some(pairs_rep(ps@)),
                None => None,
            },
            stop_sequences: match self.stop_sequences {
                Some(ss) => Some(string_seq_rep(ss@)),
                None => None,
            },
            stream: self.stream,
            system: opt_str_rep(self.system),
        }
    }
}

// ----- the request document a body serializes to -----

/// The document of one message.
pub open spec fn message_json(m: MessageRep) -> JsonRep {
    JsonRep::Object(
        seq![("role"@, JsonRep::Text(role_text(m.role))), ("content"@, JsonRep::Text(m.content))],
    )
}

/// The documents of a list of messages.
pub open spec fn messages_json(ms: Seq<MessageRep>) -> Seq<JsonRep> {
    Seq::new(ms.len(), |i: int| message_json(ms[i]))
}

/// The documents of a list of strings.
pub open spec fn strings_json(ss: Seq<Seq<char>>) -> Seq<JsonRep> {
    Seq::new(ss.len(), |i: int| JsonRep::Text(ss[i]))
}

/// The object fields of a metadata list.
pub open spec fn meta_json(ps: Seq<(Seq<char>, Seq<char>)>) -> Seq<(Seq<char>, JsonRep)> {
    Seq::new(ps.len(), |i: int| (ps[i].0, JsonRep::Text(ps[i].1)))
}

/// The segment an optional field contributes to the request object.
pub open spec fn opt_field(key: Seq<char>, v: Option<JsonRep>) -> Seq<(Seq<char>, JsonRep)> {
    match v {
        Some(d) => seq![(key, d)],
        None => Seq::empty(),
    }
}

/// The request document of a body: the three required fields, then each set
/// optional field, in a fixed order.
pub open spec fn spec_body_json(b: MessageBodyRep) -> JsonRep {
    JsonRep::Object(
        seq![
            ("model"@, JsonRep::Text(b.model)),
            ("messages"@, JsonRep::Array(messages_json(b.messages))),
            ("max_tokens"@, JsonRep::Int(b.max_tokens as int)),
        ] + opt_field(
            "metadata"@,
            match b.metadata {
                Some(ps) => Some(JsonRep::Object(meta_json(ps))),
                None => None,
            },
        ) + opt_field(
            "stop_sequences"@,
            match b.stop_sequences {
                Some(ss) => Some(JsonRep::Array(strings_json(ss))),
                None => None,
            },
        ) + opt_field(
            "stream"@,
            match b.stream {
                Some(s) => Some(JsonRep::Bool(s)),
                None => None,
            },
        ) + opt_field(
            "system"@,
            match b.system {
                Some(s) => Some(JsonRep::Text(s)),
                None => None,
            },
        ),
    )
}

fn message_to_json(m: &Message) -> (v: JsonValue)
    ensures
        v@ == message_json(m@),
{
    let mut fields: Vec<(String, JsonValue)> = Vec::new();
    fields.push((String::from_str("role"), JsonValue::Text(role_str(m.role))));
    fields.push((String::from_str("content"), JsonValue::Text(m.content.clone())));
    let v = JsonValue::Object(fields);
    proof {
        assert(fields@.len() == 2);
        assert(json_fields_rep(fields@).len() == 2);
        assert(json_fields_rep(fields@)[0] == ("role"@, JsonRep::Text(role_text(m@.role))));
        assert(json_fields_rep(fields@)[1] == ("content"@, JsonRep::Text(m@.content)));
        assert(v@->Object_0 =~= message_json(m@)->Object_0);
    }
    v
}

impl MessageBody {
    /// Serialize the body as a request document.
    pub fn body_to_json(&self) -> (v: JsonValue)
        ensures
            v@ == spec_body_json(self@),
    {
        let ghost b = self@;
        let mut fields: Vec<(String, JsonValue)> = Vec::new();
        fields.push((String::from_str("model"), JsonValue::Text(self.model.clone())));

        let mut items: Vec<JsonValue> = Vec::new();
        let mut i: usize = 0;
        while i < self.messages.len()
            invariant
                i <= self.messages@.len(),
                items@.len() == i,
                forall|j: int| 0 <= j < i ==> items@[j]@ == message_json(self.messages@[j]@),
            decreases self.messages@.len() - i,
        {
            let mv = message_to_json(&self.messages[i]);
            items.push(mv);
            i = i + 1;
        }
        proof {
            assert(json_seq_rep(items@) =~= messages_json(b.messages));
        }
        fields.push((String::from_str("messages"), JsonValue::Array(items)));
        fields.push((String::from_str("max_tokens"), JsonValue::Int(self.max_tokens as i64)));
        let ghost required = seq![
            ("model"@, JsonRep::Text(b.model)),
            ("messages"@, JsonRep::Array(messages_json(b.messages))),
            ("max_tokens"@, JsonRep::Int(b.max_tokens as int)),
        ];
        proof {
            assert(json_fields_rep(fields@) =~= required);
        }

        let ghost meta_seg = opt_field(
            "metadata"@,
            match b.metadata {
                Some(ps) => Some(JsonRep::Object(meta_json(ps))),
                None => None,
            },
        );
        match &self.metadata {
            Some(ps) => {
                let mut mf: Vec<(String, JsonValue)> = Vec::new();
                let mut i: usize = 0;
                while i < ps.len()
                    invariant
                        i <= ps@.len(),
                        mf@.len() == i,
                        forall|j: int| 0 <= j < i ==> mf@[j].0@ == ps@[j].0@ && mf@[j].1@
                            == JsonRep::Text(ps@[j].1@),
                    decreases ps@.len() - i,
                {
                    mf.push((ps[i].0.clone(), JsonValue::Text(ps[i].1.clone())));
                    i = i + 1;
                }
                proof {
                    assert(json_fields_rep(mf@) =~= meta_json(pairs_rep(ps@)));
                }
                fields.push((String::from_str("metadata"), JsonValue::Object(mf)));
            },
            None => {},
        }
        proof {
            assert(json_fields_rep(fields@) =~= required + meta_seg);
        }

        let ghost stop_seg = opt_field(
            "stop_sequences"@,
            match b.stop_sequences {
                Some(ss) => Some(JsonRep::Array(strings_json(ss))),
                None => None,
            },
        );
        match &self.stop_sequences {
            Some(ss) => {
                let mut sf: Vec<JsonValue> = Vec::new();
                let mut i: usize = 0;
                while i < ss.len()
                    invariant
                        i <= ss@.len(),
                        sf@.len() == i,
                        forall|j: int| 0 <= j < i ==> sf@[j]@ == JsonRep::Text(ss@[j]@),
                    decreases ss@.len() - i,
                {
                    sf.push(JsonValue::Text(ss[i].clone()));
                    i = i + 1;
                }
                proof {
                    assert(json_seq_rep(sf@) =~= strings_json(string_seq_rep(ss@)));
                }
                fields.push((String::from_str("stop_sequences"), JsonValue::Array(sf)));
            },
            None => {},
        }
        proof {
            assert(json_fields_rep(fields@) =~= required + meta_seg + stop_seg);
        }

        let ghost stream_seg = opt_field(
            "stream"@,
            match b.stream {
                Some(s) => Some(JsonRep::Bool(s)),
                None => None,
            },
        );
        match &self.stream {
            Some(s) => {
                fields.push((String::from_str("stream"), JsonValue::Bool(*s)));
            },
            None => {},
        }
        proof {
            assert(json_fields_rep(fields@) =~= required + meta_seg + stop_seg + stream_seg);
        }

        let ghost system_seg = opt_field(
            "system"@,
            match b.system {
                Some(s) => Some(JsonRep::Text(s)),
                None => None,
            },
        );
        match &self.system {
            Some(s) => {
                fields.push((String::from_str("system"), JsonValue::Text(s.clone())));
            },
            None => {},
        }
        proof {
            assert(json_fields_rep(fields@) =~= required + meta_seg + stop_seg + stream_seg
                + system_seg);
        }

        JsonValue::Object(fields)
    }

    /// Serialize the body as the request text that is sent.
    pub fn render(&self) -> (out: String)
        ensures
            out@ == spec_json_text(spec_body_json(self@)),
    {
        let doc = self.body_to_json();
        doc.to_text()
    }
}

// ----- the body a request document deserializes to -----

/// What a document must be to be one message: an object with a known `role`
/// spelling and a `content` string.
pub open spec fn spec_message_from(doc: JsonRep) -> Option<MessageRep> {
    if !(doc is Object) {
        None
    } else {
        match (spec_req_str(doc, "role"@), spec_req_str(doc, "content"@)) {
            (Some(role_s), Some(content)) => match role_of_text(role_s) {
                Option::Some(role) => Some(MessageRep { role, content }),
                Option::None => None,
            },
            _ => None,
        }
    }
}

/// What a sequence of documents must be to be a message list.
pub open spec fn spec_messages_from(docs: Seq<JsonRep>) -> Option<Seq<MessageRep>>
    decreases docs.len(),
{
    if docs.len() == 0 {
        Some(Seq::empty())
    } else {
        match spec_message_from(docs[0]) {
            Option::None => None,
            Option::Some(m) => match spec_messages_from(docs.drop_first()) {
                Option::None => None,
                Option::Some(rest) => Some(seq![m] + rest),
            },
        }
    }
}

/// What a sequence of documents must be to be a string list.
pub open spec fn spec_strings_from(docs: Seq<JsonRep>) -> Option<Seq<Seq<char>>>
    decreases docs.len(),
{
    if docs.len() == 0 {
        Some(Seq::empty())
    } else {
        match docs[0] {
            JsonRep::Text(s) => match spec_strings_from(docs.drop_first()) {
                Option::None => None,
                Option::Some(rest) => Some(seq![s] + rest),
            },
            _ => None,
        }
    }
}

/// What object fields must be to be a metadata list: every value a string.
pub open spec fn spec_meta_from(fields: Seq<(Seq<char>, JsonRep)>) -> Option<
    Seq<(Seq<char>, Seq<char>)>,
>
    decreases fields.len(),
{
    if fields.len() == 0 {
        Some(Seq::empty())
    } else {
        match fields[0].1 {
            JsonRep::Text(s) => match spec_meta_from(fields.drop_first()) {
                Option::None => None,
                Option::Some(rest) => Some(seq![(fields[0].0, s)] + rest),
            },
            _ => None,
        }
    }
}

/// What a document must be to be a request body: the three required fields,
/// each optional field well shaped where present.
pub open spec fn spec_body_from(doc: JsonRep) -> Option<MessageBodyRep> {
    if !(doc is Object) {
        None
    } else {
        match (spec_req_str(doc, "model"@), rep_get(doc, "messages"@)) {
            (Some(model), Option::Some(JsonRep::Array(mdocs))) => match (
                spec_messages_from(mdocs),
                spec_req_i32(doc, "max_tokens"@),
            ) {
                (Some(messages), Some(max_tokens)) => {
                    let metadata = match rep_get(doc, "metadata"@) {
                        Option::None => Some(None),
                        Option::Some(JsonRep::Object(mfields)) => match spec_meta_from(mfields) {
                            Option::Some(ps) => Some(Some(ps)),
                            Option::None => None,
                        },
                        Option::Some(_) => None,
                    };
                    let stop_sequences = match rep_get(doc, "stop_sequences"@) {
                        Option::None => Some(None),
                        Option::Some(JsonRep::Array(sdocs)) => match spec_strings_from(sdocs) {
                            Option::Some(ss) => Some(Some(ss)),
                            Option::None => None,
                        },
                        Option::Some(_) => None,
                    };
                    match (
                        metadata,
                        stop_sequences,
                        spec_opt_bool(doc, "stream"@),
                        spec_opt_str(doc, "system"@),
                    ) {
                        (Some(metadata), Some(stop_sequences), Some(stream), Some(system)) => Some(
                            MessageBodyRep {
                                model,
                                messages,
                                max_tokens,
                                metadata,
                                stop_sequences,
                                stream,
                                system,
                            },
                        ),
                        _ => None,
                    }
                },
                _ => None,
            },
            _ => None,
        }
    }
}

proof fn lemma_messages_from_ok(docs: Seq<JsonRep>, ms: Seq<MessageRep>)
    requires
        docs.len() == ms.len(),
        forall|j: int| 0 <= j < docs.len() ==> spec_message_from(docs[j]) == Some(ms[j]),
    ensures
        spec_messages_from(docs) == Some(ms),
    decreases docs.len(),
{
    if docs.len() == 0 {
        assert(ms =~= Seq::<MessageRep>::empty());
    } else {
        lemma_messages_from_ok(docs.drop_first(), ms.drop_first());
        assert(ms =~= seq![ms[0]] + ms.drop_first());
    }
}

proof fn lemma_messages_from_err(docs: Seq<JsonRep>, j: int)
    requires
        0 <= j < docs.len(),
        spec_message_from(docs[j]) is None,
    ensures
        spec_messages_from(docs) is None,
    decreases j,
{
    if j > 0 {
        lemma_messages_from_err(docs.drop_first(), j - 1);
    }
}

proof fn lemma_strings_from_ok(docs: Seq<JsonRep>, ss: Seq<Seq<char>>)
    requires
        docs.len() == ss.len(),
        forall|j: int| 0 <= j < docs.len() ==> docs[j] == JsonRep::Text(ss[j]),
    ensures
        spec_strings_from(docs) == Some(ss),
    decreases docs.len(),
{
    if docs.len() == 0 {
        assert(ss =~= Seq::<Seq<char>>::empty());
    } else {
        lemma_strings_from_ok(docs.drop_first(), ss.drop_first());
        assert(ss =~= seq![ss[0]] + ss.drop_first());
    }
}

proof fn lemma_strings_from_err(docs: Seq<JsonRep>, j: int)
    requires
        0 <= j < docs.len(),
        !(docs[j] is Text),
    ensures
        spec_strings_from(docs) is None,
    decreases j,
{
    if j > 0 {
        lemma_strings_from_err(docs.drop_first(), j - 1);
    }
}

proof fn lemma_meta_from_ok(fields: Seq<(Seq<char>, JsonRep)>, ps: Seq<(Seq<char>, Seq<char>)>)
    requires
        fields.len() == ps.len(),
        forall|j: int| 0 <= j < fields.len() ==> fields[j].0 == ps[j].0 && fields[j].1
            == JsonRep::Text(ps[j].1),
    ensures
        spec_meta_from(fields) == Some(ps),
    decreases fields.len(),
{
    if fields.len() == 0 {
        assert(ps =~= Seq::<(Seq<char>, Seq<char>)>::empty());
    } else {
        lemma_meta_from_ok(fields.drop_first(), ps.drop_first());
        assert(ps =~= seq![ps[0]] + ps.drop_first());
    }
}

proof fn lemma_meta_from_err(fields: Seq<(Seq<char>, JsonRep)>, j: int)
    requires
        0 <= j < fields.len(),
        !(fields[j].1 is Text),
    ensures
        spec_meta_from(fields) is None,
    decreases j,
{
    if j > 0 {
        lemma_meta_from_err(fields.drop_first(), j - 1);
    }
}

fn message_from_json(v: &JsonValue) -> (r: Option<Message>)
    ensures
        r matches Some(m) ==> spec_message_from(v@) == Some(m@),
        r is None ==> spec_message_from(v@) is None,
{
    match v {
        JsonValue::Object(_) => {},
        _ => {
            return None;
        },
    }
    let role_s = match crate::decode::get_req_str(v, "role") {
        Ok(s) => s,
        Err(_) => {
            return None;
        },
    };
    let content = match crate::decode::get_req_str(v, "content") {
        Ok(s) => s,
        Err(_) => {
            return None;
        },
    };
    let role = if str_eq(role_s.as_str(), "assistant") {
        Role::Assistant
    } else if str_eq(role_s.as_str(), "user") {
        Role::User
    } else {
        return None;
    };
    Some(Message { role, content })
}

fn messages_from_json(items: &Vec<JsonValue>) -> (r: Option<Vec<Message>>)
    ensures
        r matches Some(ms) ==> spec_messages_from(json_seq_rep(items@)) == Some(
            message_seq_rep(ms@),
        ),
        r is None ==> spec_messages_from(json_seq_rep(items@)) is None,
{
    let ghost docs = json_seq_rep(items@);
    let mut out: Vec<Message> = Vec::new();
    let mut i: usize = 0;
    while i < items.len()
        invariant
            docs == json_seq_rep(items@),
            docs.len() == items@.len(),
            i <= items@.len(),
            out@.len() == i,
            forall|j: int| 0 <= j < i ==> spec_message_from(docs[j]) == Some(out@[j]@),
        decreases items@.len() - i,
    {
        match message_from_json(&items[i]) {
            Some(m) => {
                out.push(m);
            },
            None => {
                proof {
                    lemma_messages_from_err(docs, i as int);
                }
                return None;
            },
        }
        i = i + 1;
    }
    proof {
        lemma_messages_from_ok(docs, message_seq_rep(out@));
    }
    Some(out)
}

fn strings_from_json(items: &Vec<JsonValue>) -> (r: Option<Vec<String>>)
    ensures
        r matches Some(ss) ==> spec_strings_from(json_seq_rep(items@)) == Some(
            string_seq_rep(ss@),
        ),
        r is None ==> spec_strings_from(json_seq_rep(items@)) is None,
{
    let ghost docs = json_seq_rep(items@);
    let mut out: Vec<String> = Vec::new();
    let mut i: usize = 0;
    while i < items.len()
        invariant
            docs == json_seq_rep(items@),
            docs.len() == items@.len(),
            i <= items@.len(),
            out@.len() == i,
            forall|j: int| 0 <= j < i ==> docs[j] == JsonRep::Text(out@[j]@),
        decreases items@.len() - i,
    {
        match &items[i] {
            JsonValue::Text(s) => {
                out.push(s.clone());
            },
            _ => {
                proof {
                    lemma_strings_from_err(docs, i as int);
                }
                return None;
            },
        }
        i = i + 1;
    }
    proof {
        lemma_strings_from_ok(docs, string_seq_rep(out@));
    }
    Some(out)
}

fn meta_from_json(fields: &Vec<(String, JsonValue)>) -> (r: Option<Vec<(String, String)>>)
    ensures
        r matches Some(ps) ==> spec_meta_from(json_fields_rep(fields@)) == Some(pairs_rep(ps@)),
        r is None ==> spec_meta_from(json_fields_rep(fields@)) is None,
{
    let ghost docs = json_fields_rep(fields@);
    let mut out: Vec<(String, String)> = Vec::new();
    let mut i: usize = 0;
    while i < fields.len()
        invariant
            docs == json_fields_rep(fields@),
            docs.len() == fields@.len(),
            i <= fields@.len(),
            out@.len() == i,
            forall|j: int| 0 <= j < i ==> docs[j].0 == out@[j].0@ && docs[j].1 == JsonRep::Text(
                out@[j].1@,
            ),
        decreases fields@.len() - i,
    {
        match &fields[i].1 {
            JsonValue::Text(s) => {
                out.push((fields[i].0.clone(), s.clone()));
            },
            _ => {
                proof {
                    lemma_meta_from_err(docs, i as int);
                }
                return None;
            },
        }
        i = i + 1;
    }
    proof {
        lemma_meta_from_ok(docs, pairs_rep(out@));
    }
    Some(out)
}

/// Deserialize a request document as a body: the exact inverse of
/// `body_to_json` on the documents it produces.
pub fn message_body_from_json(v: &JsonValue) -> (r: Option<MessageBody>)
    ensures
        r matches Some(b) ==> spec_body_from(v@) == Some(b@),
        r is None ==> spec_body_from(v@) is None,
{
    match v {
        JsonValue::Object(_) => {},
        _ => {
            return None;
        },
    }
    let model = match crate::decode::get_req_str(v, "model") {
        Ok(s) => s,
        Err(_) => {
            return None;
        },
    };
    let messages = match v.get_field("messages") {
        Some(f) => match f {
            JsonValue::Array(items) => match messages_from_json(items) {
                Some(ms) => ms,
                None => {
                    return None;
                },
            },
            _ => {
                return None;
            },
        },
        None => {
            return None;
        },
    };
    let max_tokens = match crate::decode::get_req_i32(v, "max_tokens") {
        Ok(n) => n,
        Err(_) => {
            return None;
        },
    };
    let metadata = match v.get_field("metadata") {
        None => None,
        Some(f) => match f {
            JsonValue::Object(mfields) => match meta_from_json(mfields) {
                Some(ps) => Some(ps),
                None => {
                    return None;
                },
            },
            _ => {
                return None;
            },
        },
    };
    let stop_sequences = match v.get_field("stop_sequences") {
        None => None,
        Some(f) => match f {
            JsonValue::Array(sdocs) => match strings_from_json(sdocs) {
                Some(ss) => Some(ss),
                None => {
                    return None;
                },
            },
            _ => {
                return None;
            },
        },
    };
    let stream = match crate::decode::get_opt_bool(v, "stream") {
        Ok(o) => o,
        Err(_) => {
            return None;
        },
    };
    let system = match crate::decode::get_opt_str(v, "system") {
        Ok(o) => o,
        Err(_) => {
            return None;
        },
    };
    Some(MessageBody { model, messages, max_tokens, metadata, stop_sequences, stream, system })
}

proof fn lemma_message_round(m: MessageRep)
    ensures
        spec_message_from(message_json(m)) == Some(m),
{
    reveal_strlit("role");
    reveal_strlit("content");
    reveal_strlit("assistant");
    reveal_strlit("user");
    assert("role"@.len() == 4);
    assert("content"@.len() == 7);
    assert("assistant"@.len() == 9);
    assert("user"@.len() == 4);
    assert("role"@ != "content"@);
    assert("user"@ != "assistant"@);
    let fs = message_json(m)->Object_0;
    assert(fs.len() == 2);
    assert(rep_lookup(fs, "role"@) == Some(JsonRep::Text(role_text(m.role))));
    assert(fs.skip(1)[0] == fs[1]);
    assert(rep_lookup(fs, "content"@) == rep_lookup(fs.skip(1), "content"@));
    assert(rep_lookup(fs, "content"@) == Some(JsonRep::Text(m.content)));
    assert(role_of_text(role_text(m.role)) == Some(m.role));
}

/// Round trip: serializing a request body and deserializing the resulting
/// document yields the same body, field for field — the core request path
/// loses nothing.
#[verifier::rlimit(100)]
pub proof fn lemma_body_round_trip(b: MessageBodyRep)
    ensures
        spec_body_from(spec_body_json(b)) == Some(b),
{
    reveal_strlit("model");
    reveal_strlit("messages");
    reveal_strlit("max_tokens");
    reveal_strlit("metadata");
    reveal_strlit("stop_sequences");
    reveal_strlit("stream");
    reveal_strlit("system");
    assert("model"@.len() == 5);
    assert("messages"@.len() == 8);
    assert("max_tokens"@.len() == 10);
    assert("metadata"@.len() == 8);
    assert("stop_sequences"@.len() == 14);
    assert("stream"@.len() == 6);
    assert("system"@.len() == 6);
    assert("messages"@[2] == 's' && "metadata"@[2] == 't');
    assert("stream"@[1] == 't' && "system"@[1] == 'y');
    assert("model"@ != "messages"@ && "model"@ != "max_tokens"@ && "model"@ != "metadata"@
        && "model"@ != "stop_sequences"@ && "model"@ != "stream"@ && "model"@ != "system"@);
    assert("messages"@ != "max_tokens"@ && "messages"@ != "metadata"@ && "messages"@
        != "stop_sequences"@ && "messages"@ != "stream"@ && "messages"@ != "system"@);
    assert("max_tokens"@ != "metadata"@ && "max_tokens"@ != "stop_sequences"@ && "max_tokens"@
        != "stream"@ && "max_tokens"@ != "system"@);
    assert("metadata"@ != "stop_sequences"@ && "metadata"@ != "stream"@ && "metadata"@
        != "system"@);
    assert("stop_sequences"@ != "stream"@ && "stop_sequences"@ != "system"@);
    assert("stream"@ != "system"@);
    let doc = spec_body_json(b);
    let t_model = ("model"@, JsonRep::Text(b.model));
    let t_msgs = ("messages"@, JsonRep::Array(messages_json(b.messages)));
    let t_max = ("max_tokens"@, JsonRep::Int(b.max_tokens as int));
    let meta_seg = opt_field(
        "metadata"@,
        match b.metadata {
            Some(ps) => Some(JsonRep::Object(meta_json(ps))),
            None => None,
        },
    );
    let stop_seg = opt_field(
        "stop_sequences"@,
        match b.stop_sequences {
            Some(ss) => Some(JsonRep::Array(strings_json(ss))),
            None => None,
        },
    );
    let stream_seg = opt_field(
        "stream"@,
        match b.stream {
            Some(s) => Some(JsonRep::Bool(s)),
            None => None,
        },
    );
    let system_seg = opt_field(
        "system"@,
        match b.system {
            Some(s) => Some(JsonRep::Text(s)),
            None => None,
        },
    );
    let fields = doc->Object_0;
    assert(fields == seq![t_model, t_msgs, t_max] + meta_seg + stop_seg + stream_seg + system_seg);
    assert(fields[0] == t_model);
    assert(fields[1] == t_msgs);
    assert(fields[2] == t_max);
    assert(fields.len() >= 3);

    // keys of the optional segments
    assert(forall|j: int| 0 <= j < meta_seg.len() ==> meta_seg[j].0 == "metadata"@);
    assert(forall|j: int| 0 <= j < stop_seg.len() ==> stop_seg[j].0 == "stop_sequences"@);
    assert(forall|j: int| 0 <= j < stream_seg.len() ==> stream_seg[j].0 == "stream"@);
    assert(forall|j: int| 0 <= j < system_seg.len() ==> system_seg[j].0 == "system"@);

    let tail3 = fields.skip(3);
    assert(tail3 =~= meta_seg + stop_seg + stream_seg + system_seg);

    // the three required fields
    assert(rep_lookup(fields, "model"@) == Some(t_model.1));
    assert(fields.skip(1)[0] == fields[1]);
    assert(rep_lookup(fields, "messages"@) == rep_lookup(fields.skip(1), "messages"@));
    assert(rep_lookup(fields, "messages"@) == Some(t_msgs.1));
    assert(fields.skip(1).skip(1) =~= fields.skip(2));
    assert(fields.skip(2)[0] == fields[2]);
    assert(rep_lookup(fields, "max_tokens"@) == rep_lookup(fields.skip(1), "max_tokens"@));
    assert(rep_lookup(fields.skip(1), "max_tokens"@) == rep_lookup(
        fields.skip(1).skip(1),
        "max_tokens"@,
    ));
    assert(rep_lookup(fields, "max_tokens"@) == Some(t_max.1));

    // messages invert element for element
    assert forall|j: int| 0 <= j < messages_json(b.messages).len() implies spec_message_from(
        messages_json(b.messages)[j],
    ) == Some(b.messages[j]) by {
        lemma_message_round(b.messages[j]);
    }
    lemma_messages_from_ok(messages_json(b.messages), b.messages);

    // every lookup past the required fields lands in tail3
    assert(rep_lookup(fields, "metadata"@) == rep_lookup(fields.skip(1), "metadata"@));
    assert(rep_lookup(fields.skip(1), "metadata"@) == rep_lookup(
        fields.skip(1).skip(1),
        "metadata"@,
    ));
    assert(fields.skip(2).skip(1) =~= tail3);
    assert(rep_lookup(fields.skip(2), "metadata"@) == rep_lookup(tail3, "metadata"@));
    assert(rep_lookup(fields, "stop_sequences"@) == rep_lookup(fields.skip(1), "stop_sequences"@));
    assert(rep_lookup(fields.skip(1), "stop_sequences"@) == rep_lookup(
        fields.skip(1).skip(1),
        "stop_sequences"@,
    ));
    assert(rep_lookup(fields.skip(2), "stop_sequences"@) == rep_lookup(
        tail3,
        "stop_sequences"@,
    ));
    assert(rep_lookup(fields, "stream"@) == rep_lookup(fields.skip(1), "stream"@));
    assert(rep_lookup(fields.skip(1), "stream"@) == rep_lookup(fields.skip(1).skip(1), "stream"@));
    assert(rep_lookup(fields.skip(2), "stream"@) == rep_lookup(tail3, "stream"@));
    assert(rep_lookup(fields, "system"@) == rep_lookup(fields.skip(1), "system"@));
    assert(rep_lookup(fields.skip(1), "system"@) == rep_lookup(fields.skip(1).skip(1), "system"@));
    assert(rep_lookup(fields.skip(2), "system"@) == rep_lookup(tail3, "system"@));

    // metadata
    match b.metadata {
        Some(ps) => {
            assert(tail3[0] == ("metadata"@, JsonRep::Object(meta_json(ps))));
            assert(rep_lookup(tail3, "metadata"@) == Some(JsonRep::Object(meta_json(ps))));
            lemma_meta_from_ok(meta_json(ps), ps);
        },
        None => {
            assert(tail3 =~= (stop_seg + stream_seg + system_seg) + Seq::<
                (Seq<char>, JsonRep),
            >::empty());
            crate::json::lemma_lookup_skip_keys(
                stop_seg + stream_seg + system_seg,
                Seq::empty(),
                "metadata"@,
            );
            assert(rep_lookup(tail3, "metadata"@) is None);
        },
    }

    // stop sequences: past the metadata segment
    assert(tail3 =~= meta_seg + (stop_seg + stream_seg + system_seg));
    crate::json::lemma_lookup_skip_keys(
        meta_seg,
        stop_seg + stream_seg + system_seg,
        "stop_sequences"@,
    );
    match b.stop_sequences {
        Some(ss) => {
            assert((stop_seg + stream_seg + system_seg)[0] == ("stop_sequences"@, JsonRep::Array(
                strings_json(ss),
            )));
            assert(rep_lookup(tail3, "stop_sequences"@) == Some(JsonRep::Array(strings_json(ss))));
            lemma_strings_from_ok(strings_json(ss), ss);
        },
        None => {
            assert(stop_seg + stream_seg + system_seg =~= (stream_seg + system_seg) + Seq::<
                (Seq<char>, JsonRep),
            >::empty());
            crate::json::lemma_lookup_skip_keys(
                stream_seg + system_seg,
                Seq::empty(),
                "stop_sequences"@,
            );
            assert(rep_lookup(tail3, "stop_sequences"@) is None);
        },
    }

    // stream: past the metadata and stop-sequence segments
    crate::json::lemma_lookup_skip_keys(meta_seg, stop_seg + stream_seg + system_seg, "stream"@);
    assert(stop_seg + stream_seg + system_seg =~= stop_seg + (stream_seg + system_seg));
    crate::json::lemma_lookup_skip_keys(stop_seg, stream_seg + system_seg, "stream"@);
    match b.stream {
        Some(s) => {
            assert((stream_seg + system_seg)[0] == ("stream"@, JsonRep::Bool(s)));
            assert(rep_lookup(tail3, "stream"@) == Some(JsonRep::Bool(s)));
        },
        None => {
            assert(stream_seg + system_seg =~= system_seg + Seq::<(Seq<char>, JsonRep)>::empty());
            crate::json::lemma_lookup_skip_keys(system_seg, Seq::empty(), "stream"@);
            assert(rep_lookup(tail3, "stream"@) is None);
        },
    }

    // system: past every other optional segment
    crate::json::lemma_lookup_skip_keys(meta_seg, stop_seg + stream_seg + system_seg, "system"@);
    crate::json::lemma_lookup_skip_keys(stop_seg, stream_seg + system_seg, "system"@);
    assert(stream_seg + system_seg =~= stream_seg + (system_seg + Seq::<
        (Seq<char>, JsonRep),
    >::empty()));
    crate::json::lemma_lookup_skip_keys(
        stream_seg,
        system_seg + Seq::empty(),
        "system"@,
    );
    match b.system {
        Some(s) => {
            assert((system_seg + Seq::<(Seq<char>, JsonRep)>::empty())[0] == ("system"@,
            JsonRep::Text(s)));
            assert(rep_lookup(tail3, "system"@) == Some(JsonRep::Text(s)));
        },
        None => {
            assert(system_seg + Seq::<(Seq<char>, JsonRep)>::empty() =~= Seq::<
                (Seq<char>, JsonRep),
            >::empty());
            assert(rep_lookup(tail3, "system"@) is None);
        },
    }

    assert(spec_body_from(doc) == Some(b));
}

} // verus!
