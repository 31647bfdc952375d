//! The JSON text of a chat request.
//!
//! The frame of the document (braces, keys, commas, the number) is written
//! here; string values are turned into JSON string literals by `serde_json`.

use crate::chat::{
    chat_request_for, model_name, prompt_for, role_text, system_instruction, ChatRequest,
    ChatRequestModel, Role,
};
use vstd::prelude::*;

verus! {

/// The JSON string literal that `serde_json` writes for the characters `s`:
/// the opening quote, the escaped content and the closing quote.
pub uninterp spec fn json_string_text(s: Seq<char>) -> Seq<char>;

/// Makes `serde_json::Value::from(s)`, a string value, and calls `to_string`
/// on it, which goes through `serde_json`'s `Display` for `Value` in its
/// compact form. Trusted, not proved: the text that comes back depends on the
/// characters of `s` alone, so it is the one that `json_string_text` names.
/// Nothing is claimed here of which characters are escaped, or how.
#[verifier::external_body]
fn json_string(s: &str) -> (out: String)
    ensures
        out@ == json_string_text(s@),
{
    serde_json::Value::from(s).to_string()
}

/// The decimal digit for `d`.
pub open spec fn digit_char(d: int) -> char
    recommends
        0 <= d < 10,
{
    if d == 0 {
        '0'
    } else if d == 1 {
        '1'
    } else if d == 2 {
        '2'
    } else if d == 3 {
        '3'
    } else if d == 4 {
        '4'
    } else if d == 5 {
        '5'
    } else if d == 6 {
        '6'
    } else if d == 7 {
        '7'
    } else if d == 8 {
        '8'
    } else {
        '9'
    }
}

/// The JSON number for a temperature of `tenths` tenths: the whole part
/// without leading zeros, a point, and one fractional digit.
pub open spec fn temperature_text(tenths: u8) -> Seq<char> {
    let whole = tenths as int / 10;
    let frac = tenths as int % 10;
    if whole >= 10 {
        seq![digit_char(whole / 10), digit_char(whole % 10), '.', digit_char(frac)]
    } else {
        seq![digit_char(whole), '.', digit_char(frac)]
    }
}

/// The JSON object of one message whose content is already a JSON string
/// literal: the role first, then the content.
pub open spec fn message_text(role: Role, content_literal: Seq<char>) -> Seq<char> {
    "{\"role\":\""@ + role_text(role) + "\",\"content\":"@ + content_literal + "}"@
}

/// The parts in order, with one comma between neighbours.
pub open spec fn comma_joined(parts: Seq<Seq<char>>) -> Seq<char>
    decreases parts.len(),
{
    if parts.len() == 0 {
        Seq::empty()
    } else if parts.len() == 1 {
        parts[0]
    } else {
        comma_joined(parts.drop_last()) + ","@ + parts.last()
    }
}

/// The request document around its parts: the keys `model`, `messages` and
/// `temperature`, in that order and no others.
pub open spec fn frame_text(
    model_literal: Seq<char>,
    message_texts: Seq<Seq<char>>,
    temperature_tenths: u8,
) -> Seq<char> {
    "{\"model\":"@ + model_literal + ",\"messages\":["@ + comma_joined(message_texts)
        + "],\"temperature\":"@ + temperature_text(temperature_tenths) + "}"@
}

/// The texts of the messages of `req`, each with its content as a JSON
/// string literal.
pub open spec fn message_texts_of(req: ChatRequestModel) -> Seq<Seq<char>> {
    Seq::new(
        req.messages.len(),
        |i: int| message_text(req.messages[i].role, json_string_text(req.messages[i].content)),
    )
}

/// The serialized request body of `req`.
pub open spec fn body_text(req: ChatRequestModel) -> Seq<char> {
    frame_text(json_string_text(req.model), message_texts_of(req), req.temperature_tenths)
}

/// The views of a vector of strings.
pub open spec fn texts_of(parts: Seq<String>) -> Seq<Seq<char>> {
    Seq::new(parts.len(), |i: int| parts[i]@)
}

fn digit_str(d: u8) -> (out: &'static str)
    requires
        d < 10,
    ensures
        out@ == seq![digit_char(d as int)],
{
    proof {
        reveal_strlit("0");
        reveal_strlit("1");
        reveal_strlit("2");
        reveal_strlit("3");
        reveal_strlit("4");
        reveal_strlit("5");
        reveal_strlit("6");
        reveal_strlit("7");
        reveal_strlit("8");
        reveal_strlit("9");
    }
    let out = if d == 0 {
        "0"
    } else if d == 1 {
        "1"
    } else if d == 2 {
        "2"
    } else if d == 3 {
        "3"
    } else if d == 4 {
        "4"
    } else if d == 5 {
        "5"
    } else if d == 6 {
        "6"
    } else if d == 7 {
        "7"
    } else if d == 8 {
        "8"
    } else {
        "9"
    };
    assert(out@ =~= seq![digit_char(d as int)]);
    out
}

/// Writes a temperature given in tenths as a JSON number.
pub fn write_temperature(tenths: u8) -> (out: String)
    ensures
        out@ == temperature_text(tenths),
{
    let whole: u8 = tenths / 10;
    let frac: u8 = tenths % 10;
    let mut out = String::new();
    if whole >= 10 {
        out.append(digit_str(whole / 10));
        out.append(digit_str(whole % 10));
    } else {
        out.append(digit_str(whole));
    }
    out.append(".");
    out.append(digit_str(frac));
    proof {
        reveal_strlit(".");
        assert(out@ =~= temperature_text(tenths));
    }
    out
}

/// Writes the JSON object of one message from its role and its content as a
/// JSON string literal.
pub fn frame_message(role: Role, content_literal: &str) -> (out: String)
    ensures
        out@ == message_text(role, content_literal@),
{
    let mut out = String::from_str("{\"role\":\"");
    out.append(role.name());
    out.append("\",\"content\":");
    out.append(content_literal);
    out.append("}");
    out
}

/// Writes the request document around a model literal, the message objects
/// and the temperature.
pub fn frame_body(model_literal: &str, message_texts: &Vec<String>, temperature_tenths: u8) -> (out:
    String)
    ensures
        out@ == frame_text(model_literal@, texts_of(message_texts@), temperature_tenths),
{
    let ghost parts = texts_of(message_texts@);
    let ghost head = "{\"model\":"@ + model_literal@ + ",\"messages\":["@;
    let mut out = String::from_str("{\"model\":");
    out.append(model_literal);
    out.append(",\"messages\":[");
    let n = message_texts.len();
    let mut i: usize = 0;
    while i < n
        invariant
            n == message_texts@.len(),
            parts == texts_of(message_texts@),
            i <= n,
            out@ == head + comma_joined(parts.take(i as int)),
        decreases n - i,
    {
        proof {
            assert(parts.take(i as int + 1).drop_last() =~= parts.take(i as int));
            assert(parts.take(i as int + 1).last() == message_texts@[i as int]@);
        }
        if i > 0 {
            out.append(",");
            out.append(message_texts[i].as_str());
            assert(out@ =~= head + comma_joined(parts.take(i as int + 1)));
        } else {
            out.append(message_texts[i].as_str());
            assert(comma_joined(parts.take(0)) =~= Seq::<char>::empty());
            assert(out@ =~= head + comma_joined(parts.take(1)));
        }
        i += 1;
    }
    assert(parts.take(n as int) =~= parts);
    out.append("],\"temperature\":");
    let number = write_temperature(temperature_tenths);
    out.append(number.as_str());
    out.append("}");
    out
}

/// Serializes a chat request as the body of the HTTP request.
pub fn serialize(req: &ChatRequest) -> (out: String)
    ensures
        out@ == body_text(req@),
{
    let n = req.messages.len();
    let mut texts: Vec<String> = Vec::new();
    let mut i: usize = 0;
    while i < n
        invariant
            n == req.messages@.len(),
            i <= n,
            texts@.len() == i,
            forall|k: int| 0 <= k < i ==> #[trigger] texts@[k]@ == message_texts_of(req@)[k],
        decreases n - i,
    {
        let message = &req.messages[i];
        let content_literal = json_string(message.content.as_str());
        let text = frame_message(message.role, content_literal.as_str());
        texts.push(text);
        i += 1;
    }
    assert(texts_of(texts@) =~= message_texts_of(req@));
    let model_literal = json_string(req.model.as_str());
    frame_body(model_literal.as_str(), &texts, req.temperature_tenths)
}

/// The body for any user input is one object with the keys `model`,
/// `messages` and `temperature` and no others; its messages are two, the
/// system message and then the user message, each with a role and a content;
/// only the three string literals depend on anything but the frame.
pub proof fn law_body_shape(user_input: Seq<char>)
    ensures
        body_text(chat_request_for(user_input)) == "{\"model\":"@ + json_string_text(model_name())
            + ",\"messages\":[{\"role\":\"system\",\"content\":"@ + json_string_text(
            system_instruction(),
        ) + "},{\"role\":\"user\",\"content\":"@ + json_string_text(prompt_for(user_input))
            + "}],\"temperature\":0.7}"@,
{
    let req = chat_request_for(user_input);
    let system_literal = json_string_text(system_instruction());
    let user_literal = json_string_text(prompt_for(user_input));
    let texts = message_texts_of(req);
    let first = message_text(Role::System, system_literal);
    let second = message_text(Role::User, user_literal);
    assert(texts =~= seq![first, second]);
    assert(texts.drop_last() =~= seq![first]);
    assert(comma_joined(texts) == first + ","@ + second) by {
        assert(comma_joined(texts.drop_last()) == first);
    }
    reveal_strlit("{\"role\":\"");
    reveal_strlit("system");
    reveal_strlit("user");
    reveal_strlit("\",\"content\":");
    reveal_strlit("}");
    reveal_strlit(",");
    reveal_strlit(",\"messages\":[");
    reveal_strlit("],\"temperature\":");
    reveal_strlit(",\"messages\":[{\"role\":\"system\",\"content\":");
    reveal_strlit("},{\"role\":\"user\",\"content\":");
    reveal_strlit("}],\"temperature\":0.7}");
    assert(",\"messages\":["@ + "{\"role\":\""@ + "system"@ + "\",\"content\":"@
        =~= ",\"messages\":[{\"role\":\"system\",\"content\":"@);
    assert("}"@ + ","@ + "{\"role\":\""@ + "user"@ + "\",\"content\":"@
        =~= "},{\"role\":\"user\",\"content\":"@);
    assert("}"@ + "],\"temperature\":"@ + temperature_text(7) + "}"@
        =~= "}],\"temperature\":0.7}"@);
    let head = "{\"model\":"@ + json_string_text(model_name());
    let open_system = ",\"messages\":["@ + "{\"role\":\""@ + "system"@ + "\",\"content\":"@;
    let open_user = "}"@ + ","@ + "{\"role\":\""@ + "user"@ + "\",\"content\":"@;
    let close = "}"@ + "],\"temperature\":"@ + temperature_text(7) + "}"@;
    assert(body_text(req) =~= head + open_system + system_literal + open_user + user_literal
        + close);
}

} // verus!
