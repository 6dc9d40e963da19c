use vstd::prelude::*;

use crate::json::{json_escaped_plain, json_plain, json_quoted, json_string};
use crate::voice::{voice_name, Voice};

verus! {

/// Endpoint that turns text into audio.
pub const SPEECH_URL: &'static str = "https://api.openai.com/v1/audio/speech";

/// Endpoint that turns audio into text.
pub const TRANSCRIPTION_URL: &'static str = "https://api.openai.com/v1/audio/transcriptions";

/// Model named in every transcription upload.
pub const TRANSCRIPTION_MODEL: &'static str = "whisper-1";

/// Format asked of the transcription endpoint: plain text.
pub const TRANSCRIPTION_FORMAT: &'static str = "text";

/// The JSON body of a synthesis request: the input text, the fixed model and
/// the voice, as members of one object in key order.
pub open spec fn speech_body_text(v: Voice, input: Seq<char>) -> Seq<char> {
    "{\"input\":"@ + json_quoted(input) + ",\"model\":\"tts-1\",\"voice\":"@ + json_quoted(
        voice_name(v),
    ) + "}"@
}

/// The body of the synthesis request for `input` spoken with `voice`.
pub fn speech_body(voice: Voice, input: &str) -> (r: String)
    ensures
        r@ == speech_body_text(voice, input@),
{
    let quoted_input = json_string(input);
    let name = voice.name();
    let quoted_voice = json_string(name.as_str());
    let mut body = String::from_str("{\"input\":");
    body.append(quoted_input.as_str());
    body.append(",\"model\":\"tts-1\",\"voice\":");
    body.append(quoted_voice.as_str());
    body.append("}");
    body
}

/// For every voice and every input text, the body's `voice` member holds the
/// selected voice's name verbatim as a JSON string, and that name differs
/// from every other voice's.
pub proof fn voice_member_is_voice_name(v: Voice, input: Seq<char>)
    ensures
        speech_body_text(v, input) == "{\"input\":"@ + json_quoted(input)
            + ",\"model\":\"tts-1\",\"voice\":\""@ + voice_name(v) + "\"}"@,
        forall|w: Voice| voice_name(w) == voice_name(v) ==> w == v,
{
    let n = voice_name(v);
    assert forall|i: int| 0 <= i < n.len() implies json_plain(#[trigger] n[i]) by {
        assert(n[i] != '"' && n[i] != '\\' && (n[i] as u32) >= 0x20);
    }
    json_escaped_plain(n);
    reveal_strlit(",\"model\":\"tts-1\",\"voice\":");
    reveal_strlit(",\"model\":\"tts-1\",\"voice\":\"");
    reveal_strlit("}");
    reveal_strlit("\"}");
    assert(speech_body_text(v, input) =~= "{\"input\":"@ + json_quoted(input)
        + ",\"model\":\"tts-1\",\"voice\":\""@ + voice_name(v) + "\"}"@);
    assert forall|w: Voice| voice_name(w) == voice_name(v) implies w == v by {
        crate::voice::voice_name_injective(w, v);
    }
}

/// The value of the authorization header for `api_key`.
pub fn bearer(api_key: &str) -> (r: String)
    ensures
        r@ == "Bearer "@ + api_key@,
{
    let mut r = String::from_str("Bearer ");
    r.append(api_key);
    r
}

} // verus!
