//! The rules around the remote voice-processing service: what is sent, and
//! how its answers are judged.

use vstd::prelude::*;
use vstd::string::*;
use crate::context::{gather_voice_context, is_default_field, VoiceContext};

verus! {

/// What is sent to the service for one recording.
#[derive(Debug, Clone)]
pub struct VoiceProcessRequest {
    /// The recording, base64 encoded.
    pub audio: String,
    /// The recording's format.
    pub format: String,
    /// The context that the recording was made in.
    pub context: VoiceContext,
}

/// The text that the `base64` crate's `STANDARD` engine encodes `data` as.
pub uninterp spec fn base64_standard_text(data: Seq<u8>) -> Seq<char>;

/// Whether the length of the base64 text for `len` bytes fits the machine.
pub open spec fn encodable_len(len: nat) -> bool {
    len / 3 * 4 + 4 <= usize::MAX
}

/// Calls `Engine::encode` on `base64::engine::general_purpose::STANDARD`.
/// The engine panics where the encoded length overflows; the precondition
/// leaves those lengths out. Nothing is proved of the encoding: the contract
/// only gives its text a name, which depends on the bytes alone.
#[verifier::external_body]
pub(crate) fn encode_base64(data: &Vec<u8>) -> (text: String)
    requires
        encodable_len(data@.len()),
    ensures
        text@ == base64_standard_text(data@),
{
    base64::Engine::encode(&base64::engine::general_purpose::STANDARD, data)
}

/// Checks a recording before it is sent. The recorder already delivers the
/// format that the service expects, so the bytes pass unchanged; only an
/// empty recording is refused.
pub fn convert_audio_to_groq_format(audio_data: Vec<u8>) -> (converted: Result<Vec<u8>, String>)
    ensures
        audio_data@.len() == 0 ==> (converted matches Err(e) && e@ == "Audio data is empty"@),
        audio_data@.len() > 0 ==> converted == Ok::<Vec<u8>, String>(audio_data),
{
    if audio_data.len() == 0 {
        return Err(String::from_str("Audio data is empty"));
    }
    Ok(audio_data)
}

/// Checks a recording as [`convert_audio_to_groq_format`] does, and words the
/// refusal for the caller of the service.
pub fn prepare_audio(audio_data: Vec<u8>) -> (prepared: Result<Vec<u8>, String>)
    ensures
        audio_data@.len() == 0 ==> (prepared matches Err(e) && e@
            == "Audio conversion failed: "@ + "Audio data is empty"@),
        audio_data@.len() > 0 ==> prepared == Ok::<Vec<u8>, String>(audio_data),
{
    match convert_audio_to_groq_format(audio_data) {
        Ok(audio) => Ok(audio),
        Err(reason) => {
            let mut message = String::from_str("Audio conversion failed: ");
            message.append(reason.as_str());
            Err(message)
        },
    }
}

/// Builds the request for a recording: the audio base64 encoded, the format
/// `wav`, and the given context, or the gathered one where none is given.
pub fn build_voice_request(audio_data: &Vec<u8>, context: Option<VoiceContext>) -> (request:
    VoiceProcessRequest)
    requires
        encodable_len(audio_data@.len()),
    ensures
        request.audio@ == base64_standard_text(audio_data@),
        request.format@ == "wav"@,
        context matches Some(given) ==> request.context == given,
        context is None ==> is_default_field(request.context) && request.context.package_name@
            == "unknown"@,
{
    let audio = encode_base64(audio_data);
    let voice_context = match context {
        Some(given) => given,
        None => gather_voice_context(),
    };
    VoiceProcessRequest { audio, format: String::from_str("wav"), context: voice_context }
}

/// Whether an HTTP status code reports success.
pub open spec fn is_success_status(status: u16) -> bool {
    200 <= status < 300
}

/// Whether an HTTP status code reports an error of the client.
pub open spec fn is_client_error_status(status: u16) -> bool {
    400 <= status < 500
}

/// Whether a status code shows that the service is there: a success, or an
/// error that it blames on the client, such as a refused method.
pub fn is_backend_reachable(status: u16) -> (reachable: bool)
    ensures
        reachable == (is_client_error_status(status) || is_success_status(status)),
{
    (400 <= status && status < 500) || (200 <= status && status < 300)
}

/// The message for an answer whose status is no success.
pub open spec fn backend_error_text(status_text: Seq<char>, body: Option<Seq<char>>) -> Seq<char> {
    "Backend error "@ + status_text + ": "@ + match body {
        Some(text) => text,
        None => "Unknown error"@,
    }
}

/// Words the message for an answer whose status is no success. `body` is the
/// answer's text, or nothing where it could not be read.
pub fn backend_error_message(status_text: &str, body: Option<String>) -> (message: String)
    ensures
        message@ == backend_error_text(status_text@, body.deep_view()),
{
    let mut message = String::from_str("Backend error ");
    message.append(status_text);
    message.append(": ");
    match body {
        Some(text) => {
            message.append(text.as_str());
        },
        None => {
            message.append("Unknown error");
        },
    }
    message
}

/// Judges the answer of the service by its status: the body of a success is
/// passed on to be read, anything else is an error. `body` is the answer's
/// text, or the reason why it could not be read.
pub fn judge_backend_answer(status: u16, status_text: &str, body: Result<String, String>) -> (text:
    Result<String, String>)
    ensures
        is_success_status(status) ==> match body {
            Ok(b) => text == Ok::<String, String>(b),
            Err(reason) => text matches Err(e) && e@ == "Failed to read response: "@ + reason@,
        },
        !is_success_status(status) ==> (text matches Err(e) && e@ == backend_error_text(
            status_text@,
            match body {
                Ok(b) => Some(b@),
                Err(_) => None,
            },
        )),
{
    if 200 <= status && status < 300 {
        match body {
            Ok(b) => Ok(b),
            Err(reason) => {
                let mut message = String::from_str("Failed to read response: ");
                message.append(reason.as_str());
                Err(message)
            },
        }
    } else {
        let readable = match body {
            Ok(b) => Some(b),
            Err(_) => None,
        };
        Err(backend_error_message(status_text, readable))
    }
}

/// Judges what the service says of its own work: a failure is an error, with
/// the service's message where it gave one.
pub fn processing_verdict(success: bool, error: Option<String>) -> (verdict: Result<(), String>)
    ensures
        success ==> verdict is Ok,
        !success ==> (verdict matches Err(e) && e@ == match error {
            Some(message) => message@,
            None => "Unknown backend error"@,
        }),
{
    if success {
        Ok(())
    } else {
        match error {
            Some(message) => Err(message),
            None => Err(String::from_str("Unknown backend error")),
        }
    }
}

} // verus!
