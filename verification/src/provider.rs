//! Synthesis-provider dispatch: selecting the provider from a user's
//! configuration, preparing each provider's request payload, and decoding
//! the cloud provider's response into raw audio bytes.

use vstd::prelude::*;
use vstd::string::StrSliceExecFns;
use vstd::string::StringExecFns;
use crate::attribution::{pause_marker, pause_marker_str};
use crate::text::{
    replaced, replace_all, matches_at, dec_digits, digit_char, digit_str, u64_to_dec,
};

verus! {

/// The two synthesis backends.
#[derive(Clone, Copy, Debug, PartialEq, Eq, Structural)]
pub enum ProviderChoice {
    Cloud,
    Local,
}

/// Why a synthesis call failed.
#[derive(Clone, Copy, Debug, PartialEq, Eq, Structural)]
pub enum ProviderError {
    AuthError,
    QuotaError,
    NetworkError,
    MalformedResponse,
}

/// The cloud provider's voice selection.
pub struct VoiceSelectionParams {
    pub language_code: String,
    pub name: String,
    pub ssml_gender: String,
}

/// The mathematical shape of [`VoiceSelectionParams`].
pub struct VoiceSpec {
    pub language_code: Seq<char>,
    pub name: Seq<char>,
    pub ssml_gender: Seq<char>,
}

impl View for VoiceSelectionParams {
    type V = VoiceSpec;

    open spec fn view(&self) -> VoiceSpec {
        VoiceSpec {
            language_code: self.language_code@,
            name: self.name@,
            ssml_gender: self.ssml_gender@,
        }
    }
}

/// Audio encoding parameters of a synthesis request. Rate and pitch are
/// held in hundredths, so a rate of 120 means 1.2 times normal speed.
pub struct AudioConfig {
    pub audio_encoding: String,
    pub speaking_rate_centi: u32,
    pub pitch_centi: u32,
}

/// The mathematical shape of [`AudioConfig`].
pub struct AudioSpec {
    pub audio_encoding: Seq<char>,
    pub speaking_rate_centi: u32,
    pub pitch_centi: u32,
}

impl View for AudioConfig {
    type V = AudioSpec;

    open spec fn view(&self) -> AudioSpec {
        AudioSpec {
            audio_encoding: self.audio_encoding@,
            speaking_rate_centi: self.speaking_rate_centi,
            pitch_centi: self.pitch_centi,
        }
    }
}

impl AudioConfig {
    /// The encoding the narrator requests: mp3 at 1.2 times normal speed
    /// and neutral pitch.
    pub fn narration_default() -> (r: AudioConfig)
        ensures
            r@.audio_encoding == "mp3"@,
            r@.speaking_rate_centi == 120,
            r@.pitch_centi == 100,
    {
        AudioConfig {
            audio_encoding: String::from_str("mp3"),
            speaking_rate_centi: 120,
            pitch_centi: 100,
        }
    }
}

/// A user's synthesis preferences, read from the external config store.
pub struct UserConfig {
    pub provider_choice: Option<ProviderChoice>,
    pub cloud_voice: Option<VoiceSelectionParams>,
    pub local_speaker: Option<u64>,
}

/// The mathematical shape of [`UserConfig`].
pub struct UserConfigSpec {
    pub provider_choice: Option<ProviderChoice>,
    pub cloud_voice: Option<VoiceSpec>,
    pub local_speaker: Option<u64>,
}

impl View for UserConfig {
    type V = UserConfigSpec;

    open spec fn view(&self) -> UserConfigSpec {
        UserConfigSpec {
            provider_choice: self.provider_choice,
            cloud_voice: match self.cloud_voice {
                Some(ref v) => Some(v@),
                None => None,
            },
            local_speaker: self.local_speaker,
        }
    }
}

/// The provider a configuration selects: the configured one, defaulting to
/// the cloud provider when unset.
pub open spec fn selected_provider(c: UserConfigSpec) -> ProviderChoice {
    match c.provider_choice {
        Some(p) => p,
        None => ProviderChoice::Cloud,
    }
}

/// Returns the user's configured provider, defaulting to the cloud
/// provider when the choice is unset.
pub fn select_provider(c: &UserConfig) -> (r: ProviderChoice)
    ensures
        r == selected_provider(c@),
        c@.provider_choice is None ==> r == ProviderChoice::Cloud,
{
    match c.provider_choice {
        Some(p) => p,
        None => ProviderChoice::Cloud,
    }
}

/// The local provider's native pause character.
pub open spec fn local_pause() -> Seq<char> {
    "\u{3001}"@
}

/// Text for the local provider: the markup pause directive converted to
/// the provider-native pause character, since that provider does not
/// understand the markup dialect.
pub open spec fn local_payload(t: Seq<char>) -> Seq<char> {
    replaced(t, pause_marker(), local_pause())
}

/// Converts narrated text into the local provider's dialect.
pub fn to_local_text(text: &str) -> (r: String)
    ensures
        r@ == local_payload(text@),
{
    replace_all(text, pause_marker_str(), "\u{3001}")
}

/// The speaker the local provider is asked for: the configured one, or
/// speaker 1 when unset.
pub open spec fn selected_local_speaker(c: UserConfigSpec) -> u64 {
    match c.local_speaker {
        Some(s) => s,
        None => 1,
    }
}

/// Returns the configured local speaker, defaulting to speaker 1.
pub fn select_local_speaker(c: &UserConfig) -> (r: u64)
    ensures
        r == selected_local_speaker(c@),
{
    match c.local_speaker {
        Some(s) => s,
        None => 1,
    }
}

/// Narrated text wrapped as a speech-markup document.
pub open spec fn ssml_document(t: Seq<char>) -> Seq<char> {
    "<speak>"@ + t + "</speak>"@
}

/// Wraps narrated text as a speech-markup document.
pub fn wrap_ssml(text: &str) -> (r: String)
    ensures
        r@ == ssml_document(text@),
{
    let mut r = String::from_str("<speak>");
    r.append(text);
    r.append("</speak>");
    proof {
        assert(r@ =~= ssml_document(text@));
    }
    r
}

/// The character for one lowercase hexadecimal digit.
pub open spec fn hex_digit_char(d: int) -> char {
    if d < 10 {
        digit_char(d)
    } else if d == 10 {
        'a'
    } else if d == 11 {
        'b'
    } else if d == 12 {
        'c'
    } else if d == 13 {
        'd'
    } else if d == 14 {
        'e'
    } else {
        'f'
    }
}

/// One character as it stands inside a JSON string literal: quote and
/// backslash escaped, the common control characters by their short
/// escapes, any other control character by its `\u00XX` escape.
pub open spec fn json_escaped_char(c: char) -> Seq<char> {
    if c == '"' {
        seq!['\\', '"']
    } else if c == '\\' {
        seq!['\\', '\\']
    } else if c == '\n' {
        seq!['\\', 'n']
    } else if c == '\r' {
        seq!['\\', 'r']
    } else if c == '\t' {
        seq!['\\', 't']
    } else if (c as u32) < 32 {
        seq!['\\', 'u', '0', '0'] + seq![
            hex_digit_char((c as u32) as int / 16),
            hex_digit_char((c as u32) as int % 16),
        ]
    } else {
        seq![c]
    }
}

fn hex_digit_str(d: u64) -> (r: &'static str)
    requires
        d < 16,
    ensures
        r@ == seq![hex_digit_char(d as int)],
{
    if d < 10 {
        digit_str(d)
    } else {
        let r: &'static str = if d == 10 {
            "a"
        } else if d == 11 {
            "b"
        } else if d == 12 {
            "c"
        } else if d == 13 {
            "d"
        } else if d == 14 {
            "e"
        } else {
            "f"
        };
        proof {
            reveal_strlit("a");
            reveal_strlit("b");
            reveal_strlit("c");
            reveal_strlit("d");
            reveal_strlit("e");
            reveal_strlit("f");
            assert(r@ =~= seq![hex_digit_char(d as int)]);
        }
        r
    }
}

/// A text as it stands inside a JSON string literal.
pub open spec fn json_escaped(t: Seq<char>) -> Seq<char>
    decreases t.len(),
{
    if t.len() == 0 {
        Seq::<char>::empty()
    } else {
        json_escaped(t.drop_last()) + json_escaped_char(t.last())
    }
}

fn escape_str(c: char) -> (r: &'static str)
    requires
        c == '"' || c == '\\' || c == '\n' || c == '\r' || c == '\t',
    ensures
        r@ == json_escaped_char(c),
{
    let r: &'static str = if c == '"' {
        "\\\""
    } else if c == '\\' {
        "\\\\"
    } else if c == '\n' {
        "\\n"
    } else if c == '\r' {
        "\\r"
    } else {
        "\\t"
    };
    proof {
        reveal_strlit("\\\"");
        reveal_strlit("\\\\");
        reveal_strlit("\\n");
        reveal_strlit("\\r");
        reveal_strlit("\\t");
        assert(r@ =~= json_escaped_char(c));
    }
    r
}

/// Escapes a text for inclusion in a JSON string literal.
pub fn json_escape(text: &str) -> (res: String)
    ensures
        res@ == json_escaped(text@),
{
    let n = text.unicode_len();
    let mut res = String::new();
    let mut start: usize = 0;
    let mut i: usize = 0;
    while i < n
        invariant
            n == text@.len(),
            start <= i <= n,
            res@ + text@.subrange(start as int, i as int) == json_escaped(
                text@.subrange(0, i as int),
            ),
        decreases n - i,
    {
        let c = text.get_char(i);
        let special = c == '"' || c == '\\' || c == '\n' || c == '\r' || c == '\t' || (c as u32)
            < 32;
        proof {
            assert(text@.subrange(0, i + 1).drop_last() =~= text@.subrange(0, i as int));
            assert(text@.subrange(0, i + 1).last() == c);
        }
        if special {
            res.append(text.substring_char(start, i));
            if c == '"' || c == '\\' || c == '\n' || c == '\r' || c == '\t' {
                res.append(escape_str(c));
            } else {
                let code = c as u32;
                res.append("\\u00");
                res.append(hex_digit_str((code / 16) as u64));
                res.append(hex_digit_str((code % 16) as u64));
                proof {
                    reveal_strlit("\\u00");
                    assert("\\u00"@ + seq![hex_digit_char(code as int / 16)] + seq![
                        hex_digit_char(code as int % 16),
                    ] =~= json_escaped_char(c));
                }
            }
            start = i + 1;
            proof {
                assert(text@.subrange(start as int, i + 1) =~= Seq::<char>::empty());
            }
        } else {
            proof {
                assert(json_escaped_char(c) =~= seq![c]);
                assert(text@.subrange(start as int, i + 1) =~= text@.subrange(
                    start as int,
                    i as int,
                ) + seq![c]);
            }
        }
        i += 1;
    }
    proof {
        assert(text@.subrange(0, n as int) =~= text@);
    }
    res.append(text.substring_char(start, n));
    res
}

/// A JSON string literal holding `t`.
pub open spec fn quoted(t: Seq<char>) -> Seq<char> {
    seq!['"'] + json_escaped(t) + seq!['"']
}

fn append_quoted(r: &mut String, s: &str)
    ensures
        final(r)@ == old(r)@ + quoted(s@),
{
    r.append("\"");
    r.append(json_escape(s).as_str());
    r.append("\"");
    proof {
        reveal_strlit("\"");
        assert(final(r)@ =~= old(r)@ + quoted(s@));
    }
}

/// A rate or pitch held in hundredths, rendered in decimal: whole part, a
/// point, and one or two fraction digits (120 renders as `1.2`, 100 as
/// `1.0`, 125 as `1.25`).
pub open spec fn centi_digits(n: int) -> Seq<char> {
    dec_digits(n / 100) + seq!['.'] + (if (n % 100) % 10 == 0 {
        seq![digit_char((n % 100) / 10)]
    } else {
        seq![digit_char((n % 100) / 10), digit_char((n % 100) % 10)]
    })
}

/// Renders a value held in hundredths in decimal.
pub fn centi_to_dec(n: u32) -> (r: String)
    ensures
        r@ == centi_digits(n as int),
{
    let mut r = u64_to_dec((n / 100) as u64);
    r.append(".");
    let frac = n % 100;
    r.append(digit_str((frac / 10) as u64));
    if frac % 10 != 0 {
        r.append(digit_str((frac % 10) as u64));
    }
    proof {
        reveal_strlit(".");
        assert(r@ =~= centi_digits(n as int));
    }
    r
}

/// The cloud provider's request document: markup input, voice selection
/// and audio encoding parameters, framed as JSON.
pub open spec fn request_body_spec(ssml: Seq<char>, voice: VoiceSpec, audio: AudioSpec) -> Seq<
    char,
> {
    "{\"input\":{\"ssml\":"@ + quoted(ssml) + "},\"voice\":{\"languageCode\":"@ + quoted(
        voice.language_code,
    ) + ",\"name\":"@ + quoted(voice.name) + ",\"ssmlGender\":"@ + quoted(voice.ssml_gender)
        + "},\"audioConfig\":{\"audioEncoding\":"@ + quoted(audio.audio_encoding)
        + ",\"speakingRate\":"@ + centi_digits(audio.speaking_rate_centi as int) + ",\"pitch\":"@
        + centi_digits(audio.pitch_centi as int) + "}}"@
}

/// Frames a synthesis request for the cloud provider.
pub fn build_synthesize_request_body(
    ssml: &str,
    voice: &VoiceSelectionParams,
    audio: &AudioConfig,
) -> (r: String)
    ensures
        r@ == request_body_spec(ssml@, voice@, audio@),
{
    let mut r = String::from_str("{\"input\":{\"ssml\":");
    append_quoted(&mut r, ssml);
    r.append("},\"voice\":{\"languageCode\":");
    append_quoted(&mut r, voice.language_code.as_str());
    r.append(",\"name\":");
    append_quoted(&mut r, voice.name.as_str());
    r.append(",\"ssmlGender\":");
    append_quoted(&mut r, voice.ssml_gender.as_str());
    r.append("},\"audioConfig\":{\"audioEncoding\":");
    append_quoted(&mut r, audio.audio_encoding.as_str());
    r.append(",\"speakingRate\":");
    r.append(centi_to_dec(audio.speaking_rate_centi).as_str());
    r.append(",\"pitch\":");
    r.append(centi_to_dec(audio.pitch_centi).as_str());
    r.append("}}");
    proof {
        assert(r@ =~= request_body_spec(ssml@, voice@, audio@));
    }
    r
}

/// JSON whitespace.
pub open spec fn is_json_ws(c: char) -> bool {
    c == ' ' || c == '\n' || c == '\r' || c == '\t'
}

/// The first position at or after `i` holding no whitespace.
pub open spec fn skip_ws(t: Seq<char>, i: int) -> int
    decreases t.len() - i,
{
    if 0 <= i < t.len() && is_json_ws(t[i]) {
        skip_ws(t, i + 1)
    } else {
        i
    }
}

/// The position of the closing quote of an escape-free JSON string whose
/// content starts at `j`: the first quote at or after `j`, provided no
/// backslash stands before it.
pub open spec fn close_quote(t: Seq<char>, j: int) -> Option<int>
    decreases t.len() - j,
{
    if j < 0 || j >= t.len() {
        None
    } else if t[j] == '"' {
        Some(j)
    } else if t[j] == '\\' {
        None
    } else {
        close_quote(t, j + 1)
    }
}

/// The audio content of the cloud provider's response document, when the
/// response has the documented shape: a JSON object holding the single key
/// `audioContent` with an escape-free string value.
pub open spec fn audio_content_of(t: Seq<char>) -> Option<Seq<char>> {
    let key = "\"audioContent\""@;
    let i0 = skip_ws(t, 0);
    if i0 < t.len() && t[i0] == '{' {
        let i1 = skip_ws(t, i0 + 1);
        if i1 + key.len() <= t.len() && t.subrange(i1, i1 + key.len() as int) == key {
            let i2 = skip_ws(t, i1 + key.len());
            if i2 < t.len() && t[i2] == ':' {
                let i3 = skip_ws(t, i2 + 1);
                if i3 < t.len() && t[i3] == '"' {
                    match close_quote(t, i3 + 1) {
                        Some(k) => {
                            let i4 = skip_ws(t, k + 1);
                            if i4 < t.len() && t[i4] == '}' && skip_ws(t, i4 + 1) == t.len() {
                                Some(t.subrange(i3 + 1, k))
                            } else {
                                None
                            }
                        },
                        None => None,
                    }
                } else {
                    None
                }
            } else {
                None
            }
        } else {
            None
        }
    } else {
        None
    }
}

fn is_ws_at(t: &str, j: usize) -> (b: bool)
    requires
        j < t@.len(),
    ensures
        b == is_json_ws(t@[j as int]),
{
    let c = t.get_char(j);
    c == ' ' || c == '\n' || c == '\r' || c == '\t'
}

fn skip_ws_exec(t: &str, i: usize) -> (r: usize)
    requires
        i <= t@.len(),
    ensures
        r == skip_ws(t@, i as int),
        i <= r <= t@.len(),
{
    let n = t.unicode_len();
    let mut j = i;
    while j < n && is_ws_at(t, j)
        invariant
            n == t@.len(),
            i <= j <= n,
            skip_ws(t@, i as int) == skip_ws(t@, j as int),
        decreases n - j,
    {
        j += 1;
    }
    j
}

fn find_close_quote(t: &str, j: usize) -> (r: Option<usize>)
    requires
        j <= t@.len(),
    ensures
        match r {
            Some(k) => close_quote(t@, j as int) == Some(k as int) && j <= k < t@.len(),
            None => close_quote(t@, j as int) is None,
        },
{
    let n = t.unicode_len();
    let mut k = j;
    while k < n
        invariant
            n == t@.len(),
            j <= k <= n,
            close_quote(t@, j as int) == close_quote(t@, k as int),
        decreases n - k,
    {
        let c = t.get_char(k);
        if c == '"' {
            return Some(k);
        }
        if c == '\\' {
            return None;
        }
        k += 1;
    }
    None
}

/// Extracts the audio content of the cloud provider's response document,
/// or nothing when the response is malformed.
pub fn parse_audio_content(body: &str) -> (res: Option<String>)
    ensures
        res is Some <==> audio_content_of(body@) is Some,
        res is Some ==> res->Some_0@ == audio_content_of(body@)->Some_0,
{
    proof {
        reveal_strlit("\"audioContent\"");
    }
    let n = body.unicode_len();
    let i0 = skip_ws_exec(body, 0);
    if !(i0 < n && body.get_char(i0) == '{') {
        return None;
    }
    let i1 = skip_ws_exec(body, i0 + 1);
    let key = "\"audioContent\"";
    let klen = key.unicode_len();
    if klen > n - i1 {
        return None;
    }
    if !matches_at(body, i1, key) {
        return None;
    }
    let i2 = skip_ws_exec(body, i1 + klen);
    if !(i2 < n && body.get_char(i2) == ':') {
        return None;
    }
    let i3 = skip_ws_exec(body, i2 + 1);
    if !(i3 < n && body.get_char(i3) == '"') {
        return None;
    }
    match find_close_quote(body, i3 + 1) {
        Some(k) => {
            let i4 = skip_ws_exec(body, k + 1);
            if !(i4 < n && body.get_char(i4) == '}') {
                return None;
            }
            if skip_ws_exec(body, i4 + 1) != n {
                return None;
            }
            Some(body.substring_char(i3 + 1, k).to_owned())
        },
        None => None,
    }
}

/// The bytes a base64 text denotes, if it is valid base64.
pub uninterp spec fn base64_decoded(s: Seq<char>) -> Option<Seq<u8>>;

/// Relies on base64::decode: whether a text is valid base64, and which
/// bytes it denotes, depend on the text alone.
#[verifier::external_body]
fn base64_decode(s: &str) -> (res: Option<Vec<u8>>)
    ensures
        res is Some <==> base64_decoded(s@) is Some,
        res is Some ==> res->Some_0@ == base64_decoded(s@)->Some_0,
{
    base64::decode(s).ok()
}

/// The audio bytes carried by a cloud response document: the base64
/// decoding of its audio content.
pub open spec fn decoded_audio(body: Seq<char>) -> Option<Seq<u8>> {
    match audio_content_of(body) {
        Some(content) => base64_decoded(content),
        None => None,
    }
}

/// Decodes the cloud provider's response document into raw audio bytes;
/// a response of any other shape is a malformed response.
pub fn decode_synthesize_response(body: &str) -> (res: Result<Vec<u8>, ProviderError>)
    ensures
        res is Ok <==> decoded_audio(body@) is Some,
        res is Ok ==> res->Ok_0@ == decoded_audio(body@)->Some_0,
        res is Err ==> res->Err_0 == ProviderError::MalformedResponse,
{
    match parse_audio_content(body) {
        Some(content) => match base64_decode(content.as_str()) {
            Some(bytes) => Ok(bytes),
            None => Err(ProviderError::MalformedResponse),
        },
        None => Err(ProviderError::MalformedResponse),
    }
}

/// The provider error an HTTP status carries: success for the 2xx range,
/// an authentication error for 401 and 403, a quota error for 429, and a
/// network error otherwise.
pub open spec fn status_error(status: u16) -> Option<ProviderError> {
    if 200 <= status < 300 {
        None
    } else if status == 401 || status == 403 {
        Some(ProviderError::AuthError)
    } else if status == 429 {
        Some(ProviderError::QuotaError)
    } else {
        Some(ProviderError::NetworkError)
    }
}

/// Classifies an HTTP status from a provider into the error taxonomy.
pub fn classify_http_status(status: u16) -> (r: Option<ProviderError>)
    ensures
        r == status_error(status),
{
    if 200 <= status && status < 300 {
        None
    } else if status == 401 || status == 403 {
        Some(ProviderError::AuthError)
    } else if status == 429 {
        Some(ProviderError::QuotaError)
    } else {
        Some(ProviderError::NetworkError)
    }
}

} // verus!
