//! Changing and showing single settings by their names.

use crate::config::{ApiType, ConfigView, ShellmindConfig};
use crate::error::{ErrorView, ShellmindError};
use crate::text::{chars_of, concat2, push_decimal, same_text, decimal};
use vstd::prelude::*;
use vstd::string::*;

verus! {

/// The value of a decimal digit.
pub open spec fn digit_value(c: char) -> Option<nat> {
    if c == '0' {
        Some(0)
    } else if c == '1' {
        Some(1)
    } else if c == '2' {
        Some(2)
    } else if c == '3' {
        Some(3)
    } else if c == '4' {
        Some(4)
    } else if c == '5' {
        Some(5)
    } else if c == '6' {
        Some(6)
    } else if c == '7' {
        Some(7)
    } else if c == '8' {
        Some(8)
    } else if c == '9' {
        Some(9)
    } else {
        None
    }
}

/// The number that a run of decimal digits writes; `None` where another
/// character stands among them.
pub open spec fn digits_value(s: Seq<char>) -> Option<nat>
    decreases s.len(),
{
    if s.len() == 0 {
        Some(0)
    } else {
        match (digits_value(s.drop_last()), digit_value(s.last())) {
            (Some(front), Some(d)) => Some(front * 10 + d),
            _ => None,
        }
    }
}

/// The count that a text writes: decimal digits, at least one, with or
/// without a plus sign before them, and a value that the machine can hold.
pub open spec fn count_of(s: Seq<char>) -> Option<usize> {
    let body = if s.len() > 0 && s[0] == '+' {
        s.skip(1)
    } else {
        s
    };
    if body.len() == 0 {
        None
    } else {
        match digits_value(body) {
            Some(n) => if n <= usize::MAX {
                Some(n as usize)
            } else {
                None
            },
            None => None,
        }
    }
}

/// A run of digits writes at least what any of its prefixes writes, and no
/// number at all where a prefix writes none.
proof fn lemma_digits_grow(s: Seq<char>, n: int)
    requires
        0 <= n <= s.len(),
    ensures
        digits_value(s.take(n)) is None ==> digits_value(s) is None,
        digits_value(s) matches Some(v) ==> digits_value(s.take(n)) matches Some(p) && p <= v,
    decreases s.len() - n,
{
    if n < s.len() {
        assert(s.take(n + 1).drop_last() =~= s.take(n));
        lemma_digits_grow(s, n + 1);
    } else {
        assert(s.take(n) =~= s);
    }
}

fn digit_of(c: char) -> (r: Option<usize>)
    ensures
        match r {
            Some(d) => digit_value(c) == Some(d as nat) && d < 10,
            None => digit_value(c) is None,
        },
{
    if c == '0' {
        Some(0)
    } else if c == '1' {
        Some(1)
    } else if c == '2' {
        Some(2)
    } else if c == '3' {
        Some(3)
    } else if c == '4' {
        Some(4)
    } else if c == '5' {
        Some(5)
    } else if c == '6' {
        Some(6)
    } else if c == '7' {
        Some(7)
    } else if c == '8' {
        Some(8)
    } else if c == '9' {
        Some(9)
    } else {
        None
    }
}

/// Reads a count.
pub fn parse_count(text: &str) -> (r: Option<usize>)
    ensures
        r == count_of(text@),
{
    let v = chars_of(text);
    let start: usize = if v.len() > 0 && v[0] == '+' {
        1
    } else {
        0
    };
    if start == v.len() {
        return None;
    }
    let ghost body = v@.skip(start as int);
    let mut value: usize = 0;
    let mut i: usize = start;
    assert(body.take(0) =~= Seq::<char>::empty());
    while i < v.len()
        invariant
            v@ == text@,
            start < v@.len(),
            start == if v@.len() > 0 && v@[0] == '+' {
                1int
            } else {
                0int
            },
            start <= i <= v@.len(),
            body == v@.skip(start as int),
            digits_value(body.take(i - start)) == Some(value as nat),
        decreases v@.len() - i,
    {
        let ghost part = body.take(i - start + 1);
        assert(part.drop_last() =~= body.take(i - start));
        assert(part.last() == v@[i as int]);
        proof {
            lemma_digits_grow(body, i - start + 1);
            assert(v@.skip(0) =~= v@);
        }
        let d = match digit_of(v[i]) {
            Some(d) => d,
            None => {
                return None;
            },
        };
        if value > (usize::MAX - d) / 10 {
            assert(value * 10 + d > usize::MAX) by (nonlinear_arith)
                requires
                    value > (usize::MAX - d) / 10,
                    d < 10,
            ;
            return None;
        }
        assert(value * 10 + d <= usize::MAX) by (nonlinear_arith)
            requires
                value <= (usize::MAX - d) / 10,
                d < 10,
        ;
        value = value * 10 + d;
        i = i + 1;
    }
    assert(body.take(v@.len() - start) =~= body);
    assert(v@.skip(0) =~= v@);
    Some(value)
}

/// A text in lower case, as std's `str::to_lowercase` gives it.
pub uninterp spec fn lowercase(text: Seq<char>) -> Seq<char>;

/// Turns a text into lower case with std's `str::to_lowercase`. The
/// contract claims only that the outcome depends on the text alone: it
/// names it `lowercase`.
#[verifier::external_body]
pub(crate) fn to_lower(text: &str) -> (r: String)
    ensures
        r@ == lowercase(text@),
{
    text.to_lowercase()
}

/// The transport that a text names, in capitals or not.
pub open spec fn transport_named(lowered: Seq<char>) -> Option<ApiType> {
    if lowered == "rest"@ {
        Some(ApiType::Rest)
    } else if lowered == "grpc"@ {
        Some(ApiType::Grpc)
    } else {
        None
    }
}

/// The transport that a text in lower case names.
pub fn transport_of(lowered: &str) -> (r: Option<ApiType>)
    ensures
        r == transport_named(lowered@),
{
    if same_text(lowered, "rest") {
        Some(ApiType::Rest)
    } else if same_text(lowered, "grpc") {
        Some(ApiType::Grpc)
    } else {
        None
    }
}

/// A failure with the given text.
pub open spec fn refused(text: Seq<char>) -> Result<ConfigView, ErrorView> {
    Err(ErrorView::Other(text))
}

/// The settings after the setting `key` was given `value`, or why it
/// cannot be. A temperature is given as the bits of the number that
/// `value` writes, where it writes one.
pub open spec fn with_setting(
    config: ConfigView,
    key: Seq<char>,
    value: Seq<char>,
    temperature: Option<u32>,
) -> Result<ConfigView, ErrorView> {
    if key == "api_key"@ {
        Ok(ConfigView { api_key: value, ..config })
    } else if key == "model_name"@ {
        Ok(ConfigView { model_name: value, ..config })
    } else if key == "temperature"@ {
        match temperature {
            Some(bits) => Ok(ConfigView { temperature_bits: bits, ..config }),
            None => refused("Invalid temperature value"@),
        }
    } else if key == "context_window_size"@ {
        match count_of(value) {
            Some(n) => Ok(ConfigView { context_window_size: n, ..config }),
            None => refused("Invalid context window size value"@),
        }
    } else if key == "api_type"@ {
        match transport_named(lowercase(value)) {
            Some(t) => Ok(ConfigView { api_type: t, ..config }),
            None => refused("Invalid API type. Use 'rest' or 'grpc'"@),
        }
    } else if key == "grpc_endpoint"@ {
        Ok(ConfigView { grpc_endpoint: value, ..config })
    } else if key == "system_prompt"@ {
        Ok(ConfigView { system_prompt: value, ..config })
    } else {
        refused("Unknown config key: "@ + key)
    }
}

fn refuse(text: String) -> (r: Result<(), ShellmindError>)
    ensures
        r matches Err(e) && e@ == ErrorView::Other(text@),
{
    Err(ShellmindError::Other(text))
}

/// Gives the setting `key` the value `value`. Where this fails, the
/// settings stay as they are.
pub fn set_value(config: &mut ShellmindConfig, key: &str, value: &str, temperature: Option<u32>) -> (r:
    Result<(), ShellmindError>)
    ensures
        match r {
            Ok(_) => with_setting(old(config)@, key@, value@, temperature) == Ok::<
                ConfigView,
                ErrorView,
            >(final(config)@),
            Err(e) => with_setting(old(config)@, key@, value@, temperature) == Err::<
                ConfigView,
                ErrorView,
            >(e@) && final(config)@ == old(config)@,
        },
{
    if same_text(key, "api_key") {
        config.api_key = value.to_owned();
        Ok(())
    } else if same_text(key, "model_name") {
        config.model_name = value.to_owned();
        Ok(())
    } else if same_text(key, "temperature") {
        match temperature {
            Some(bits) => {
                config.temperature_bits = bits;
                Ok(())
            },
            None => refuse(String::from_str("Invalid temperature value")),
        }
    } else if same_text(key, "context_window_size") {
        match parse_count(value) {
            Some(n) => {
                config.context_window_size = n;
                Ok(())
            },
            None => refuse(String::from_str("Invalid context window size value")),
        }
    } else if same_text(key, "api_type") {
        let lowered = to_lower(value);
        match transport_of(lowered.as_str()) {
            Some(t) => {
                config.api_type = t;
                Ok(())
            },
            None => refuse(String::from_str("Invalid API type. Use 'rest' or 'grpc'")),
        }
    } else if same_text(key, "grpc_endpoint") {
        config.grpc_endpoint = value.to_owned();
        Ok(())
    } else if same_text(key, "system_prompt") {
        config.system_prompt = value.to_owned();
        Ok(())
    } else {
        refuse(concat2("Unknown config key: ", key))
    }
}

/// The name of a transport as it is shown.
pub open spec fn transport_name(api_type: ApiType) -> Seq<char> {
    match api_type {
        ApiType::Rest => "Rest"@,
        ApiType::Grpc => "Grpc"@,
    }
}

/// The lines that show the settings. The key itself is never shown, only
/// whether there is one; the temperature is shown as `temperature` writes
/// it.
pub open spec fn settings_report(config: ConfigView, temperature: Seq<char>) -> Seq<Seq<char>> {
    seq![
        "Current Shellmind Configuration:"@,
        "  API Key: "@ + if config.api_key.len() == 0 {
            "Not set"@
        } else {
            "********"@
        },
        "  Model Name: "@ + config.model_name,
        "  Temperature: "@ + temperature,
        "  Context Window Size: "@ + decimal(config.context_window_size as nat),
        "  API Type: "@ + transport_name(config.api_type),
        "  gRPC Endpoint: "@ + config.grpc_endpoint,
        "  System Prompt: "@ + config.system_prompt,
    ]
}

/// The lines that show the settings.
pub fn show_settings(config: &ShellmindConfig, temperature: &str) -> (r: Vec<String>)
    ensures
        crate::text::texts(r@) == settings_report(config@, temperature@),
{
    let mut out: Vec<String> = Vec::new();
    out.push(String::from_str("Current Shellmind Configuration:"));
    let key = if config.api_key.as_str().unicode_len() == 0 {
        "Not set"
    } else {
        "********"
    };
    out.push(concat2("  API Key: ", key));
    out.push(concat2("  Model Name: ", config.model_name.as_str()));
    out.push(concat2("  Temperature: ", temperature));
    let mut size = String::from_str("  Context Window Size: ");
    push_decimal(&mut size, config.context_window_size as u64);
    out.push(size);
    let transport = match config.api_type {
        ApiType::Rest => "Rest",
        ApiType::Grpc => "Grpc",
    };
    out.push(concat2("  API Type: ", transport));
    out.push(concat2("  gRPC Endpoint: ", config.grpc_endpoint.as_str()));
    out.push(concat2("  System Prompt: ", config.system_prompt.as_str()));
    assert(crate::text::texts(out@) =~= settings_report(config@, temperature@));
    out
}

} // verus!
