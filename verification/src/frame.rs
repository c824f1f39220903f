//! The child-invocation frame: the configuration blob handed to the bridge
//! process as its single `--config=<JSON>` argument.
//!
//! The blob is a fixed-shape JSON object; the core serializes it itself so
//! that the exact wire bytes are pinned by the contracts below.

use vstd::prelude::*;
use crate::config::Config;
use crate::text::{hex_char, hex_digit_str};

verus! {

/// The fixed control port the bridge child listens on.
pub const BRIDGE_SERVER_PORT: u16 = 3456;

/// JSON string escaping of one character: quote and backslash get a
/// backslash; control characters become `\u00xx`; all else is untouched.
pub open spec fn json_escape_char(c: char) -> Seq<char> {
    if c == '"' {
        seq!['\\', '"']
    } else if c == '\\' {
        seq!['\\', '\\']
    } else if (c as int) < 32 {
        seq!['\\', 'u', '0', '0', hex_char(c as int / 16), hex_char(c as int % 16)]
    } else {
        seq![c]
    }
}

/// JSON string escaping of a whole character sequence.
pub open spec fn json_escape_seq(s: Seq<char>) -> Seq<char>
    decreases s.len(),
{
    if s.len() == 0 {
        Seq::<char>::empty()
    } else {
        json_escape_char(s[0]) + json_escape_seq(s.drop_first())
    }
}

proof fn lemma_json_escape_push(s: Seq<char>, c: char)
    ensures
        json_escape_seq(s.push(c)) == json_escape_seq(s) + json_escape_char(c),
    decreases s.len(),
{
    if s.len() == 0 {
        assert(s.push(c)[0] == c);
        assert(s.push(c).drop_first() =~= Seq::<char>::empty());
        assert(json_escape_seq(s.push(c)) == json_escape_char(c) + json_escape_seq(
            s.push(c).drop_first(),
        ));
        assert(json_escape_seq(Seq::<char>::empty()) == Seq::<char>::empty());
        assert(json_escape_char(c) + Seq::<char>::empty() =~= json_escape_char(c));
        assert(json_escape_seq(s) + json_escape_char(c) =~= json_escape_char(c));
    } else {
        assert(s.push(c).drop_first() =~= s.drop_first().push(c));
        lemma_json_escape_push(s.drop_first(), c);
        assert(json_escape_seq(s.push(c)) == json_escape_char(s[0]) + (json_escape_seq(
            s.drop_first(),
        ) + json_escape_char(c)));
        assert(json_escape_char(s[0]) + (json_escape_seq(s.drop_first()) + json_escape_char(c))
            =~= (json_escape_char(s[0]) + json_escape_seq(s.drop_first())) + json_escape_char(c));
    }
}

/// Appends the JSON-escaped form of `s` to `out`.
pub fn append_json_escaped(out: &mut String, s: &str)
    ensures
        final(out)@ == old(out)@ + json_escape_seq(s@),
{
    let n = s.unicode_len();
    let mut i: usize = 0;
    while i < n
        invariant
            i <= n,
            n == s@.len(),
            out@ == old(out)@ + json_escape_seq(s@.subrange(0, i as int)),
        decreases n - i,
    {
        let c = s.get_char(i);
        if c == '"' {
            out.append("\\\"");
            proof {
                reveal_strlit("\\\"");
                assert("\\\""@ =~= json_escape_char(c));
            }
        } else if c == '\\' {
            out.append("\\\\");
            proof {
                reveal_strlit("\\\\");
                assert("\\\\"@ =~= json_escape_char(c));
            }
        } else if (c as u32) < 32 {
            let code: u32 = c as u32;
            out.append("\\u00");
            out.append(hex_digit_str((code / 16) as u8));
            out.append(hex_digit_str((code % 16) as u8));
            proof {
                reveal_strlit("\\u00");
                assert("\\u00"@ + seq![hex_char(c as int / 16)] + seq![hex_char(c as int % 16)]
                    =~= json_escape_char(c));
            }
        } else {
            let piece = s.substring_char(i, i + 1);
            out.append(piece);
            proof {
                assert(piece@ =~= json_escape_char(c));
            }
        }
        proof {
            assert(s@.subrange(0, i + 1 as int) =~= s@.subrange(0, i as int).push(s@[i as int]));
            lemma_json_escape_push(s@.subrange(0, i as int), s@[i as int]);
        }
        i = i + 1;
    }
    proof {
        assert(s@.subrange(0, n as int) =~= s@);
    }
}

/// A quoted, escaped JSON string literal for `s`.
pub open spec fn json_string_spec(s: Seq<char>) -> Seq<char> {
    seq!['"'] + json_escape_seq(s) + seq!['"']
}

/// The configuration blob of §"child invocation": one JSON object holding
/// the credential fields, the send-as-user flag and the fixed control port.
pub open spec fn config_json_spec(c: Config) -> Seq<char> {
    "{\"slackBotToken\":"@ + json_string_spec(c.slack_bot_token@) + ",\"slackAppToken\":"@
        + json_string_spec(c.slack_app_token@) + ",\"slackSigningSecret\":"@ + json_string_spec(
        c.slack_signing_secret@,
    ) + ",\"slackUserToken\":"@ + json_string_spec(c.slack_user_token@) + ",\"larkWebhookUrl\":"@
        + json_string_spec(c.lark_webhook_url@) + ",\"larkAppId\":"@ + json_string_spec(
        c.lark_app_id@,
    ) + ",\"larkAppSecret\":"@ + json_string_spec(c.lark_app_secret@) + ",\"defaultSlackChannel\":"@
        + json_string_spec(c.default_slack_channel@) + ",\"sendAsUser\":"@ + (if c.send_as_user {
        "true"@
    } else {
        "false"@
    }) + ",\"serverPort\":3456}"@
}

/// The complete command-line argument handed to the child.
pub open spec fn config_arg_spec(c: Config) -> Seq<char> {
    "--config="@ + config_json_spec(c)
}

fn append_json_string(out: &mut String, s: &str)
    ensures
        final(out)@ == old(out)@ + json_string_spec(s@),
{
    out.append("\"");
    append_json_escaped(out, s);
    out.append("\"");
    proof {
        reveal_strlit("\"");
        assert("\""@ =~= seq!['"']);
        assert(final(out)@ =~= old(out)@ + json_string_spec(s@));
    }
}

/// Serializes the configuration into the child's JSON blob.
pub fn config_json(c: &Config) -> (r: String)
    ensures
        r@ == config_json_spec(*c),
{
    let mut out = String::new();
    out.append("{\"slackBotToken\":");
    append_json_string(&mut out, c.slack_bot_token.as_str());
    out.append(",\"slackAppToken\":");
    append_json_string(&mut out, c.slack_app_token.as_str());
    out.append(",\"slackSigningSecret\":");
    append_json_string(&mut out, c.slack_signing_secret.as_str());
    out.append(",\"slackUserToken\":");
    append_json_string(&mut out, c.slack_user_token.as_str());
    out.append(",\"larkWebhookUrl\":");
    append_json_string(&mut out, c.lark_webhook_url.as_str());
    out.append(",\"larkAppId\":");
    append_json_string(&mut out, c.lark_app_id.as_str());
    out.append(",\"larkAppSecret\":");
    append_json_string(&mut out, c.lark_app_secret.as_str());
    out.append(",\"defaultSlackChannel\":");
    append_json_string(&mut out, c.default_slack_channel.as_str());
    out.append(",\"sendAsUser\":");
    if c.send_as_user {
        out.append("true");
    } else {
        out.append("false");
    }
    out.append(",\"serverPort\":3456}");
    proof {
        assert(out@ =~= config_json_spec(*c));
    }
    out
}

/// Builds the single `--config=<JSON>` argument for the child process.
pub fn config_arg(c: &Config) -> (r: String)
    ensures
        r@ == config_arg_spec(*c),
{
    let mut out = "--config=".to_owned();
    let blob = config_json(c);
    out.append(blob.as_str());
    out
}

} // verus!
