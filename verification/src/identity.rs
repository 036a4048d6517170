//! The identity under which the process presents itself: the originator,
//! set at most once, and the user-agent string derived from it.

use vstd::prelude::*;
use vstd::string::*;
use vstd::utf8::encode_scalar;
use vstd::utf8::encode_utf8;
use vstd::utf8::has_width_1_encoding;
use vstd::utf8::has_width_2_encoding;
use vstd::utf8::has_width_3_encoding;
use vstd::utf8::is_scalar;
use vstd::utf8::last_continuation_byte;
use vstd::utf8::leading_byte_width_1;
use vstd::utf8::leading_byte_width_2;
use vstd::utf8::leading_byte_width_3;
use vstd::utf8::leading_byte_width_4;
use vstd::utf8::second_last_continuation_byte;
use vstd::utf8::third_last_continuation_byte;
use crate::config_types::ResidencyRequirement;

verus! {

/// Whether a byte may stand in the value of a transport header: a tab, or
/// anything from the space on but the delete character.
pub open spec fn header_byte_ok(b: u8) -> bool {
    (b >= 32 && b != 127) || b == 9
}

/// Whether a text is usable as the value of a transport header: every byte
/// of its UTF-8 form is allowed there.
pub open spec fn is_header_value(text: Seq<char>) -> bool {
    forall|i: int|
        0 <= i < encode_utf8(text).len() ==> header_byte_ok(#[trigger] encode_utf8(text)[i])
}

/// Whether a character may stand in the value of a transport header: a
/// tab (code 9), or any character from the space (code 32) on but the
/// delete character (code 127).
pub open spec fn header_char_ok(c: char) -> bool {
    c as u32 == 9 || (c as u32 >= 32 && c as u32 != 127)
}

/// Whether every byte of a sequence may stand in a header value.
pub open spec fn header_bytes_ok(bytes: Seq<u8>) -> bool {
    forall|i: int| 0 <= i < bytes.len() ==> header_byte_ok(#[trigger] bytes[i])
}

proof fn lemma_scalar_bytes(s: u32)
    requires
        is_scalar(s),
    ensures
        header_bytes_ok(encode_scalar(s)) <==> (s == 9 || (s >= 32 && s != 127)),
{
    let bytes = encode_scalar(s);
    if has_width_1_encoding(s) {
        let b = leading_byte_width_1(s);
        assert(b == s) by (bit_vector)
            requires
                s <= 0x7F,
                b == (s & 0x7F) as u8,
        ;
        assert(bytes[0] == b);
    } else if has_width_2_encoding(s) {
        let b1 = leading_byte_width_2(s);
        let b2 = last_continuation_byte(s);
        assert(b1 >= 0x80 && b2 >= 0x80) by (bit_vector)
            requires
                b1 == 0xC0 | ((s >> 6) & 0x1F) as u8,
                b2 == 0x80 | (s & 0x3F) as u8,
        ;
        assert forall|i: int| 0 <= i < bytes.len() implies header_byte_ok(#[trigger] bytes[i]) by {
            assert(bytes[i] == b1 || bytes[i] == b2);
        }
    } else if has_width_3_encoding(s) {
        let b1 = leading_byte_width_3(s);
        let b2 = second_last_continuation_byte(s);
        let b3 = last_continuation_byte(s);
        assert(b1 >= 0x80 && b2 >= 0x80 && b3 >= 0x80) by (bit_vector)
            requires
                b1 == 0xE0 | ((s >> 12) & 0x0F) as u8,
                b2 == 0x80 | ((s >> 6) & 0x3F) as u8,
                b3 == 0x80 | (s & 0x3F) as u8,
        ;
        assert forall|i: int| 0 <= i < bytes.len() implies header_byte_ok(#[trigger] bytes[i]) by {
            assert(bytes[i] == b1 || bytes[i] == b2 || bytes[i] == b3);
        }
    } else {
        let b1 = leading_byte_width_4(s);
        let b2 = third_last_continuation_byte(s);
        let b3 = second_last_continuation_byte(s);
        let b4 = last_continuation_byte(s);
        assert(b1 >= 0x80 && b2 >= 0x80 && b3 >= 0x80 && b4 >= 0x80) by (bit_vector)
            requires
                b1 == 0xF0 | ((s >> 18) & 0x7) as u8,
                b2 == 0x80 | ((s >> 12) & 0x3F) as u8,
                b3 == 0x80 | ((s >> 6) & 0x3F) as u8,
                b4 == 0x80 | (s & 0x3F) as u8,
        ;
        assert forall|i: int| 0 <= i < bytes.len() implies header_byte_ok(#[trigger] bytes[i]) by {
            assert(bytes[i] == b1 || bytes[i] == b2 || bytes[i] == b3 || bytes[i] == b4);
        }
    }
}

/// A text is a header value exactly when each of its characters is a
/// tab, or is neither a control character nor the delete character.
/// Characters beyond ASCII are all allowed.
pub proof fn lemma_header_value_by_characters(text: Seq<char>)
    ensures
        is_header_value(text) <==> forall|i: int|
            0 <= i < text.len() ==> header_char_ok(#[trigger] text[i]),
    decreases text.len(),
{
    let all_ok = forall|i: int| 0 <= i < text.len() ==> header_char_ok(#[trigger] text[i]);
    if text.len() == 0 {
        assert(encode_utf8(text).len() == 0);
    } else {
        let first = text[0];
        let rest = text.drop_first();
        let head = encode_scalar(first as u32);
        let tail = encode_utf8(rest);
        let bytes = encode_utf8(text);
        assert(bytes == head + tail);
        vstd::utf8::char_is_scalar(first);
        lemma_scalar_bytes(first as u32);
        lemma_header_value_by_characters(rest);
        let rest_ok = forall|i: int| 0 <= i < rest.len() ==> header_char_ok(#[trigger] rest[i]);
        assert(is_header_value(rest) <==> rest_ok);
        assert(is_header_value(rest) <==> header_bytes_ok(tail));
        assert(is_header_value(text) <==> header_bytes_ok(bytes));
        if header_bytes_ok(bytes) {
            assert forall|i: int| 0 <= i < head.len() implies header_byte_ok(
                #[trigger] head[i],
            ) by {
                assert(head[i] == bytes[i]);
            }
            assert forall|i: int| 0 <= i < tail.len() implies header_byte_ok(
                #[trigger] tail[i],
            ) by {
                assert(tail[i] == bytes[head.len() + i]);
            }
            assert forall|i: int| 0 <= i < text.len() implies header_char_ok(
                #[trigger] text[i],
            ) by {
                if i > 0 {
                    assert(text[i] == rest[i - 1]);
                }
            }
        }
        if all_ok {
            assert(header_char_ok(text[0]));
            assert forall|i: int| 0 <= i < rest.len() implies header_char_ok(
                #[trigger] rest[i],
            ) by {
                assert(rest[i] == text[i + 1]);
            }
            assert forall|i: int| 0 <= i < bytes.len() implies header_byte_ok(
                #[trigger] bytes[i],
            ) by {
                if i < head.len() {
                    assert(bytes[i] == head[i]);
                } else {
                    assert(bytes[i] == tail[i - head.len()]);
                }
            }
        }
    }
}

/// Asks the `http` crate whether `text` is a header value, with
/// `HeaderValue::from_str`. That function goes through the bytes of the
/// text and accepts it exactly when each of them is a tab, or is at least
/// 32 and not 127.
#[verifier::external_body]
fn header_value_accepts(text: &str) -> (ok: bool)
    ensures
        ok == is_header_value(text@),
{
    http::HeaderValue::from_str(text).is_ok()
}

/// Why the originator could not be set.
#[derive(Clone, Copy, Debug, PartialEq, Eq, Structural)]
pub enum SetOriginatorError {
    /// The value is not usable as a header value.
    InvalidHeaderValue,
    /// An originator was set before; it stays.
    AlreadyInitialized,
}

/// The identity of the process towards the services it talks to.
pub struct ProcessIdentity {
    default_originator: String,
    client_details: String,
    originator: Option<String>,
    user_agent_suffix: Option<String>,
    residency_requirement: Option<ResidencyRequirement>,
}

impl ProcessIdentity {
    /// The originator that was set, if one was.
    pub closed spec fn originator(&self) -> Option<Seq<char>> {
        match self.originator {
            Some(o) => Some(o@),
            None => None,
        }
    }

    /// The originator used while none was set.
    pub closed spec fn default_originator(&self) -> Seq<char> {
        self.default_originator@
    }

    /// Version and platform of the process, as the user agent shows them.
    pub closed spec fn client_details(&self) -> Seq<char> {
        self.client_details@
    }

    /// The user-agent suffix that was recorded, if one was.
    pub closed spec fn user_agent_suffix(&self) -> Option<Seq<char>> {
        match self.user_agent_suffix {
            Some(s) => Some(s@),
            None => None,
        }
    }

    /// Where the requests of the process have to stay, if anywhere.
    pub closed spec fn residency_requirement(&self) -> Option<ResidencyRequirement> {
        self.residency_requirement
    }

    /// The originator in effect.
    pub open spec fn effective_originator(&self) -> Seq<char> {
        match self.originator() {
            Some(o) => o,
            None => self.default_originator(),
        }
    }

    /// The user-agent string: originator, a slash and the client details,
    /// followed by the suffix in parentheses where one was recorded.
    pub open spec fn user_agent(&self) -> Seq<char> {
        let prefix = self.effective_originator() + "/"@ + self.client_details();
        match self.user_agent_suffix() {
            Some(s) => prefix + " ("@ + s + ")"@,
            None => prefix,
        }
    }

    /// An identity with no originator set, no suffix recorded and no
    /// residency required.
    pub fn new(default_originator: String, client_details: String) -> (identity: Self)
        ensures
            identity.originator() is None,
            identity.user_agent_suffix() is None,
            identity.residency_requirement() is None,
            identity.default_originator() == default_originator@,
            identity.client_details() == client_details@,
    {
        ProcessIdentity {
            default_originator,
            client_details,
            originator: None,
            user_agent_suffix: None,
            residency_requirement: None,
        }
    }

    /// Sets the originator unless one was set before. A value that is not
    /// a header value is refused first; a second setting changes nothing.
    pub fn set_default_originator(&mut self, value: String) -> (r: Result<(), SetOriginatorError>)
        ensures
            final(self).default_originator() == old(self).default_originator(),
            final(self).client_details() == old(self).client_details(),
            final(self).user_agent_suffix() == old(self).user_agent_suffix(),
            final(self).residency_requirement() == old(self).residency_requirement(),
            match r {
                Ok(_) => is_header_value(value@) && old(self).originator() is None
                    && final(self).originator() == Some(value@),
                Err(SetOriginatorError::InvalidHeaderValue) => !is_header_value(value@)
                    && *final(self) == *old(self),
                Err(SetOriginatorError::AlreadyInitialized) => is_header_value(value@)
                    && old(self).originator() is Some && *final(self) == *old(self),
            },
    {
        if !header_value_accepts(value.as_str()) {
            return Err(SetOriginatorError::InvalidHeaderValue);
        }
        if self.originator.is_some() {
            return Err(SetOriginatorError::AlreadyInitialized);
        }
        self.originator = Some(value);
        Ok(())
    }

    /// Records the suffix that the user agent ends with from now on.
    pub fn set_user_agent_suffix(&mut self, suffix: String)
        ensures
            final(self).user_agent_suffix() == Some(suffix@),
            final(self).originator() == old(self).originator(),
            final(self).default_originator() == old(self).default_originator(),
            final(self).client_details() == old(self).client_details(),
            final(self).residency_requirement() == old(self).residency_requirement(),
    {
        self.user_agent_suffix = Some(suffix);
    }

    /// Sets where the requests of the process have to stay. Unlike the
    /// originator this can be set again.
    pub fn set_residency_requirement(&mut self, requirement: Option<ResidencyRequirement>)
        ensures
            final(self).residency_requirement() == requirement,
            final(self).user_agent_suffix() == old(self).user_agent_suffix(),
            final(self).originator() == old(self).originator(),
            final(self).default_originator() == old(self).default_originator(),
            final(self).client_details() == old(self).client_details(),
    {
        self.residency_requirement = requirement;
    }

    /// Where the requests of the process have to stay, if anywhere.
    pub fn get_residency_requirement(&self) -> (requirement: Option<ResidencyRequirement>)
        ensures
            requirement == self.residency_requirement(),
    {
        self.residency_requirement
    }

    /// The originator in effect, as a string.
    pub fn originator_value(&self) -> (value: String)
        ensures
            value@ == self.effective_originator(),
    {
        match &self.originator {
            Some(o) => o.clone(),
            None => self.default_originator.clone(),
        }
    }

    /// The user-agent string of the process.
    pub fn get_user_agent(&self) -> (agent: String)
        ensures
            agent@ == self.user_agent(),
    {
        let mut agent = self.originator_value();
        agent.append("/");
        agent.append(self.client_details.as_str());
        match &self.user_agent_suffix {
            Some(s) => {
                agent.append(" (");
                agent.append(s.as_str());
                agent.append(")");
            },
            None => {},
        }
        agent
    }
}

/// The suffix that a handshake records: the client's name, a semicolon and
/// a space, and the client's version.
pub open spec fn client_suffix(name: Seq<char>, version: Seq<char>) -> Seq<char> {
    name + "; "@ + version
}

/// Builds the user-agent suffix of a client.
pub fn format_client_suffix(name: &str, version: &str) -> (suffix: String)
    ensures
        suffix@ == client_suffix(name@, version@),
{
    crate::text::concat3(name, "; ", version)
}

/// Once a suffix is recorded the user agent ends with it, in parentheses.
pub proof fn lemma_user_agent_ends_with_suffix(identity: ProcessIdentity)
    requires
        identity.user_agent_suffix() is Some,
    ensures
        ({
            let tail = " ("@ + identity.user_agent_suffix()->0 + ")"@;
            let agent = identity.user_agent();
            &&& agent.len() >= tail.len()
            &&& agent.subrange(agent.len() - tail.len(), agent.len() as int) == tail
        }),
{
    let prefix = identity.effective_originator() + "/"@ + identity.client_details();
    let tail = " ("@ + identity.user_agent_suffix()->0 + ")"@;
    let agent = identity.user_agent();
    assert(agent =~= prefix + tail);
    assert(agent.subrange(agent.len() - tail.len(), agent.len() as int) =~= tail);
}

} // verus!
