//! The daemon's face on the message bus, as pure text: the topics it
//! subscribes to, the mapping from an inbound topic to a scan command,
//! and the outward announcement topic and payload.

use vstd::prelude::*;
use crate::messages::{DeviceAnnouncement, StateAnnouncement, spec_confidence_of, confidence_of};
use crate::text::{
    digit_char, digit_char_of, hex_digit_lower, hex_digit_lower_of, push_char, spec_sanitize_name,
    sanitize_name,
};

verus! {

/// The inbound topic requesting a blanket arrival sweep.
pub open spec fn spec_arrival_topic(topic_path: Seq<char>) -> Seq<char> {
    topic_path + "/scan/arrive"@
}

/// The inbound topic requesting a blanket departure sweep.
pub open spec fn spec_departure_topic(topic_path: Seq<char>) -> Seq<char> {
    topic_path + "/scan/depart"@
}

/// The two topics the daemon subscribes to under its topic prefix: the
/// blanket arrival request and the blanket departure request, in that
/// order.
pub fn subscription_topics(topic_path: &str) -> (r: Vec<String>)
    ensures
        r@.len() == 2,
        r@[0]@ == spec_arrival_topic(topic_path@),
        r@[1]@ == spec_departure_topic(topic_path@),
{
    let mut arrive = String::from_str(topic_path);
    arrive.append("/scan/arrive");
    let mut depart = String::from_str(topic_path);
    depart.append("/scan/depart");
    let mut topics: Vec<String> = Vec::new();
    topics.push(arrive);
    topics.push(depart);
    topics
}

/// Whether an inbound topic ends in the arrival suffix.
pub open spec fn is_arrival_topic(topic: Seq<char>) -> bool {
    topic.len() >= 7 && topic.subrange(topic.len() - 7, topic.len() as int) == "/arrive"@
}

/// Map an inbound message's topic to the scan command it requests: a
/// topic ending in the arrival suffix asks for an arrival sweep, any
/// other topic of the command subscription asks for a departure sweep.
pub fn command_for_topic(topic: &str) -> (r: StateAnnouncement)
    ensures
        is_arrival_topic(topic@) ==> r is ScanArrive,
        !is_arrival_topic(topic@) ==> r is ScanDepart,
{
    let n = topic.unicode_len();
    if n < 7 {
        return StateAnnouncement::ScanDepart;
    }
    let suffix_matches = topic.get_char(n - 7) == '/' && topic.get_char(n - 6) == 'a'
        && topic.get_char(n - 5) == 'r' && topic.get_char(n - 4) == 'r' && topic.get_char(n - 3)
        == 'i' && topic.get_char(n - 2) == 'v' && topic.get_char(n - 1) == 'e';
    proof {
        reveal_strlit("/arrive");
        let suf = topic@.subrange(topic@.len() - 7, topic@.len() as int);
        if suffix_matches {
            assert(suf =~= "/arrive"@);
        } else if is_arrival_topic(topic@) {
            assert(suf[0] == '/' && suf[1] == 'a' && suf[2] == 'r' && suf[3] == 'r' && suf[4]
                == 'i' && suf[5] == 'v' && suf[6] == 'e');
            assert(false);
        }
    }
    if suffix_matches {
        StateAnnouncement::ScanArrive
    } else {
        StateAnnouncement::ScanDepart
    }
}

/// The outward topic an announcement for the named device is published
/// on: the topic prefix, the publisher identifier, and the sanitized
/// device name, separated by slashes.
pub open spec fn spec_announcement_topic(
    topic_path: Seq<char>,
    publisher_id: Seq<char>,
    name: Seq<char>,
) -> Seq<char> {
    topic_path + "/"@ + publisher_id + "/"@ + spec_sanitize_name(name)
}

/// Build the outward topic for the named device.
pub fn announcement_topic(topic_path: &str, publisher_id: &str, name: &str) -> (r: String)
    ensures
        r@ == spec_announcement_topic(topic_path@, publisher_id@, name@),
{
    let mut out = String::from_str(topic_path);
    out.append("/");
    out.append(publisher_id);
    out.append("/");
    let sanitized = sanitize_name(name);
    out.append(sanitized.as_str());
    proof {
        assert(out@ =~= spec_announcement_topic(topic_path@, publisher_id@, name@));
    }
    out
}

/// One character of a JSON string body: quotes and backslashes are
/// escaped, the named control characters take their short escapes, any
/// other control character its four-digit escape, and every other
/// character stands as itself.
pub open spec fn spec_json_escaped_char(c: char) -> Seq<char> {
    if c == '"' {
        seq!['\\', '"']
    } else if c == '\\' {
        seq!['\\', '\\']
    } else if c == '\u{8}' {
        seq!['\\', 'b']
    } else if c == '\t' {
        seq!['\\', 't']
    } else if c == '\n' {
        seq!['\\', 'n']
    } else if c == '\u{c}' {
        seq!['\\', 'f']
    } else if c == '\r' {
        seq!['\\', 'r']
    } else if (c as int) < 0x20 {
        seq!['\\', 'u', '0', '0', hex_digit_lower(c as int / 16), hex_digit_lower(c as int % 16)]
    } else {
        seq![c]
    }
}

/// A string's characters with every character escaped as JSON asks.
pub open spec fn spec_json_escaped(s: Seq<char>) -> Seq<char>
    decreases s.len(),
{
    if s.len() == 0 {
        Seq::empty()
    } else {
        spec_json_escaped(s.drop_last()) + spec_json_escaped_char(s.last())
    }
}

/// Append the JSON-escaped body of `s` to `out`.
fn append_json_escaped(out: &mut String, s: &str)
    ensures
        final(out)@ == old(out)@ + spec_json_escaped(s@),
{
    let n = s.unicode_len();
    let mut i: usize = 0;
    while i < n
        invariant
            n == s@.len(),
            i <= n,
            out@ == old(out)@ + spec_json_escaped(s@.take(i as int)),
        decreases n - i,
    {
        let c = s.get_char(i);
        proof {
            assert(s@.take(i as int + 1).drop_last() =~= s@.take(i as int));
            assert(s@.take(i as int + 1).last() == s@[i as int]);
        }
        let ghost prior = out@;
        if c == '"' {
            push_char(out, '\\');
            push_char(out, '"');
        } else if c == '\\' {
            push_char(out, '\\');
            push_char(out, '\\');
        } else if c == '\u{8}' {
            push_char(out, '\\');
            push_char(out, 'b');
        } else if c == '\t' {
            push_char(out, '\\');
            push_char(out, 't');
        } else if c == '\n' {
            push_char(out, '\\');
            push_char(out, 'n');
        } else if c == '\u{c}' {
            push_char(out, '\\');
            push_char(out, 'f');
        } else if c == '\r' {
            push_char(out, '\\');
            push_char(out, 'r');
        } else if (c as u32) < 0x20 {
            let code = c as u32;
            push_char(out, '\\');
            push_char(out, 'u');
            push_char(out, '0');
            push_char(out, '0');
            push_char(out, hex_digit_lower_of((code / 16) as u8));
            push_char(out, hex_digit_lower_of((code % 16) as u8));
        } else {
            push_char(out, c);
        }
        proof {
            assert(out@ =~= prior + spec_json_escaped_char(s@[i as int]));
            assert(out@ =~= old(out)@ + spec_json_escaped(s@.take(i as int + 1)));
        }
        i = i + 1;
    }
    proof {
        assert(s@.take(n as int) =~= s@);
    }
}

/// A non-negative number in decimal, most significant digit first.
pub open spec fn spec_decimal(n: int) -> Seq<char>
    recommends
        n >= 0,
    decreases n,
{
    if n < 10 {
        seq![digit_char(n)]
    } else {
        spec_decimal(n / 10) + seq![digit_char(n % 10)]
    }
}

/// Append `n` in decimal to `out`.
fn append_decimal_u8(out: &mut String, n: u8)
    ensures
        final(out)@ == old(out)@ + spec_decimal(n as int),
{
    if n < 10 {
        push_char(out, digit_char_of(n));
    } else if n < 100 {
        push_char(out, digit_char_of(n / 10));
        push_char(out, digit_char_of(n % 10));
        proof {
            assert(spec_decimal(n as int / 10) =~= seq![digit_char(n as int / 10)]);
            assert(spec_decimal(n as int) =~= seq![
                digit_char(n as int / 10),
                digit_char(n as int % 10),
            ]);
            assert(final(out)@ =~= old(out)@ + spec_decimal(n as int));
        }
    } else {
        push_char(out, digit_char_of(n / 100));
        push_char(out, digit_char_of((n / 10) % 10));
        push_char(out, digit_char_of(n % 10));
        proof {
            assert(spec_decimal(n as int / 100) =~= seq![digit_char(n as int / 100)]);
            assert(spec_decimal(n as int / 10) =~= seq![
                digit_char(n as int / 100),
                digit_char((n as int / 10) % 10),
            ]);
            assert(spec_decimal(n as int) =~= seq![
                digit_char(n as int / 100),
                digit_char((n as int / 10) % 10),
                digit_char(n as int % 10),
            ]);
            assert(final(out)@ =~= old(out)@ + spec_decimal(n as int));
        }
    }
}

/// The payload published for an announcement: a JSON object holding the
/// device name, its hardware address under `id`, the confidence, and a
/// `retained` flag that is always false.
pub open spec fn spec_announcement_payload(
    name: Seq<char>,
    mac: Seq<char>,
    confidence: u8,
) -> Seq<char> {
    "{\"name\":\""@ + spec_json_escaped(name) + "\",\"id\":\""@ + spec_json_escaped(mac)
        + "\",\"confidence\":"@ + spec_decimal(confidence as int) + ",\"retained\":false}"@
}

/// Build the outward payload for one announcement. The confidence is
/// the announcement's presence confidence: 0 for an absent device.
pub fn announcement_payload(a: &DeviceAnnouncement) -> (r: String)
    ensures
        r@ == spec_announcement_payload(a.name@, a.mac_address@, spec_confidence_of(a.presence)),
{
    let mut out = String::from_str("{\"name\":\"");
    append_json_escaped(&mut out, a.name.as_str());
    out.append("\",\"id\":\"");
    append_json_escaped(&mut out, a.mac_address.as_str());
    out.append("\",\"confidence\":");
    let confidence = confidence_of(&a.presence);
    append_decimal_u8(&mut out, confidence);
    out.append(",\"retained\":false}");
    proof {
        assert(out@ =~= spec_announcement_payload(
            a.name@,
            a.mac_address@,
            spec_confidence_of(a.presence),
        ));
    }
    out
}

/// Build the outward topic and payload for one announcement: everything
/// the bus client needs to publish it.
pub fn announcement_message(topic_path: &str, publisher_id: &str, a: &DeviceAnnouncement) -> (r: (
    String,
    String,
))
    ensures
        r.0@ == spec_announcement_topic(topic_path@, publisher_id@, a.name@),
        r.1@ == spec_announcement_payload(a.name@, a.mac_address@, spec_confidence_of(a.presence)),
{
    let topic = announcement_topic(topic_path, publisher_id, a.name.as_str());
    let payload = announcement_payload(a);
    (topic, payload)
}

} // verus!
