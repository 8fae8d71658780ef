//! The JSON wire encoding of the ingest protocol: the body of one HTTP
//! request, stated character by character. The spec functions below give the
//! exact text; the exec functions build it and are proved equal to it.

use vstd::prelude::*;

use crate::event::{pair_models, EventModel, TrackingEvent};

verus! {

/// The escape of one control character (a code point below 32 with no short
/// escape of its own): a six-character `\u00..` sequence with lowercase hex
/// digits.
pub open spec fn control_escape(n: u32) -> Seq<char> {
    if n == 0 {
        "\\u0000"@
    } else if n == 1 {
        "\\u0001"@
    } else if n == 2 {
        "\\u0002"@
    } else if n == 3 {
        "\\u0003"@
    } else if n == 4 {
        "\\u0004"@
    } else if n == 5 {
        "\\u0005"@
    } else if n == 6 {
        "\\u0006"@
    } else if n == 7 {
        "\\u0007"@
    } else if n == 11 {
        "\\u000b"@
    } else if n == 14 {
        "\\u000e"@
    } else if n == 15 {
        "\\u000f"@
    } else if n == 16 {
        "\\u0010"@
    } else if n == 17 {
        "\\u0011"@
    } else if n == 18 {
        "\\u0012"@
    } else if n == 19 {
        "\\u0013"@
    } else if n == 20 {
        "\\u0014"@
    } else if n == 21 {
        "\\u0015"@
    } else if n == 22 {
        "\\u0016"@
    } else if n == 23 {
        "\\u0017"@
    } else if n == 24 {
        "\\u0018"@
    } else if n == 25 {
        "\\u0019"@
    } else if n == 26 {
        "\\u001a"@
    } else if n == 27 {
        "\\u001b"@
    } else if n == 28 {
        "\\u001c"@
    } else if n == 29 {
        "\\u001d"@
    } else if n == 30 {
        "\\u001e"@
    } else {
        "\\u001f"@
    }
}

/// The JSON escape of one character: quote and backslash get a two-character
/// escape, the five control characters with short escapes get those, every
/// other control character gets `\u00..`, and every other character stands
/// for itself.
pub open spec fn escaped_char(c: char) -> Seq<char> {
    if c == '"' {
        "\\\""@
    } else if c == '\\' {
        "\\\\"@
    } else if c == '\u{8}' {
        "\\b"@
    } else if c == '\t' {
        "\\t"@
    } else if c == '\n' {
        "\\n"@
    } else if c == '\u{c}' {
        "\\f"@
    } else if c == '\r' {
        "\\r"@
    } else if (c as u32) < 32 {
        control_escape(c as u32)
    } else {
        seq![c]
    }
}

/// The JSON escape of a string's characters, in order.
pub open spec fn escaped(s: Seq<char>) -> Seq<char>
    decreases s.len(),
{
    if s.len() == 0 {
        Seq::empty()
    } else {
        escaped(s.drop_last()) + escaped_char(s.last())
    }
}

/// A JSON string literal: the escaped characters between double quotes.
pub open spec fn json_string(s: Seq<char>) -> Seq<char> {
    "\""@ + escaped(s) + "\""@
}

/// One object member: `"name":"value"`.
pub open spec fn json_member(p: (Seq<char>, Seq<char>)) -> Seq<char> {
    json_string(p.0) + ":"@ + json_string(p.1)
}

/// The members of an object, joined with commas, in sequence order.
pub open spec fn json_members(ps: Seq<(Seq<char>, Seq<char>)>) -> Seq<char>
    decreases ps.len(),
{
    if ps.len() == 0 {
        Seq::empty()
    } else if ps.len() == 1 {
        json_member(ps[0])
    } else {
        json_members(ps.drop_last()) + ","@ + json_member(ps.last())
    }
}

/// A JSON object of string members: `{"a":"x","b":"y"}`.
pub open spec fn json_object(ps: Seq<(Seq<char>, Seq<char>)>) -> Seq<char> {
    "{"@ + json_members(ps) + "}"@
}

/// One event on the wire: an object with the keys `timestamp` and
/// `attributes`, exactly and in that order.
pub open spec fn json_event(e: EventModel) -> Seq<char> {
    "{\"timestamp\":"@ + json_string(e.timestamp) + ",\"attributes\":"@ + json_object(
        e.attributes,
    ) + "}"@
}

/// The events of one chunk, joined with commas, in chunk order.
pub open spec fn json_event_list(es: Seq<EventModel>) -> Seq<char>
    decreases es.len(),
{
    if es.len() == 0 {
        Seq::empty()
    } else if es.len() == 1 {
        json_event(es[0])
    } else {
        json_event_list(es.drop_last()) + ","@ + json_event(es.last())
    }
}

/// A JSON array of events.
pub open spec fn json_events(es: Seq<EventModel>) -> Seq<char> {
    "["@ + json_event_list(es) + "]"@
}

/// The whole HTTP body: a top-level array of length one, whose single
/// element is an object with the keys `tags` and `events`, exactly and in
/// that order — one tag-scoped batch per request, as the ingest protocol
/// asks.
pub open spec fn ingest_body(
    tags: Seq<(Seq<char>, Seq<char>)>,
    es: Seq<EventModel>,
) -> Seq<char> {
    "[{\"tags\":"@ + json_object(tags) + ",\"events\":"@ + json_events(es) + "}]"@
}

/// Appends the `\u00..` escape of one control character.
fn append_control_escape(out: &mut String, n: u32)
    ensures
        final(out)@ == old(out)@ + control_escape(n),
{
    if n == 0 {
        out.append("\\u0000");
    } else if n == 1 {
        out.append("\\u0001");
    } else if n == 2 {
        out.append("\\u0002");
    } else if n == 3 {
        out.append("\\u0003");
    } else if n == 4 {
        out.append("\\u0004");
    } else if n == 5 {
        out.append("\\u0005");
    } else if n == 6 {
        out.append("\\u0006");
    } else if n == 7 {
        out.append("\\u0007");
    } else if n == 11 {
        out.append("\\u000b");
    } else if n == 14 {
        out.append("\\u000e");
    } else if n == 15 {
        out.append("\\u000f");
    } else if n == 16 {
        out.append("\\u0010");
    } else if n == 17 {
        out.append("\\u0011");
    } else if n == 18 {
        out.append("\\u0012");
    } else if n == 19 {
        out.append("\\u0013");
    } else if n == 20 {
        out.append("\\u0014");
    } else if n == 21 {
        out.append("\\u0015");
    } else if n == 22 {
        out.append("\\u0016");
    } else if n == 23 {
        out.append("\\u0017");
    } else if n == 24 {
        out.append("\\u0018");
    } else if n == 25 {
        out.append("\\u0019");
    } else if n == 26 {
        out.append("\\u001a");
    } else if n == 27 {
        out.append("\\u001b");
    } else if n == 28 {
        out.append("\\u001c");
    } else if n == 29 {
        out.append("\\u001d");
    } else if n == 30 {
        out.append("\\u001e");
    } else {
        out.append("\\u001f");
    }
}

/// Appends the JSON escape of every character of `s`, in order.
fn append_escaped(out: &mut String, s: &str)
    ensures
        final(out)@ == old(out)@ + escaped(s@),
{
    let n: usize = s.unicode_len();
    let mut i: usize = 0;
    while i < n
        invariant
            n == s@.len(),
            i <= n,
            out@ == old(out)@ + escaped(s@.take(i as int)),
        decreases n - i,
    {
        let c = s.get_char(i);
        proof {
            assert(s@.take(i as int + 1).drop_last() =~= s@.take(i as int));
            assert(s@.take(i as int + 1).last() == s@[i as int]);
        }
        if c == '"' {
            out.append("\\\"");
        } else if c == '\\' {
            out.append("\\\\");
        } else if c == '\u{8}' {
            out.append("\\b");
        } else if c == '\t' {
            out.append("\\t");
        } else if c == '\n' {
            out.append("\\n");
        } else if c == '\u{c}' {
            out.append("\\f");
        } else if c == '\r' {
            out.append("\\r");
        } else if (c as u32) < 32 {
            append_control_escape(out, c as u32);
        } else {
            let piece = s.substring_char(i, i + 1);
            proof {
                assert(piece@ =~= seq![c]);
            }
            out.append(piece);
        }
        i = i + 1;
    }
    proof {
        assert(s@.take(n as int) =~= s@);
    }
}

/// Appends `json_string` of `s`: the escaped text between double quotes.
fn append_json_string(out: &mut String, s: &str)
    ensures
        final(out)@ == old(out)@ + json_string(s@),
{
    out.append("\"");
    append_escaped(out, s);
    out.append("\"");
    proof {
        assert(old(out)@ + "\""@ + escaped(s@) + "\""@ =~= old(out)@ + json_string(s@));
    }
}

/// Appends `json_object` of the name/value pairs, in order.
fn append_json_object(out: &mut String, ps: &Vec<(String, String)>)
    ensures
        final(out)@ == old(out)@ + json_object(pair_models(ps@)),
{
    let ghost m: Seq<(Seq<char>, Seq<char>)> = pair_models(ps@);
    out.append("{");
    let mut i: usize = 0;
    while i < ps.len()
        invariant
            i <= ps@.len(),
            m == pair_models(ps@),
            m.len() == ps@.len(),
            out@ == old(out)@ + "{"@ + json_members(m.take(i as int)),
        decreases ps@.len() - i,
    {
        if i > 0 {
            out.append(",");
        }
        proof {
            assert(m[i as int] == (ps@[i as int].0@, ps@[i as int].1@));
            assert(m.take(i as int + 1).drop_last() =~= m.take(i as int));
            assert(m.take(i as int + 1).last() == m[i as int]);
        }
        append_json_string(out, ps[i].0.as_str());
        out.append(":");
        append_json_string(out, ps[i].1.as_str());
        proof {
            if i == 0 {
                assert(json_members(m.take(1)) == json_member(m[0]));
                assert(out@ =~= old(out)@ + "{"@ + json_members(m.take(i as int + 1)));
            } else {
                assert(json_members(m.take(i as int + 1)) == json_members(m.take(i as int))
                    + ","@ + json_member(m[i as int]));
                assert(out@ =~= old(out)@ + "{"@ + json_members(m.take(i as int + 1)));
            }
        }
        i = i + 1;
    }
    out.append("}");
    proof {
        assert(m.take(m.len() as int) =~= m);
        assert(out@ =~= old(out)@ + json_object(m));
    }
}

/// Appends `json_event` of one event.
fn append_json_event(out: &mut String, ev: &TrackingEvent)
    ensures
        final(out)@ == old(out)@ + json_event(ev@),
{
    out.append("{\"timestamp\":");
    append_json_string(out, ev.timestamp.as_str());
    out.append(",\"attributes\":");
    append_json_object(out, &ev.attributes);
    out.append("}");
    proof {
        assert(out@ =~= old(out)@ + json_event(ev@));
    }
}

/// Builds the HTTP body for one chunk: `ingest_body` of the tag set and the
/// chunk's events, exactly.
pub fn ingest_body_string(tags: &Vec<(String, String)>, events: &Vec<TrackingEvent>) -> (r:
    String)
    ensures
        r@ == ingest_body(pair_models(tags@), crate::event::event_models(events@)),
{
    let ghost m: Seq<EventModel> = crate::event::event_models(events@);
    let mut out = String::new();
    out.append("[{\"tags\":");
    append_json_object(&mut out, tags);
    out.append(",\"events\":");
    out.append("[");
    let mut i: usize = 0;
    while i < events.len()
        invariant
            i <= events@.len(),
            m == crate::event::event_models(events@),
            m.len() == events@.len(),
            out@ == "[{\"tags\":"@ + json_object(pair_models(tags@)) + ",\"events\":"@
                + "["@ + json_event_list(m.take(i as int)),
        decreases events@.len() - i,
    {
        if i > 0 {
            out.append(",");
        }
        proof {
            assert(m[i as int] == events@[i as int]@);
            assert(m.take(i as int + 1).drop_last() =~= m.take(i as int));
            assert(m.take(i as int + 1).last() == m[i as int]);
        }
        append_json_event(&mut out, &events[i]);
        proof {
            if i == 0 {
                assert(json_event_list(m.take(1)) == json_event(m[0]));
            } else {
                assert(json_event_list(m.take(i as int + 1)) == json_event_list(m.take(
                    i as int,
                )) + ","@ + json_event(m[i as int]));
            }
            assert(out@ =~= "[{\"tags\":"@ + json_object(pair_models(tags@))
                + ",\"events\":"@ + "["@ + json_event_list(m.take(i as int + 1)));
        }
        i = i + 1;
    }
    out.append("]");
    out.append("}]");
    proof {
        assert(m.take(m.len() as int) =~= m);
        assert(out@ =~= ingest_body(pair_models(tags@), m));
    }
    out
}

} // verus!
