//! Structured log events and their canonical payload form.
//!
//! A [`LogEvent`] is one emitted log or trace occurrence: a level, a
//! hierarchical target, a short name, and a sequence of named field
//! values. Encoding turns it into a [`LogPayload`], the shape that goes
//! on the wire: the timestamp is attached, and a field named `message`,
//! if present, is hoisted out of the nested field map to the top level,
//! because the wire format treats the primary message as first-class.
//!
//! Encoding is total: it accepts every event and cannot fail. Values
//! that have no native representation are handed in by the caller as
//! [`FieldValue::Text`] holding their rendered form, so every field is
//! representable.

use vstd::prelude::*;
use crate::level::Level;

verus! {

/// One field value of a structured event.
///
/// Callers render any value outside these shapes to text before
/// constructing the field, so the set is closed and encoding never
/// rejects an event.
#[derive(Clone, Debug, PartialEq, Eq)]
pub enum FieldValue {
    /// A string value, or the rendered fallback form of any other value.
    Text(String),
    /// A signed integer value.
    Signed(i64),
    /// An unsigned integer value.
    Unsigned(u64),
    /// A boolean value.
    Flag(bool),
}

/// One emitted log or trace occurrence, observed once and then encoded.
pub struct LogEvent {
    /// Severity of the event.
    pub level: Level,
    /// Hierarchical source identifier.
    pub target: String,
    /// Short event or span name.
    pub name: String,
    /// Named field values, in recording order. Later entries shadow
    /// earlier ones of the same name, as in the map they stand for.
    pub fields: Vec<(String, FieldValue)>,
}

/// The canonical document produced from one [`LogEvent`].
pub struct LogPayload {
    /// Time of forwarding (not of emission), as an RFC 3339 string.
    pub timestamp: String,
    /// Severity of the event.
    pub level: Level,
    /// Hierarchical source identifier.
    pub target: String,
    /// Short event or span name.
    pub name: String,
    /// The event's fields, with every `message` entry removed.
    pub fields: Vec<(String, FieldValue)>,
    /// The hoisted `message` value, present only if the event had one.
    pub message: Option<FieldValue>,
}

/// The event's fields with every entry named `message` removed,
/// order otherwise preserved.
pub open spec fn retained_fields(fs: Seq<(String, FieldValue)>) -> Seq<(String, FieldValue)>
    decreases fs.len(),
{
    if fs.len() == 0 {
        Seq::empty()
    } else {
        let init = retained_fields(fs.drop_last());
        if fs.last().0@ == "message"@ {
            init
        } else {
            init.push(fs.last())
        }
    }
}

/// The value of the last field named `message`, if any. The last one
/// wins, matching the map semantics of the field sequence.
pub open spec fn find_message(fs: Seq<(String, FieldValue)>) -> Option<FieldValue>
    decreases fs.len(),
{
    if fs.len() == 0 {
        None
    } else if fs.last().0@ == "message"@ {
        Some(fs.last().1)
    } else {
        find_message(fs.drop_last())
    }
}

/// The map a field sequence stands for: later entries shadow earlier
/// ones of the same name.
pub open spec fn fields_map(fs: Seq<(String, FieldValue)>) -> Map<Seq<char>, FieldValue>
    decreases fs.len(),
{
    if fs.len() == 0 {
        Map::empty()
    } else {
        fields_map(fs.drop_last()).insert(fs.last().0@, fs.last().1)
    }
}

/// Reading a payload's field map back, with the hoisted `message`
/// reinserted: the decoding direction of the hoisting step.
pub open spec fn decoded_fields(
    fields: Seq<(String, FieldValue)>,
    message: Option<FieldValue>,
) -> Map<Seq<char>, FieldValue> {
    match message {
        Some(v) => fields_map(fields).insert("message"@, v),
        None => fields_map(fields),
    }
}

proof fn lemma_reverse_push<A>(s: Seq<A>, x: A)
    ensures
        s.push(x).reverse() == seq![x] + s.reverse(),
{
    assert(s.push(x).reverse() =~= seq![x] + s.reverse());
}

/// Encode one event: attach the timestamp and hoist the `message` field.
///
/// Total and deterministic: every event is accepted, and the result is
/// fixed exactly by the arguments.
pub fn encode_event(timestamp: String, event: LogEvent) -> (p: LogPayload)
    ensures
        p.timestamp == timestamp,
        p.level == event.level,
        p.target == event.target,
        p.name == event.name,
        p.fields@ == retained_fields(event.fields@),
        p.message == find_message(event.fields@),
{
    let LogEvent { level, target, name, mut fields } = event;
    let ghost fs = fields@;
    let msg_key: String = "message".to_owned();
    let mut rest_rev: Vec<(String, FieldValue)> = Vec::new();
    let mut message: Option<FieldValue> = None;

    while fields.len() != 0
        invariant
            msg_key@ == "message"@,
            retained_fields(fs) == retained_fields(fields@) + rest_rev@.reverse(),
            find_message(fs) == (match message {
                Some(v) => Some(v),
                None => find_message(fields@),
            }),
        decreases fields@.len(),
    {
        let pair = fields.pop().unwrap();
        proof {
            lemma_reverse_push(rest_rev@, pair);
        }
        if pair.0 == msg_key {
            if message.is_none() {
                message = Some(pair.1);
            }
        } else {
            proof {
                assert(retained_fields(fields@).push(pair) + rest_rev@.reverse() =~= retained_fields(
                    fields@,
                ) + (seq![pair] + rest_rev@.reverse()));
            }
            rest_rev.push(pair);
        }
    }
    proof {
        assert(retained_fields(fields@) + rest_rev@.reverse() =~= rest_rev@.reverse());
    }

    let mut rest: Vec<(String, FieldValue)> = Vec::new();
    while rest_rev.len() != 0
        invariant
            rest@ + rest_rev@.reverse() == retained_fields(fs),
        decreases rest_rev@.len(),
    {
        let ghost prev = rest_rev@;
        let pair = rest_rev.pop().unwrap();
        proof {
            assert(prev =~= rest_rev@.push(pair));
            lemma_reverse_push(rest_rev@, pair);
            assert(rest@ + (seq![pair] + rest_rev@.reverse()) =~= rest@.push(pair)
                + rest_rev@.reverse());
        }
        rest.push(pair);
    }
    proof {
        assert(rest@ + rest_rev@.reverse() =~= rest@);
    }

    LogPayload { timestamp, level, target, name, fields: rest, message }
}

/// No entry of the retained fields is named `message`: the hoisted value
/// is absent from the nested field map.
pub proof fn lemma_retained_no_message(fs: Seq<(String, FieldValue)>)
    ensures
        forall|i: int|
            0 <= i < retained_fields(fs).len() ==> (#[trigger] retained_fields(fs)[i]).0@
                != "message"@,
    decreases fs.len(),
{
    if fs.len() > 0 {
        lemma_retained_no_message(fs.drop_last());
        let r0 = retained_fields(fs.drop_last());
        if fs.last().0@ != "message"@ {
            assert(retained_fields(fs) == r0.push(fs.last()));
            assert forall|i: int|
                0 <= i < retained_fields(fs).len() implies (#[trigger] retained_fields(fs)[i]).0@
                != "message"@ by {
                if i < r0.len() {
                    assert(retained_fields(fs)[i] == r0[i]);
                } else {
                    assert(retained_fields(fs)[i] == fs.last());
                }
            }
        }
    }
}

/// A `message` value is hoisted if and only if some field carries that
/// name: no field named `message`, no top-level `message` key.
pub proof fn lemma_message_iff_present(fs: Seq<(String, FieldValue)>)
    ensures
        find_message(fs) is Some <==> exists|i: int|
            0 <= i < fs.len() && (#[trigger] fs[i]).0@ == "message"@,
    decreases fs.len(),
{
    if fs.len() > 0 {
        lemma_message_iff_present(fs.drop_last());
        if find_message(fs) is Some {
            if fs.last().0@ == "message"@ {
                assert(fs[fs.len() - 1].0@ == "message"@);
            } else {
                let i = choose|i: int|
                    0 <= i < fs.drop_last().len() && (#[trigger] fs.drop_last()[i]).0@
                        == "message"@;
                assert(fs[i].0@ == "message"@);
            }
        } else {
            assert forall|i: int| 0 <= i < fs.len() implies (#[trigger] fs[i]).0@ != "message"@ by {
                if i < fs.len() - 1 {
                    assert(fs.drop_last()[i] == fs[i]);
                    assert(fs.drop_last()[i].0@ != "message"@);
                } else {
                    assert(fs[i] == fs.last());
                }
            }
        }
    }
}

/// Round trip of the hoisting step: reading a payload's field map back
/// with the hoisted `message` reinserted reconstructs the map the
/// original field sequence stood for, exactly.
pub proof fn lemma_hoist_round_trip(fs: Seq<(String, FieldValue)>)
    ensures
        decoded_fields(retained_fields(fs), find_message(fs)) == fields_map(fs),
    decreases fs.len(),
{
    if fs.len() == 0 {
        assert(decoded_fields(retained_fields(fs), find_message(fs)) =~= fields_map(fs));
    } else {
        let init = fs.drop_last();
        let p = fs.last();
        lemma_hoist_round_trip(init);
        let rinit = fields_map(retained_fields(init));
        if p.0@ == "message"@ {
            // The hoisted value overwrites whatever an earlier `message`
            // entry put there, exactly as the last entry wins in the map.
            assert(retained_fields(fs) == retained_fields(init));
            match find_message(init) {
                Some(v) => {
                    assert(rinit.insert("message"@, p.1) =~= rinit.insert("message"@, v).insert(
                        "message"@,
                        p.1,
                    ));
                },
                None => {
                },
            }
        } else {
            // The last entry is kept; its key differs from `message`, so
            // the two insertions commute.
            assert(retained_fields(fs) == retained_fields(init).push(p));
            assert(fields_map(retained_fields(init).push(p)) == rinit.insert(p.0@, p.1)) by {
                assert(retained_fields(init).push(p).drop_last() =~= retained_fields(init));
            }
            match find_message(init) {
                Some(v) => {
                    assert(rinit.insert(p.0@, p.1).insert("message"@, v) =~= rinit.insert(
                        "message"@,
                        v,
                    ).insert(p.0@, p.1));
                },
                None => {
                },
            }
        }
    }
}

} // verus!
