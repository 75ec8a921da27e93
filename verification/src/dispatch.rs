//! One handling cycle: decode the incoming envelope's operation tag, act
//! on the store, and construct the response envelope.

use vstd::prelude::*;
use vstd::string::StringExecFns;

use crate::envelope::{DecodeError, Envelope, EnvelopeView, Payload, PayloadView};
use crate::store::{stored_value, Portal};

verus! {

/// The intent an incoming envelope's operation tag expresses, decoded
/// once at the top of a handling cycle.
#[derive(Clone, Copy, Debug, PartialEq, Eq, Structural)]
pub enum Operation {
    Insert,
    Read,
    Passthrough,
}

/// Which operation a tag selects.  Only the literal tags `"insert"` and
/// `"read"` are recognized; every other tag (the unset empty tag
/// included) passes the envelope through.
pub open spec fn classified(action: Seq<char>) -> Operation {
    if action == "insert"@ {
        Operation::Insert
    } else if action == "read"@ {
        Operation::Read
    } else {
        Operation::Passthrough
    }
}

/// Decodes an operation tag into the operation it selects.
pub fn classify(action: &String) -> (op: Operation)
    ensures
        op == classified(action@),
{
    let insert_tag: String = String::from_str("insert");
    if *action == insert_tag {
        return Operation::Insert;
    }
    let read_tag: String = String::from_str("read");
    if *action == read_tag {
        Operation::Read
    } else {
        Operation::Passthrough
    }
}

/// The store contents after one handling cycle on a store holding `m`:
/// only an insert request with a decodable tuple payload mutates the
/// store; every other envelope (reads, pass-throughs, decode failures)
/// leaves it untouched.
pub open spec fn store_after(m: Map<Seq<char>, Seq<char>>, input: EnvelopeView) -> Map<
    Seq<char>,
    Seq<char>,
> {
    match (classified(input.action), input.payload) {
        (Operation::Insert, PayloadView::Tuple { first, second }) => m.insert(first, second),
        _ => m,
    }
}

/// The outcome of one handling cycle on a store holding `m`: the envelope
/// the cycle emits, or the decode failure that aborts it.
///
/// - An insert request is confirmed with the literal text
///   `"inserted into bucket!"` under an unset tag, whatever was inserted.
/// - A read request is answered with the value stored for the key (the
///   empty string if absent) under a tag echoing the queried key; the
///   second tuple field is decoded but does not drive the lookup.
/// - A tag other than `"insert"`/`"read"` forwards the input unchanged.
/// - On the insert and read paths, a payload that is not tuple-shaped is
///   a [`DecodeError`].
pub open spec fn response_of(m: Map<Seq<char>, Seq<char>>, input: EnvelopeView) -> Result<
    EnvelopeView,
    DecodeError,
> {
    match classified(input.action) {
        Operation::Insert => match input.payload {
            PayloadView::Tuple { .. } => Ok(
                EnvelopeView {
                    action: Seq::<char>::empty(),
                    payload: PayloadView::Text { text: "inserted into bucket!"@ },
                },
            ),
            _ => Err(DecodeError),
        },
        Operation::Read => match input.payload {
            PayloadView::Tuple { first, second: _ } => Ok(
                EnvelopeView {
                    action: first,
                    payload: PayloadView::Text { text: stored_value(m, first) },
                },
            ),
            _ => Err(DecodeError),
        },
        Operation::Passthrough => Ok(input),
    }
}

/// Handles one incoming envelope: dispatches on its operation tag,
/// performs the store operation, and returns the response envelope for
/// the output port, or the decode failure that aborts the cycle.
pub fn handle_ip(portal: &mut Portal, ip_input: Envelope) -> (r: Result<Envelope, DecodeError>)
    ensures
        final(portal)@ == store_after(old(portal)@, ip_input@),
        (match r {
            Ok(response) => response_of(old(portal)@, ip_input@) == Ok::<
                EnvelopeView,
                DecodeError,
            >(response@),
            Err(err) => response_of(old(portal)@, ip_input@) == Err::<
                EnvelopeView,
                DecodeError,
            >(err),
        }),
{
    match classify(&ip_input.action) {
        Operation::Insert => match ip_input.payload {
            Payload::Tuple { first, second } => {
                portal.put(first, second);
                Ok(
                    Envelope {
                        action: String::new(),
                        payload: Payload::Text {
                            text: String::from_str("inserted into bucket!"),
                        },
                    },
                )
            },
            _ => Err(DecodeError),
        },
        Operation::Read => match ip_input.payload {
            Payload::Tuple { first, second: _ } => {
                let value_found = portal.get(first.as_str());
                Ok(Envelope { action: first, payload: Payload::Text { text: value_found } })
            },
            _ => Err(DecodeError),
        },
        Operation::Passthrough => Ok(ip_input),
    }
}

/// The envelope that asks the component to map `key` to `value`.
pub open spec fn insert_request(key: Seq<char>, value: Seq<char>) -> EnvelopeView {
    EnvelopeView {
        action: "insert"@,
        payload: PayloadView::Tuple { first: key, second: value },
    }
}

/// The envelope that asks the component for the value under `key`.  Its
/// second tuple field is decoded but does not drive the lookup.
pub open spec fn read_request(key: Seq<char>, second: Seq<char>) -> EnvelopeView {
    EnvelopeView {
        action: "read"@,
        payload: PayloadView::Tuple { first: key, second: second },
    }
}

/// The two recognized tags select distinct operations: `"insert"` is
/// classified as an insert, `"read"` as a read.
pub proof fn lemma_request_tags()
    ensures
        classified("insert"@) == Operation::Insert,
        classified("read"@) == Operation::Read,
{
    reveal_strlit("insert");
    reveal_strlit("read");
    assert("insert"@.len() == 6 && "read"@.len() == 4);
}

/// Inserting a key and then reading the same key yields exactly the
/// inserted value, whatever the store held before and whatever stands in
/// the read request's ignored second field.
pub proof fn lemma_insert_then_read(
    m: Map<Seq<char>, Seq<char>>,
    key: Seq<char>,
    value: Seq<char>,
    ignored: Seq<char>,
)
    ensures
        ({
            let m1 = store_after(m, insert_request(key, value));
            response_of(m1, read_request(key, ignored)) == Ok::<EnvelopeView, DecodeError>(
                EnvelopeView { action: key, payload: PayloadView::Text { text: value } },
            )
        }),
{
    lemma_request_tags();
}

/// Reading a key that was never inserted returns the empty string; it is
/// never a decode failure.
pub proof fn lemma_read_absent_key(m: Map<Seq<char>, Seq<char>>, key: Seq<char>, ignored: Seq<char>)
    requires
        !m.contains_key(key),
    ensures
        response_of(m, read_request(key, ignored)) == Ok::<EnvelopeView, DecodeError>(
            EnvelopeView {
                action: key,
                payload: PayloadView::Text { text: Seq::<char>::empty() },
            },
        ),
{
    lemma_request_tags();
}

/// A repeated insert with the same key overwrites: after inserting
/// `earlier` and then `later` under one key, reading that key yields
/// `later`.
pub proof fn lemma_insert_overwrites(
    m: Map<Seq<char>, Seq<char>>,
    key: Seq<char>,
    earlier: Seq<char>,
    later: Seq<char>,
    ignored: Seq<char>,
)
    ensures
        ({
            let m1 = store_after(m, insert_request(key, earlier));
            let m2 = store_after(m1, insert_request(key, later));
            response_of(m2, read_request(key, ignored)) == Ok::<EnvelopeView, DecodeError>(
                EnvelopeView { action: key, payload: PayloadView::Text { text: later } },
            )
        }),
{
    lemma_request_tags();
}

/// Every decodable insert request is answered with the literal
/// confirmation text `"inserted into bucket!"` under an unset operation
/// tag, whatever the key and value (empty strings included) and whatever
/// the store holds.
pub proof fn lemma_insert_response(m: Map<Seq<char>, Seq<char>>, key: Seq<char>, value: Seq<char>)
    ensures
        response_of(m, insert_request(key, value)) == Ok::<EnvelopeView, DecodeError>(
            EnvelopeView {
                action: Seq::<char>::empty(),
                payload: PayloadView::Text { text: "inserted into bucket!"@ },
            },
        ),
{
    lemma_request_tags();
}

/// The response to a read echoes the queried key, literally, as its
/// operation tag, and carries the value stored for that key as its text.
pub proof fn lemma_read_echoes_key(m: Map<Seq<char>, Seq<char>>, key: Seq<char>, ignored: Seq<char>)
    ensures
        response_of(m, read_request(key, ignored)) == Ok::<EnvelopeView, DecodeError>(
            EnvelopeView {
                action: key,
                payload: PayloadView::Text { text: stored_value(m, key) },
            },
        ),
{
    lemma_request_tags();
}

/// An envelope whose operation tag is anything other than `"insert"` or
/// `"read"` is forwarded unchanged, and the store is not touched.
pub proof fn lemma_passthrough(m: Map<Seq<char>, Seq<char>>, input: EnvelopeView)
    requires
        input.action != "insert"@,
        input.action != "read"@,
    ensures
        store_after(m, input) == m,
        response_of(m, input) == Ok::<EnvelopeView, DecodeError>(input),
{
}

/// On the insert and read paths, a payload that is not tuple-shaped is a
/// decode failure, and the store is left unchanged.
pub proof fn lemma_malformed_payload(m: Map<Seq<char>, Seq<char>>, input: EnvelopeView)
    requires
        classified(input.action) == Operation::Insert || classified(input.action)
            == Operation::Read,
        !(input.payload is Tuple),
    ensures
        response_of(m, input) == Err::<EnvelopeView, DecodeError>(DecodeError),
        store_after(m, input) == m,
{
}

} // verus!
