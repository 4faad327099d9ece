//! Rendering an external-chain log record as source text.
//!
//! The helper that reproduces a captured log as a unit-test fixture prints
//! one line per field, with every byte string rendered as lowercase
//! hexadecimal. The rendering is exact: each produced line is pinned down
//! character by character. The unverified shell only prints the lines.

use crate::event::EventLog;
use vstd::prelude::*;
use vstd::string::StringExecFns;

verus! {

/// The lowercase hexadecimal digit for a value below sixteen.
pub open spec fn hex_digit(n: int) -> char {
    if n == 0 {
        '0'
    } else if n == 1 {
        '1'
    } else if n == 2 {
        '2'
    } else if n == 3 {
        '3'
    } else if n == 4 {
        '4'
    } else if n == 5 {
        '5'
    } else if n == 6 {
        '6'
    } else if n == 7 {
        '7'
    } else if n == 8 {
        '8'
    } else if n == 9 {
        '9'
    } else if n == 10 {
        'a'
    } else if n == 11 {
        'b'
    } else if n == 12 {
        'c'
    } else if n == 13 {
        'd'
    } else if n == 14 {
        'e'
    } else {
        'f'
    }
}

/// Lowercase hexadecimal rendering of a byte string: two digits per byte,
/// most significant digit first.
pub open spec fn hex_of(b: Seq<u8>) -> Seq<char> {
    Seq::new(
        2 * b.len(),
        |i: int| if i % 2 == 0 {
            hex_digit(b[i / 2] as int / 16)
        } else {
            hex_digit(b[i / 2] as int % 16)
        },
    )
}

/// Relies on hex::encode: it renders bytes as lowercase hexadecimal, two
/// digits per byte, most significant digit first.
#[verifier::external_body]
fn hex_encode(bytes: &Vec<u8>) -> (r: String)
    ensures
        r@ == hex_of(bytes@),
{
    hex::encode(bytes)
}

/// The lowercase hexadecimal rendering of `bytes`.
pub fn hex_string(bytes: &Vec<u8>) -> (r: String)
    ensures
        r@ == hex_of(bytes@),
{
    hex_encode(bytes)
}

/// The line giving the log's emitting address.
pub open spec fn spec_address_line(address: Seq<u8>) -> Seq<char> {
    "\taddress: hex!(\""@ + hex_of(address) + "\").into(),"@
}

/// The line giving one topic of the log.
pub open spec fn spec_topic_line(topic: Seq<u8>) -> Seq<char> {
    "\t\thex!(\""@ + hex_of(topic) + "\").into(),"@
}

/// The line giving the log's payload bytes.
pub open spec fn spec_data_line(data: Seq<u8>) -> Seq<char> {
    "\tdata: hex!(\""@ + hex_of(data) + "\").into(),"@
}

/// The whole fixture: an opening brace line, the address, the topic list
/// with one line per topic, and the payload, closed again by a brace.
pub open spec fn spec_log_lines(log: (Seq<u8>, Seq<Seq<u8>>, Seq<u8>)) -> Seq<Seq<char>> {
    seq!["Log {"@, spec_address_line(log.0), "\ttopics: vec!["@] + Seq::new(
        log.1.len(),
        |i: int| spec_topic_line(log.1[i]),
    ) + seq!["\t],"@, spec_data_line(log.2), "}"@]
}

/// The views of a list of built lines.
pub open spec fn line_views(lines: Seq<String>) -> Seq<Seq<char>> {
    lines.map_values(|s: String| s@)
}

/// The topic lines for a list of topics still held as byte vectors.
pub open spec fn topic_lines(topics: Seq<Vec<u8>>, n: int) -> Seq<Seq<char>> {
    Seq::new(n as nat, |j: int| spec_topic_line(topics[j]@))
}

/// Builds the line giving the log's emitting address.
fn address_line(address: &Vec<u8>) -> (r: String)
    ensures
        r@ == spec_address_line(address@),
{
    let mut s = String::from_str("\taddress: hex!(\"");
    let hexed = hex_string(address);
    s.append(hexed.as_str());
    s.append("\").into(),");
    s
}

/// Builds the line giving one topic of the log.
fn topic_line(topic: &Vec<u8>) -> (r: String)
    ensures
        r@ == spec_topic_line(topic@),
{
    let mut s = String::from_str("\t\thex!(\"");
    let hexed = hex_string(topic);
    s.append(hexed.as_str());
    s.append("\").into(),");
    s
}

/// Builds the line giving the log's payload bytes.
fn data_line(data: &Vec<u8>) -> (r: String)
    ensures
        r@ == spec_data_line(data@),
{
    let mut s = String::from_str("\tdata: hex!(\"");
    let hexed = hex_string(data);
    s.append(hexed.as_str());
    s.append("\").into(),");
    s
}

/// Renders a log record as the lines of a unit-test fixture, in print
/// order.
pub fn event_log_lines(log: &EventLog) -> (r: Vec<String>)
    ensures
        line_views(r@) == spec_log_lines(log@),
{
    let mut lines: Vec<String> = Vec::new();
    lines.push(String::from_str("Log {"));
    lines.push(address_line(&log.address));
    lines.push(String::from_str("\ttopics: vec!["));
    proof {
        assert(line_views(lines@) =~= seq![
            "Log {"@,
            spec_address_line(log.address@),
            "\ttopics: vec!["@,
        ] + topic_lines(log.topics@, 0));
    }
    let mut i: usize = 0;
    while i < log.topics.len()
        invariant
            i <= log.topics.len(),
            lines@.len() == 3 + i,
            line_views(lines@) == seq![
                "Log {"@,
                spec_address_line(log.address@),
                "\ttopics: vec!["@,
            ] + topic_lines(log.topics@, i as int),
        decreases log.topics.len() - i,
    {
        let ghost prev = lines@;
        let ghost head = seq!["Log {"@, spec_address_line(log.address@), "\ttopics: vec!["@];
        lines.push(topic_line(&log.topics[i]));
        proof {
            let target = head + topic_lines(log.topics@, i + 1);
            assert forall|k: int| 0 <= k < lines@.len() implies line_views(lines@)[k]
                == target[k] by {
                if k < 3 + i {
                    assert(lines@[k] == prev[k]);
                    assert(line_views(prev)[k] == (head + topic_lines(log.topics@, i as int))[k]);
                } else {
                    assert(lines@[k]@ == spec_topic_line(log.topics@[i as int]@));
                }
            }
            assert(line_views(lines@) =~= target);
        }
        i = i + 1;
    }
    lines.push(String::from_str("\t],"));
    lines.push(data_line(&log.data));
    lines.push(String::from_str("}"));
    proof {
        assert(topic_lines(log.topics@, log.topics@.len() as int) =~= Seq::new(
            log@.1.len(),
            |i: int| spec_topic_line(log@.1[i]),
        ));
        assert(line_views(lines@) =~= spec_log_lines(log@));
    }
    lines
}

} // verus!
