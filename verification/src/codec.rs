//! Wire codec, outbound side: every request is framed as one self-contained
//! JSON text line `{"id":"…","cmd":"…","payload":…}`.  The id and command are
//! escaped here, character by character, against an exact specification; the
//! framing never introduces a raw newline, so one request is always one line.

use vstd::prelude::*;
use vstd::string::*;

verus! {

/// The hexadecimal digit character for a value below sixteen.
pub open spec fn hex_char(d: nat) -> char {
    if d == 0 {
        '0'
    } else if d == 1 {
        '1'
    } else if d == 2 {
        '2'
    } else if d == 3 {
        '3'
    } else if d == 4 {
        '4'
    } else if d == 5 {
        '5'
    } else if d == 6 {
        '6'
    } else if d == 7 {
        '7'
    } else if d == 8 {
        '8'
    } else if d == 9 {
        '9'
    } else if d == 10 {
        'a'
    } else if d == 11 {
        'b'
    } else if d == 12 {
        'c'
    } else if d == 13 {
        'd'
    } else if d == 14 {
        'e'
    } else {
        'f'
    }
}

/// What one character contributes to a JSON-escaped string: quotes and
/// backslashes get a backslash escape, common control characters get their
/// short escape, the remaining control characters get a `\u00XX` escape, and
/// everything else stands for itself.
pub open spec fn escape_char(c: char) -> Seq<char> {
    if c == '"' {
        seq!['\\', '"']
    } else if c == '\\' {
        seq!['\\', '\\']
    } else if c == '\n' {
        seq!['\\', 'n']
    } else if c == '\r' {
        seq!['\\', 'r']
    } else if c == '\t' {
        seq!['\\', 't']
    } else if (c as u32) < 0x20 {
        seq!['\\', 'u', '0', '0', hex_char((c as u32 / 16) as nat), hex_char((c as u32 % 16) as nat)]
    } else {
        seq![c]
    }
}

/// The JSON escaping of a whole string.
pub open spec fn escaped(s: Seq<char>) -> Seq<char>
    decreases s.len(),
{
    if s.len() == 0 {
        Seq::empty()
    } else {
        escaped(s.drop_last()) + escape_char(s.last())
    }
}

/// True when the text contains no raw newline, i.e. fits on one wire line.
pub open spec fn line_safe(s: Seq<char>) -> bool {
    forall|i: int| 0 <= i < s.len() ==> s[i] != '\n'
}

/// The framed request line for an id, a command and an already rendered
/// payload.
pub open spec fn framed(id: Seq<char>, cmd: Seq<char>, payload: Seq<char>) -> Seq<char> {
    seq!['{', '"', 'i', 'd', '"', ':', '"'] + escaped(id) + seq!['"', ',', '"', 'c', 'm', 'd', '"', ':', '"'] + escaped(cmd) + seq!['"', ',', '"', 'p', 'a', 'y', 'l', 'o', 'a', 'd', '"', ':'] + payload + seq!['}']
}

fn hex_str(d: u32) -> (r: &'static str)
    requires
        d < 16,
    ensures
        r@ == seq![hex_char(d as nat)],
{
    let r: &'static str = if d == 0 {
        "0"
    } else if d == 1 {
        "1"
    } else if d == 2 {
        "2"
    } else if d == 3 {
        "3"
    } else if d == 4 {
        "4"
    } else if d == 5 {
        "5"
    } else if d == 6 {
        "6"
    } else if d == 7 {
        "7"
    } else if d == 8 {
        "8"
    } else if d == 9 {
        "9"
    } else if d == 10 {
        "a"
    } else if d == 11 {
        "b"
    } else if d == 12 {
        "c"
    } else if d == 13 {
        "d"
    } else if d == 14 {
        "e"
    } else {
        "f"
    };
    proof {
        reveal_strlit("0");
        reveal_strlit("1");
        reveal_strlit("2");
        reveal_strlit("3");
        reveal_strlit("4");
        reveal_strlit("5");
        reveal_strlit("6");
        reveal_strlit("7");
        reveal_strlit("8");
        reveal_strlit("9");
        reveal_strlit("a");
        reveal_strlit("b");
        reveal_strlit("c");
        reveal_strlit("d");
        reveal_strlit("e");
        reveal_strlit("f");
        assert(r@ =~= seq![hex_char(d as nat)]);
    }
    r
}

/// Escapes a string for inclusion between quotes in a JSON document.
pub fn escape_json(s: &str) -> (r: String)
    ensures
        r@ == escaped(s@),
{
    let len = s.unicode_len();
    let mut out = String::new();
    let mut i: usize = 0;
    while i < len
        invariant
            i <= len,
            len == s@.len(),
            out@ == escaped(s@.take(i as int)),
        decreases len - i,
    {
        let c = s.get_char(i);
        if c == '"' {
            out.append("\\\"");
            proof {
                reveal_strlit("\\\"");
                assert("\\\""@ =~= escape_char(c));
            }
        } else if c == '\\' {
            out.append("\\\\");
            proof {
                reveal_strlit("\\\\");
                assert("\\\\"@ =~= escape_char(c));
            }
        } else if c == '\n' {
            out.append("\\n");
            proof {
                reveal_strlit("\\n");
                assert("\\n"@ =~= escape_char(c));
            }
        } else if c == '\r' {
            out.append("\\r");
            proof {
                reveal_strlit("\\r");
                assert("\\r"@ =~= escape_char(c));
            }
        } else if c == '\t' {
            out.append("\\t");
            proof {
                reveal_strlit("\\t");
                assert("\\t"@ =~= escape_char(c));
            }
        } else if (c as u32) < 0x20 {
            let ghost prefix = out@;
            out.append("\\u00");
            out.append(hex_str((c as u32) / 16));
            out.append(hex_str((c as u32) % 16));
            proof {
                reveal_strlit("\\u00");
                assert(out@ =~= prefix + escape_char(c));
            }
        } else {
            out.append(s.substring_char(i, i + 1));
            proof {
                assert(s@.subrange(i as int, i as int + 1) =~= escape_char(c));
            }
        }
        proof {
            assert(s@.take(i as int + 1).drop_last() =~= s@.take(i as int));
            assert(s@.take(i as int + 1).last() == c);
        }
        i = i + 1;
    }
    proof {
        assert(s@.take(len as int) =~= s@);
    }
    out
}

/// The escaping of a string never contains a raw newline: a newline in the
/// input becomes the two characters `\` `n`.
pub proof fn lemma_escaped_line_safe(s: Seq<char>)
    ensures
        line_safe(escaped(s)),
    decreases s.len(),
{
    if s.len() > 0 {
        lemma_escaped_line_safe(s.drop_last());
        assert(line_safe(escape_char(s.last())));
        lemma_line_safe_concat(escaped(s.drop_last()), escape_char(s.last()));
    }
}

/// Concatenation of two newline-free texts is newline-free.
pub proof fn lemma_line_safe_concat(a: Seq<char>, b: Seq<char>)
    requires
        line_safe(a),
        line_safe(b),
    ensures
        line_safe(a + b),
{
    assert forall|i: int| 0 <= i < (a + b).len() implies (a + b)[i] != '\n' by {
        if i < a.len() {
            assert((a + b)[i] == a[i]);
        } else {
            assert((a + b)[i] == b[i - a.len()]);
        }
    }
}

/// A framed request line contains no raw newline as long as the rendered
/// payload contains none.
pub proof fn lemma_framed_line_safe(id: Seq<char>, cmd: Seq<char>, payload: Seq<char>)
    requires
        line_safe(payload),
    ensures
        line_safe(framed(id, cmd, payload)),
{
    lemma_escaped_line_safe(id);
    lemma_escaped_line_safe(cmd);
    lemma_line_safe_concat(seq!['{', '"', 'i', 'd', '"', ':', '"'], escaped(id));
    lemma_line_safe_concat(
        seq!['{', '"', 'i', 'd', '"', ':', '"'] + escaped(id),
        seq!['"', ',', '"', 'c', 'm', 'd', '"', ':', '"'],
    );
    lemma_line_safe_concat(
        seq!['{', '"', 'i', 'd', '"', ':', '"'] + escaped(id) + seq!['"', ',', '"', 'c', 'm', 'd', '"', ':', '"'],
        escaped(cmd),
    );
    lemma_line_safe_concat(
        seq!['{', '"', 'i', 'd', '"', ':', '"'] + escaped(id) + seq!['"', ',', '"', 'c', 'm', 'd', '"', ':', '"'] + escaped(cmd),
        seq!['"', ',', '"', 'p', 'a', 'y', 'l', 'o', 'a', 'd', '"', ':'],
    );
    lemma_line_safe_concat(
        seq!['{', '"', 'i', 'd', '"', ':', '"'] + escaped(id) + seq!['"', ',', '"', 'c', 'm', 'd', '"', ':', '"'] + escaped(cmd) + seq!['"', ',', '"', 'p', 'a', 'y', 'l', 'o', 'a', 'd', '"', ':'],
        payload,
    );
    lemma_line_safe_concat(
        seq!['{', '"', 'i', 'd', '"', ':', '"'] + escaped(id) + seq!['"', ',', '"', 'c', 'm', 'd', '"', ':', '"'] + escaped(cmd) + seq!['"', ',', '"', 'p', 'a', 'y', 'l', 'o', 'a', 'd', '"', ':'] + payload,
        seq!['}'],
    );
}

/// Builds the framed request line for an id, a command and an already
/// rendered payload.
pub fn encode_request(id: &str, cmd: &str, payload_json: &str) -> (r: String)
    ensures
        r@ == framed(id@, cmd@, payload_json@),
        line_safe(payload_json@) ==> line_safe(r@),
{
    let mut out = "{\"id\":\"".to_owned();
    let id_escaped = escape_json(id);
    out.append(id_escaped.as_str());
    out.append("\",\"cmd\":\"");
    let cmd_escaped = escape_json(cmd);
    out.append(cmd_escaped.as_str());
    out.append("\",\"payload\":");
    out.append(payload_json);
    out.append("}");
    proof {
        reveal_strlit("{\"id\":\"");
        reveal_strlit("\",\"cmd\":\"");
        reveal_strlit("\",\"payload\":");
        reveal_strlit("}");
        assert("{\"id\":\""@ =~= seq!['{', '"', 'i', 'd', '"', ':', '"']);
        assert("\",\"cmd\":\""@ =~= seq!['"', ',', '"', 'c', 'm', 'd', '"', ':', '"']);
        assert("\",\"payload\":"@ =~= seq!['"', ',', '"', 'p', 'a', 'y', 'l', 'o', 'a', 'd', '"', ':']);
        assert("}"@ =~= seq!['}']);
        assert(out@ =~= framed(id@, cmd@, payload_json@));
        if line_safe(payload_json@) {
            lemma_framed_line_safe(id@, cmd@, payload_json@);
        }
    }
    out
}

/// The control line that asks the worker to exit cooperatively.
pub fn shutdown_request_line() -> (r: String)
    ensures
        r@ == framed("shutdown"@, "shutdown"@, "{}"@),
        line_safe(r@),
{
    let r = encode_request("shutdown", "shutdown", "{}");
    proof {
        reveal_strlit("{}");
        assert(line_safe("{}"@)) by {
            assert("{}"@.len() == 2);
            assert("{}"@[0] == '{');
            assert("{}"@[1] == '}');
        }
    }
    r
}

} // verus!
