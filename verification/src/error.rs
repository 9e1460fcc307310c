//! The single error surfaced past the repository boundary: an underlying
//! cause with an optional human-readable message, and its rendering as the
//! JSON failure envelope the HTTP layer answers with.

use vstd::prelude::*;
use vstd::string::{StrSliceExecFns, StringExecFns};

verus! {

/// A failure of the listing operation: the description of the underlying
/// cause, and an optional message carried alongside it.
#[derive(Debug, PartialEq, Eq)]
pub struct PermanentError {
    pub source: String,
    pub message: Option<String>,
}

/// The display text of an error: the cause, followed by `: message` when a
/// message is present.
pub open spec fn spec_describe(source: Seq<char>, message: Option<Seq<char>>) -> Seq<char> {
    match message {
        Some(m) => source + ": "@ + m,
        None => source,
    }
}

/// How one character is written inside a JSON string literal.
pub open spec fn json_escape_char(c: char) -> Seq<char> {
    if c == '"' {
        seq!['\\', '"']
    } else if c == '\\' {
        seq!['\\', '\\']
    } else if c == '\n' {
        seq!['\\', 'n']
    } else if c == '\r' {
        seq!['\\', 'r']
    } else if c == '\t' {
        seq!['\\', 't']
    } else {
        seq![c]
    }
}

/// How a whole text is written inside a JSON string literal.
pub open spec fn json_escape(s: Seq<char>) -> Seq<char>
    decreases s.len(),
{
    if s.len() == 0 {
        Seq::empty()
    } else {
        json_escape_char(s[0]) + json_escape(s.drop_first())
    }
}

/// Escaping distributes over appending one character.
proof fn lemma_json_escape_push(s: Seq<char>, c: char)
    ensures
        json_escape(s.push(c)) == json_escape(s) + json_escape_char(c),
    decreases s.len(),
{
    if s.len() == 0 {
        assert(s.push(c)[0] == c);
        assert(s.push(c).drop_first() =~= s);
        assert(json_escape(s) == Seq::<char>::empty());
        assert(json_escape(s.push(c)) == json_escape_char(c) + json_escape(s.push(c).drop_first()));
        assert(json_escape(s.push(c)) =~= json_escape(s) + json_escape_char(c));
    } else {
        lemma_json_escape_push(s.drop_first(), c);
        assert(s.push(c)[0] == s[0]);
        assert(s.push(c).drop_first() =~= s.drop_first().push(c));
        assert(json_escape(s.push(c)) == json_escape_char(s[0]) + json_escape(
            s.push(c).drop_first(),
        ));
        assert(json_escape(s.push(c).drop_first()) == json_escape(s.drop_first()) + json_escape_char(
            c,
        ));
        assert(json_escape(s) == json_escape_char(s[0]) + json_escape(s.drop_first()));
        assert(json_escape(s.push(c)) =~= json_escape(s) + json_escape_char(c));
    }
}

/// Escapes a text for inclusion in a JSON string literal.
pub fn json_escape_str(s: &str) -> (r: String)
    ensures
        r@ == json_escape(s@),
{
    let n = s.unicode_len();
    let mut out = String::new();
    let mut i: usize = 0;
    proof {
        assert(s@.take(0) =~= Seq::<char>::empty());
    }
    while i < n
        invariant
            n == s@.len(),
            i <= n,
            out@ == json_escape(s@.take(i as int)),
        decreases n - i,
    {
        let c = s.get_char(i);
        if c == '"' {
            out.append("\\\"");
            proof {
                reveal_strlit("\\\"");
            }
        } else if c == '\\' {
            out.append("\\\\");
            proof {
                reveal_strlit("\\\\");
            }
        } else if c == '\n' {
            out.append("\\n");
            proof {
                reveal_strlit("\\n");
            }
        } else if c == '\r' {
            out.append("\\r");
            proof {
                reveal_strlit("\\r");
            }
        } else if c == '\t' {
            out.append("\\t");
            proof {
                reveal_strlit("\\t");
            }
        } else {
            let piece = s.substring_char(i, i + 1);
            out.append(piece);
            proof {
                assert(piece@ =~= seq![s@[i as int]]);
            }
        }
        proof {
            assert(s@.take(i as int + 1) =~= s@.take(i as int).push(s@[i as int]));
            lemma_json_escape_push(s@.take(i as int), s@[i as int]);
            assert(out@ =~= json_escape(s@.take(i as int + 1)));
        }
        i += 1;
    }
    proof {
        assert(s@.take(n as int) =~= s@);
    }
    out
}

impl PermanentError {
    /// The display text of this error.
    pub fn describe(&self) -> (s: String)
        ensures
            s@ == spec_describe(self.source@, match self.message {
                Some(ref m) => Some(m@),
                None => None,
            }),
    {
        match &self.message {
            Some(m) => self.source.clone().concat(": ").concat(m.as_str()),
            None => self.source.clone(),
        }
    }

    /// The JSON failure envelope of this error: an object with the display
    /// text, escaped, under the key `cause`.
    pub fn error_body(&self) -> (s: String)
        ensures
            s@ == "{\"cause\":\""@ + json_escape(
                spec_describe(self.source@, match self.message {
                    Some(ref m) => Some(m@),
                    None => None,
                }),
            ) + "\"}"@,
    {
        let text = self.describe();
        let escaped = json_escape_str(text.as_str());
        String::from_str("{\"cause\":\"").concat(escaped.as_str()).concat("\"}")
    }
}

} // verus!
