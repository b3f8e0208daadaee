//! Report splitting and field tokenization.
//!
//! A bulletin is split on newline characters into reports; a report is
//! split on whitespace into tokens; normalization removes the optional
//! automated-station marker and variable-wind-direction group so that
//! the wind and visibility tokens stand at fixed positions.

use vstd::prelude::*;
use crate::text::str_eq;

verus! {

/// ASCII whitespace, the field separators inside a report.
pub open spec fn is_space(c: char) -> bool {
    c == ' ' || c == '\t' || c == '\n' || c == '\r' || c == '\u{b}' || c == '\u{c}'
}

/// The lines of a bulletin: the runs between newline characters, in
/// order, trailing and interior empty entries included.
pub open spec fn spec_lines(s: Seq<char>) -> Seq<Seq<char>>
    decreases s.len(),
{
    if s.len() == 0 {
        seq![Seq::<char>::empty()]
    } else if s[0] == '\n' {
        seq![Seq::<char>::empty()] + spec_lines(s.drop_first())
    } else {
        let rest = spec_lines(s.drop_first());
        seq![seq![s[0]] + rest[0]] + rest.drop_first()
    }
}

/// Splitting always yields at least one line.
pub proof fn lemma_lines_nonempty(s: Seq<char>)
    ensures
        spec_lines(s).len() >= 1,
    decreases s.len(),
{
    if s.len() > 0 {
        lemma_lines_nonempty(s.drop_first());
    }
}

/// The whitespace-separated tokens of a report, in order, with no
/// empty tokens.
pub open spec fn spec_tokens(s: Seq<char>) -> Seq<Seq<char>>
    decreases s.len(),
{
    if s.len() == 0 {
        Seq::<Seq<char>>::empty()
    } else if is_space(s[0]) {
        spec_tokens(s.drop_first())
    } else {
        let rest = spec_tokens(s.drop_first());
        if s.len() > 1 && !is_space(s[1]) {
            seq![seq![s[0]] + rest[0]] + rest.drop_first()
        } else {
            seq![seq![s[0]]] + rest
        }
    }
}

/// A report that starts with a non-space character has at least one
/// token.
pub proof fn lemma_tokens_head(s: Seq<char>)
    requires
        s.len() > 0,
        !is_space(s[0]),
    ensures
        spec_tokens(s).len() >= 1,
    decreases s.len(),
{
    if s.len() > 1 && !is_space(s[1]) {
        lemma_tokens_head(s.drop_first());
    }
}

/// Whether `c` is ASCII whitespace, decided in executable code.
pub fn space(c: char) -> (r: bool)
    ensures
        r == is_space(c),
{
    c == ' ' || c == '\t' || c == '\n' || c == '\r' || c == '\u{b}' || c == '\u{c}'
}

/// Splits `s` from position `from` on into lines.
fn split_lines_from(s: &str, from: usize) -> (r: Vec<String>)
    requires
        from <= s@.len(),
    ensures
        r.deep_view() == spec_lines(s@.skip(from as int)),
    decreases s@.len() - from,
{
    let len = s.unicode_len();
    if from == len {
        let mut r: Vec<String> = Vec::new();
        r.push(String::new());
        proof {
            assert(s@.skip(from as int) =~= Seq::<char>::empty());
            assert(r.deep_view() =~~= spec_lines(s@.skip(from as int)));
        }
        r
    } else {
        let c = s.get_char(from);
        proof {
            assert(s@.skip(from as int)[0] == c);
            assert(s@.skip(from as int).drop_first() =~= s@.skip(from as int + 1));
        }
        if c == '\n' {
            let mut rest = split_lines_from(s, from + 1);
            rest.insert(0, String::new());
            proof {
                assert(rest.deep_view() =~~= spec_lines(s@.skip(from as int)));
            }
            rest
        } else {
            let mut rest = split_lines_from(s, from + 1);
            proof {
                lemma_lines_nonempty(s@.skip(from as int + 1));
            }
            let head = rest.remove(0);
            let ch = s.substring_char(from, from + 1);
            let new_head = String::from_str(ch).concat(head.as_str());
            rest.insert(0, new_head);
            proof {
                assert(ch@ =~= seq![s@[from as int]]);
                assert(rest.deep_view() =~~= spec_lines(s@.skip(from as int)));
            }
            rest
        }
    }
}

/// Splits a raw bulletin into its reports, one per line, in source
/// order, keeping empty entries.
pub fn split_lines(s: &str) -> (r: Vec<String>)
    ensures
        r.deep_view() == spec_lines(s@),
{
    let r = split_lines_from(s, 0);
    proof {
        assert(s@.skip(0) =~= s@);
    }
    r
}

/// Splits `s` from position `from` on into whitespace-separated tokens.
fn tokenize_from(s: &str, from: usize) -> (r: Vec<String>)
    requires
        from <= s@.len(),
    ensures
        r.deep_view() == spec_tokens(s@.skip(from as int)),
    decreases s@.len() - from,
{
    let len = s.unicode_len();
    if from == len {
        let r: Vec<String> = Vec::new();
        proof {
            assert(s@.skip(from as int) =~= Seq::<char>::empty());
            assert(r.deep_view() =~~= spec_tokens(s@.skip(from as int)));
        }
        r
    } else {
        let c = s.get_char(from);
        proof {
            assert(s@.skip(from as int)[0] == c);
            assert(s@.skip(from as int).drop_first() =~= s@.skip(from as int + 1));
        }
        if space(c) {
            tokenize_from(s, from + 1)
        } else {
            let mut rest = tokenize_from(s, from + 1);
            let ch = s.substring_char(from, from + 1);
            if from + 1 < len && !space(s.get_char(from + 1)) {
                proof {
                    assert(s@.skip(from as int + 1)[0] == s@[from as int + 1]);
                    lemma_tokens_head(s@.skip(from as int + 1));
                    assert(s@.skip(from as int)[1] == s@[from as int + 1]);
                }
                let head = rest.remove(0);
                let new_head = String::from_str(ch).concat(head.as_str());
                rest.insert(0, new_head);
                proof {
                    assert(ch@ =~= seq![s@[from as int]]);
                    assert(rest.deep_view() =~~= spec_tokens(s@.skip(from as int)));
                }
                rest
            } else {
                let tok = String::from_str(ch);
                rest.insert(0, tok);
                proof {
                    assert(ch@ =~= seq![s@[from as int]]);
                    assert(rest.deep_view() =~~= spec_tokens(s@.skip(from as int)));
                }
                rest
            }
        }
    }
}

/// Splits one report into its whitespace-separated tokens, in order.
pub fn tokenize(s: &str) -> (r: Vec<String>)
    ensures
        r.deep_view() == spec_tokens(s@),
{
    let r = tokenize_from(s, 0);
    proof {
        assert(s@.skip(0) =~= s@);
    }
    r
}

/// The field tokens of a report after normalization: the time group,
/// the wind group and the visibility group, at their fixed positions.
pub struct FieldTokens {
    pub time: String,
    pub wind: String,
    pub visibility: String,
}

/// Normalization of a token list: drop the automated-station marker at
/// position 2 if present, then drop the seven-character
/// variable-wind-direction group at position 3 if present; the result
/// is the tokens at positions 1, 2 and 3, or nothing when fewer than
/// four tokens remain.
pub open spec fn spec_normalize(toks: Seq<Seq<char>>) -> Option<(Seq<char>, Seq<char>, Seq<char>)> {
    let t1 = if toks.len() > 2 && toks[2] == "AUTO"@ {
        toks.remove(2)
    } else {
        toks
    };
    let t2 = if t1.len() > 3 && t1[3].len() == 7 {
        t1.remove(3)
    } else {
        t1
    };
    if t2.len() >= 4 {
        Some((t2[1], t2[2], t2[3]))
    } else {
        None
    }
}

/// Normalizes a token list to the fixed-shape field tokens, or returns
/// nothing for a malformed report with too few tokens.
pub fn normalize(tokens: Vec<String>) -> (r: Option<FieldTokens>)
    ensures
        match r {
            Some(f) => spec_normalize(tokens.deep_view()) == Some((f.time@, f.wind@, f.visibility@)),
            None => spec_normalize(tokens.deep_view()) is None,
        },
{
    let ghost orig = tokens.deep_view();
    let mut toks = tokens;
    if toks.len() > 2 && str_eq(toks[2].as_str(), "AUTO") {
        toks.remove(2);
        proof {
            assert(toks.deep_view() =~~= orig.remove(2));
        }
    }
    let ghost t1 = toks.deep_view();
    if toks.len() > 3 && toks[3].as_str().unicode_len() == 7 {
        toks.remove(3);
        proof {
            assert(toks.deep_view() =~~= t1.remove(3));
        }
    }
    if toks.len() < 4 {
        return None;
    }
    Some(
        FieldTokens {
            time: toks[1].clone(),
            wind: toks[2].clone(),
            visibility: toks[3].clone(),
        },
    )
}

} // verus!
