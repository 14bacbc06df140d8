//! The text format of the persisted installation record.
//!
//! The record is stored as one structured text object: each field
//! name, then its value — quoted, escaped text for paths, `true` /
//! `false` for flags, `null` for an absent path. `encode_config`
//! renders a record; `decode_config` parses one and rejects anything
//! it cannot read, so that a caller can fall back to a fresh record.
//! `lemma_config_round_trip` proves that decoding an encoded record
//! gives the record back, field for field.

use vstd::prelude::*;

use crate::game_state::{ConfigView, GameConfig};

verus! {

/// How one character is written inside a quoted value: a quote or a
/// backslash gets a backslash before it, anything else stands as it
/// is.
pub open spec fn esc_char(c: char) -> Seq<char> {
    if c == '"' || c == '\\' {
        seq!['\\', c]
    } else {
        seq![c]
    }
}

/// A whole value, escaped character by character.
pub open spec fn spec_escape(s: Seq<char>) -> Seq<char>
    decreases s.len(),
{
    if s.len() == 0 {
        Seq::empty()
    } else {
        esc_char(s[0]) + spec_escape(s.drop_first())
    }
}

/// An escaped value between quotes.
pub open spec fn spec_quoted(s: Seq<char>) -> Seq<char> {
    "\""@ + spec_escape(s) + "\""@
}

pub open spec fn spec_bool_text(b: bool) -> Seq<char> {
    if b {
        "true"@
    } else {
        "false"@
    }
}

/// An optional path: `null` when absent, a quoted value when present.
pub open spec fn spec_opt_text(o: Option<Seq<char>>) -> Seq<char> {
    match o {
        None => "null"@,
        Some(s) => spec_quoted(s),
    }
}

/// The full text of a record, fields in their fixed order. The
/// concatenation is grouped from the right, matching how the parser
/// peels the text off from the left.
pub open spec fn spec_encode(c: ConfigView) -> Seq<char> {
    "{\"config_dir\":"@ + (spec_quoted(c.config_dir) + (",\"is_wine_installed\":"@
        + (spec_bool_text(c.is_wine_installed) + (",\"is_dxvk_installed\":"@ + (spec_bool_text(
        c.is_dxvk_installed,
    ) + (",\"is_font_installed\":"@ + (spec_bool_text(c.is_font_installed)
        + (",\"is_dependecies_installed\":"@ + (spec_bool_text(c.is_dependecies_installed)
        + (",\"game_dir\":"@ + (spec_opt_text(c.game_dir) + (",\"is_game_installed\":"@
        + (spec_bool_text(c.is_game_installed) + (",\"is_game_patched\":"@ + (spec_bool_text(
        c.is_game_patched,
    ) + "}"@)))))))))))))))
}

/// Consumes an exact literal from the front of the input, or fails.
pub open spec fn spec_expect(s: Seq<char>, lit: Seq<char>) -> Option<Seq<char>> {
    if lit.len() <= s.len() && s.take(lit.len() as int) == lit {
        Some(s.skip(lit.len() as int))
    } else {
        None
    }
}

/// Reads an escaped value up to its closing quote; the opening quote
/// has already been consumed. Yields the value and the remainder
/// after the closing quote.
pub open spec fn spec_parse_string_body(s: Seq<char>) -> Option<(Seq<char>, Seq<char>)>
    decreases s.len(),
{
    if s.len() == 0 {
        None
    } else if s[0] == '"' {
        Some((Seq::empty(), s.drop_first()))
    } else if s[0] == '\\' {
        if s.len() >= 2 {
            match spec_parse_string_body(s.skip(2)) {
                Some(p) => Some((seq![s[1]] + p.0, p.1)),
                None => None,
            }
        } else {
            None
        }
    } else {
        match spec_parse_string_body(s.drop_first()) {
            Some(p) => Some((seq![s[0]] + p.0, p.1)),
            None => None,
        }
    }
}

/// Reads a quoted, escaped value, opening quote included.
pub open spec fn spec_parse_quoted(s: Seq<char>) -> Option<(Seq<char>, Seq<char>)> {
    if s.len() > 0 && s[0] == '"' {
        spec_parse_string_body(s.drop_first())
    } else {
        None
    }
}

pub open spec fn spec_parse_bool(s: Seq<char>) -> Option<(bool, Seq<char>)> {
    match spec_expect(s, "true"@) {
        Some(r) => Some((true, r)),
        None => match spec_expect(s, "false"@) {
            Some(r) => Some((false, r)),
            None => None,
        },
    }
}

pub open spec fn spec_parse_opt(s: Seq<char>) -> Option<(Option<Seq<char>>, Seq<char>)> {
    match spec_expect(s, "null"@) {
        Some(r) => Some((None, r)),
        None => match spec_parse_quoted(s) {
            Some(p) => Some((Some(p.0), p.1)),
            None => None,
        },
    }
}

/// The mathematical parser of a whole record: every field in order,
/// nothing left over. Anything else is rejected.
pub open spec fn spec_decode(s: Seq<char>) -> Option<ConfigView> {
    match spec_expect(s, "{\"config_dir\":"@) {
        None => None,
        Some(s1) => match spec_parse_quoted(s1) {
            None => None,
            Some((config_dir, s2)) => match spec_expect(s2, ",\"is_wine_installed\":"@) {
                None => None,
                Some(s3) => match spec_parse_bool(s3) {
                    None => None,
                    Some((wine, s4)) => match spec_expect(s4, ",\"is_dxvk_installed\":"@) {
                        None => None,
                        Some(s5) => match spec_parse_bool(s5) {
                            None => None,
                            Some((dxvk, s6)) => match spec_expect(s6, ",\"is_font_installed\":"@) {
                                None => None,
                                Some(s7) => match spec_parse_bool(s7) {
                                    None => None,
                                    Some((font, s8)) => match spec_expect(
                                        s8,
                                        ",\"is_dependecies_installed\":"@,
                                    ) {
                                        None => None,
                                        Some(s9) => match spec_parse_bool(s9) {
                                            None => None,
                                            Some((deps, s10)) => match spec_expect(
                                                s10,
                                                ",\"game_dir\":"@,
                                            ) {
                                                None => None,
                                                Some(s11) => match spec_parse_opt(s11) {
                                                    None => None,
                                                    Some((game_dir, s12)) => match spec_expect(
                                                        s12,
                                                        ",\"is_game_installed\":"@,
                                                    ) {
                                                        None => None,
                                                        Some(s13) => match spec_parse_bool(s13) {
                                                            None => None,
                                                            Some((game, s14)) => match spec_expect(
                                                                s14,
                                                                ",\"is_game_patched\":"@,
                                                            ) {
                                                                None => None,
                                                                Some(s15) => match spec_parse_bool(
                                                                    s15,
                                                                ) {
                                                                    None => None,
                                                                    Some(
                                                                        (patched, s16),
                                                                    ) => match spec_expect(
                                                                        s16,
                                                                        "}"@,
                                                                    ) {
                                                                        None => None,
                                                                        Some(s17) => if s17.len()
                                                                            == 0 {
                                                                            Some(
                                                                                ConfigView {
                                                                                    config_dir,
                                                                                    is_wine_installed: wine,
                                                                                    is_dxvk_installed: dxvk,
                                                                                    is_font_installed: font,
                                                                                    is_dependecies_installed: deps,
                                                                                    game_dir,
                                                                                    is_game_installed: game,
                                                                                    is_game_patched: patched,
                                                                                },
                                                                            )
                                                                        } else {
                                                                            None
                                                                        },
                                                                    },
                                                                },
                                                            },
                                                        },
                                                    },
                                                },
                                            },
                                        },
                                    },
                                },
                            },
                        },
                    },
                },
            },
        },
    }
}

/// Consuming a literal from text that starts with that very literal
/// succeeds and leaves exactly the rest.
pub proof fn lemma_expect_concat(lit: Seq<char>, rest: Seq<char>)
    ensures
        spec_expect(lit + rest, lit) == Some(rest),
{
    assert((lit + rest).take(lit.len() as int) =~= lit);
    assert((lit + rest).skip(lit.len() as int) =~= rest);
}

/// Parsing an escaped value followed by its closing quote gives the
/// value back and leaves exactly what followed the quote.
pub proof fn lemma_parse_escape(v: Seq<char>, rest: Seq<char>)
    ensures
        spec_parse_string_body(spec_escape(v) + "\""@ + rest) == Some((v, rest)),
    decreases v.len(),
{
    reveal_strlit("\"");
    let s = spec_escape(v) + "\""@ + rest;
    if v.len() == 0 {
        assert(spec_escape(v) == Seq::<char>::empty());
        assert(s[0] == '"');
        assert(s.drop_first() =~= rest);
    } else {
        let c = v[0];
        let tail = v.drop_first();
        lemma_parse_escape(tail, rest);
        let s_tail = spec_escape(tail) + "\""@ + rest;
        if c == '"' || c == '\\' {
            assert(s[0] == '\\');
            assert(s[1] == c);
            assert(s.len() >= 2);
            assert(s.skip(2) =~= s_tail);
            assert(seq![s[1]] + tail =~= v);
        } else {
            assert(s[0] == c);
            assert(s.drop_first() =~= s_tail);
            assert(seq![s[0]] + tail =~= v);
        }
    }
}

/// Parsing a quoted value, opening quote included, inverts quoting.
pub proof fn lemma_parse_quoted_of_quoted(v: Seq<char>, rest: Seq<char>)
    ensures
        spec_parse_quoted(spec_quoted(v) + rest) == Some((v, rest)),
{
    reveal_strlit("\"");
    let s = spec_quoted(v) + rest;
    assert(s[0] == '"');
    assert(s.drop_first() =~= spec_escape(v) + "\""@ + rest);
    lemma_parse_escape(v, rest);
}

/// Parsing a rendered flag inverts rendering.
pub proof fn lemma_parse_bool_text(b: bool, rest: Seq<char>)
    ensures
        spec_parse_bool(spec_bool_text(b) + rest) == Some((b, rest)),
{
    reveal_strlit("true");
    reveal_strlit("false");
    if b {
        lemma_expect_concat("true"@, rest);
    } else {
        let s = "false"@ + rest;
        if spec_expect(s, "true"@) is Some {
            assert(s.take("true"@.len() as int)[0] == s[0]);
            assert(false);
        }
        lemma_expect_concat("false"@, rest);
    }
}

/// Parsing a rendered optional path inverts rendering.
pub proof fn lemma_parse_opt_text(o: Option<Seq<char>>, rest: Seq<char>)
    ensures
        spec_parse_opt(spec_opt_text(o) + rest) == Some((o, rest)),
{
    reveal_strlit("null");
    reveal_strlit("\"");
    match o {
        None => {
            lemma_expect_concat("null"@, rest);
        },
        Some(v) => {
            let s = spec_quoted(v) + rest;
            assert(s[0] == '"');
            if spec_expect(s, "null"@) is Some {
                assert(s.take("null"@.len() as int)[0] == s[0]);
                assert(false);
            }
            lemma_parse_quoted_of_quoted(v, rest);
        },
    }
}

/// Round trip: decoding an encoded record yields that record.
#[verifier::rlimit(100)]
#[verifier::spinoff_prover]
pub proof fn lemma_config_round_trip(c: ConfigView)
    ensures
        spec_decode(spec_encode(c)) == Some(c),
{
    let t9: Seq<char> = "}"@;
    let t8: Seq<char> = spec_bool_text(c.is_game_patched) + t9;
    let l8: Seq<char> = ",\"is_game_patched\":"@ + t8;
    let t7: Seq<char> = spec_bool_text(c.is_game_installed) + l8;
    let l7: Seq<char> = ",\"is_game_installed\":"@ + t7;
    let t6: Seq<char> = spec_opt_text(c.game_dir) + l7;
    let l6: Seq<char> = ",\"game_dir\":"@ + t6;
    let t5: Seq<char> = spec_bool_text(c.is_dependecies_installed) + l6;
    let l5: Seq<char> = ",\"is_dependecies_installed\":"@ + t5;
    let t4: Seq<char> = spec_bool_text(c.is_font_installed) + l5;
    let l4: Seq<char> = ",\"is_font_installed\":"@ + t4;
    let t3: Seq<char> = spec_bool_text(c.is_dxvk_installed) + l4;
    let l3: Seq<char> = ",\"is_dxvk_installed\":"@ + t3;
    let t2: Seq<char> = spec_bool_text(c.is_wine_installed) + l3;
    let l2: Seq<char> = ",\"is_wine_installed\":"@ + t2;
    let t1: Seq<char> = spec_quoted(c.config_dir) + l2;
    let s: Seq<char> = "{\"config_dir\":"@ + t1;
    assert(spec_encode(c) == s);
    lemma_expect_concat("{\"config_dir\":"@, t1);
    lemma_parse_quoted_of_quoted(c.config_dir, l2);
    lemma_expect_concat(",\"is_wine_installed\":"@, t2);
    lemma_parse_bool_text(c.is_wine_installed, l3);
    lemma_expect_concat(",\"is_dxvk_installed\":"@, t3);
    lemma_parse_bool_text(c.is_dxvk_installed, l4);
    lemma_expect_concat(",\"is_font_installed\":"@, t4);
    lemma_parse_bool_text(c.is_font_installed, l5);
    lemma_expect_concat(",\"is_dependecies_installed\":"@, t5);
    lemma_parse_bool_text(c.is_dependecies_installed, l6);
    lemma_expect_concat(",\"game_dir\":"@, t6);
    lemma_parse_opt_text(c.game_dir, l7);
    lemma_expect_concat(",\"is_game_installed\":"@, t7);
    lemma_parse_bool_text(c.is_game_installed, l8);
    lemma_expect_concat(",\"is_game_patched\":"@, t8);
    lemma_parse_bool_text(c.is_game_patched, t9);
    lemma_expect_concat("}"@, Seq::<char>::empty());
    assert(t9 =~= "}"@ + Seq::<char>::empty());
}

/// Escaping one more character appends its escape.
proof fn lemma_escape_snoc(v: Seq<char>, c: char)
    ensures
        spec_escape(v.push(c)) == spec_escape(v) + esc_char(c),
    decreases v.len(),
{
    if v.len() == 0 {
        assert(v.push(c)[0] == c);
        assert(v.push(c).drop_first() =~= Seq::<char>::empty());
        assert(esc_char(c) + spec_escape(Seq::<char>::empty()) =~= esc_char(c));
        assert(spec_escape(v) + esc_char(c) =~= esc_char(c));
    } else {
        assert(v.push(c)[0] == v[0]);
        assert(v.push(c).drop_first() =~= v.drop_first().push(c));
        lemma_escape_snoc(v.drop_first(), c);
        assert(esc_char(v[0]) + (spec_escape(v.drop_first()) + esc_char(c)) =~= (esc_char(v[0])
            + spec_escape(v.drop_first())) + esc_char(c));
    }
}

/// Renders a flag.
fn bool_str(b: bool) -> (r: &'static str)
    ensures
        r@ == spec_bool_text(b),
{
    if b {
        "true"
    } else {
        "false"
    }
}

/// Escapes a value character by character.
fn escape_string(s: &str) -> (r: String)
    ensures
        r@ == spec_escape(s@),
{
    let n = s.unicode_len();
    let mut out = String::new();
    let mut i: usize = 0;
    while i < n
        invariant
            0 <= i <= n,
            n == s@.len(),
            out@ == spec_escape(s@.take(i as int)),
        decreases n - i,
    {
        let c = s.get_char(i);
        if c == '"' || c == '\\' {
            out.append("\\");
        }
        let piece = s.substring_char(i, i + 1);
        out.append(piece);
        proof {
            reveal_strlit("\\");
            lemma_escape_snoc(s@.take(i as int), s@[i as int]);
            assert(s@.take(i + 1 as int) =~= s@.take(i as int).push(s@[i as int]));
            assert(piece@ =~= seq![s@[i as int]]);
            if c == '"' || c == '\\' {
                assert("\\"@ + piece@ =~= esc_char(s@[i as int]));
            } else {
                assert(piece@ =~= esc_char(s@[i as int]));
            }
        }
        i += 1;
    }
    proof {
        assert(s@.take(n as int) =~= s@);
    }
    out
}

/// Renders a quoted, escaped value.
fn quoted_string(s: &str) -> (r: String)
    ensures
        r@ == spec_quoted(s@),
{
    let e = escape_string(s);
    let head = String::from_str("\"").concat(e.as_str());
    head.concat("\"")
}

/// Renders an optional path.
fn opt_string(o: &Option<String>) -> (r: String)
    ensures
        r@ == spec_opt_text(crate::game_state::opt_str_view(*o)),
{
    match o {
        Option::None => String::from_str("null"),
        Option::Some(d) => quoted_string(d.as_str()),
    }
}

/// Renders the whole record, built from the innermost suffix outward
/// so that the result matches `spec_encode` piece for piece.
pub fn encode_config(config: &GameConfig) -> (s: String)
    ensures
        s@ == spec_encode(config@),
{
    let u0 = String::from_str(bool_str(config.is_game_patched)).concat("}");
    let u1 = String::from_str(",\"is_game_patched\":").concat(u0.as_str());
    let u2 = String::from_str(bool_str(config.is_game_installed)).concat(u1.as_str());
    let u3 = String::from_str(",\"is_game_installed\":").concat(u2.as_str());
    let u4 = opt_string(&config.game_dir).concat(u3.as_str());
    let u5 = String::from_str(",\"game_dir\":").concat(u4.as_str());
    let u6 = String::from_str(bool_str(config.is_dependecies_installed)).concat(u5.as_str());
    let u7 = String::from_str(",\"is_dependecies_installed\":").concat(u6.as_str());
    let u8 = String::from_str(bool_str(config.is_font_installed)).concat(u7.as_str());
    let u9 = String::from_str(",\"is_font_installed\":").concat(u8.as_str());
    let u10 = String::from_str(bool_str(config.is_dxvk_installed)).concat(u9.as_str());
    let u11 = String::from_str(",\"is_dxvk_installed\":").concat(u10.as_str());
    let u12 = String::from_str(bool_str(config.is_wine_installed)).concat(u11.as_str());
    let u13 = String::from_str(",\"is_wine_installed\":").concat(u12.as_str());
    let u14 = quoted_string(config.config_dir.as_str()).concat(u13.as_str());
    String::from_str("{\"config_dir\":").concat(u14.as_str())
}

/// Consumes `lit` at position `i`, yielding the position after it.
fn expect_lit(s: &str, i: usize, lit: &str) -> (r: Option<usize>)
    requires
        i <= s@.len(),
    ensures
        match r {
            Some(j) => spec_expect(s@.skip(i as int), lit@) == Some(s@.skip(j as int)) && i <= j
                <= s@.len(),
            None => spec_expect(s@.skip(i as int), lit@) is None,
        },
{
    let n = s.unicode_len();
    let m = lit.unicode_len();
    if m > n - i {
        return None;
    }
    let mut k: usize = 0;
    while k < m
        invariant
            0 <= k <= m,
            m == lit@.len(),
            n == s@.len(),
            i + m <= n,
            forall|q: int| 0 <= q < k ==> s@[i + q] == lit@[q],
        decreases m - k,
    {
        if s.get_char(i + k) != lit.get_char(k) {
            proof {
                assert(spec_expect(s@.skip(i as int), lit@) is None) by {
                    if lit@.len() <= s@.skip(i as int).len() && s@.skip(i as int).take(
                        lit@.len() as int,
                    ) == lit@ {
                        assert(s@.skip(i as int).take(lit@.len() as int)[k as int] == lit@[k as int]);
                        assert(s@.skip(i as int)[k as int] == s@[i + k]);
                        assert(false);
                    }
                };
            }
            return None;
        }
        k += 1;
    }
    proof {
        assert(s@.skip(i as int).take(m as int) =~= lit@);
        assert(s@.skip(i as int).skip(m as int) =~= s@.skip((i + m) as int));
    }
    Some(i + m)
}

/// Reads an escaped value at position `start`; the opening quote has
/// already been consumed. Yields the value and the position after the
/// closing quote.
fn parse_string_at(s: &str, start: usize) -> (r: Option<(String, usize)>)
    requires
        start <= s@.len(),
    ensures
        match r {
            Some(p) => spec_parse_string_body(s@.skip(start as int)) == Some(
                (p.0@, s@.skip(p.1 as int)),
            ) && start <= p.1 <= s@.len(),
            None => spec_parse_string_body(s@.skip(start as int)) is None,
        },
{
    let n = s.unicode_len();
    let mut out = String::new();
    let mut j: usize = start;
    proof {
        match spec_parse_string_body(s@.skip(start as int)) {
            Some(p) => {
                assert(Seq::<char>::empty() + p.0 =~= p.0);
            },
            None => {},
        }
    }
    while j < n
        invariant
            start <= j <= n,
            n == s@.len(),
            (match spec_parse_string_body(s@.skip(j as int)) {
                Some(p) => spec_parse_string_body(s@.skip(start as int)) == Some(
                    (out@ + p.0, p.1),
                ),
                None => spec_parse_string_body(s@.skip(start as int)) is None,
            }),
        decreases n - j,
    {
        let c = s.get_char(j);
        if c == '"' {
            proof {
                assert(s@.skip(j as int)[0] == c);
                assert(s@.skip(j as int).drop_first() =~= s@.skip(j + 1 as int));
                assert(out@ + Seq::<char>::empty() =~= out@);
            }
            return Some((out, j + 1));
        } else if c == '\\' {
            proof {
                assert(s@.skip(j as int)[0] == c);
            }
            if n - j < 2 {
                proof {
                    assert(s@.skip(j as int).len() < 2);
                }
                return None;
            }
            let piece = s.substring_char(j + 1, j + 2);
            proof {
                assert(s@.skip(j as int).skip(2) =~= s@.skip(j + 2 as int));
                assert(piece@ =~= seq![s@.skip(j as int)[1]]);
                match spec_parse_string_body(s@.skip(j + 2 as int)) {
                    Some(p) => {
                        assert(out@ + (piece@ + p.0) =~= (out@ + piece@) + p.0);
                    },
                    None => {},
                }
            }
            out.append(piece);
            j += 2;
        } else {
            let piece = s.substring_char(j, j + 1);
            proof {
                assert(s@.skip(j as int)[0] == c);
                assert(s@.skip(j as int).drop_first() =~= s@.skip(j + 1 as int));
                assert(piece@ =~= seq![s@.skip(j as int)[0]]);
                match spec_parse_string_body(s@.skip(j + 1 as int)) {
                    Some(p) => {
                        assert(out@ + (piece@ + p.0) =~= (out@ + piece@) + p.0);
                    },
                    None => {},
                }
            }
            out.append(piece);
            j += 1;
        }
    }
    proof {
        assert(s@.skip(j as int).len() == 0);
    }
    None
}

/// Reads a flag at position `i`.
fn parse_bool_at(s: &str, i: usize) -> (r: Option<(bool, usize)>)
    requires
        i <= s@.len(),
    ensures
        match r {
            Some(p) => spec_parse_bool(s@.skip(i as int)) == Some((p.0, s@.skip(p.1 as int)))
                && i <= p.1 <= s@.len(),
            None => spec_parse_bool(s@.skip(i as int)) is None,
        },
{
    match expect_lit(s, i, "true") {
        Option::Some(j) => Some((true, j)),
        Option::None => match expect_lit(s, i, "false") {
            Option::Some(j) => Some((false, j)),
            Option::None => None,
        },
    }
}

/// Reads an optional path at position `i`: `null` or a quoted value.
fn parse_opt_at(s: &str, i: usize) -> (r: Option<(Option<String>, usize)>)
    requires
        i <= s@.len(),
    ensures
        match r {
            Some(p) => spec_parse_opt(s@.skip(i as int)) == Some(
                (crate::game_state::opt_str_view(p.0), s@.skip(p.1 as int)),
            ) && i <= p.1 <= s@.len(),
            None => spec_parse_opt(s@.skip(i as int)) is None,
        },
{
    let n = s.unicode_len();
    match expect_lit(s, i, "null") {
        Option::Some(j) => Some((None, j)),
        Option::None => {
            if i < n && s.get_char(i) == '"' {
                proof {
                    assert(s@.skip(i as int)[0] == s@[i as int]);
                    assert(s@.skip(i as int).drop_first() =~= s@.skip(i + 1 as int));
                }
                match parse_string_at(s, i + 1) {
                    Option::Some((v, j)) => Some((Some(v), j)),
                    Option::None => None,
                }
            } else {
                proof {
                    if i < n {
                        assert(s@.skip(i as int)[0] == s@[i as int]);
                    } else {
                        assert(s@.skip(i as int).len() == 0);
                    }
                }
                None
            }
        },
    }
}

/// Parses a whole record. Yields the record exactly when the text is
/// one that the mathematical parser accepts, and nothing otherwise.
#[verifier::rlimit(100)]
#[verifier::spinoff_prover]
pub fn decode_config(s: &str) -> (r: Option<GameConfig>)
    ensures
        match r {
            Some(c) => spec_decode(s@) == Some(c@),
            None => spec_decode(s@) is None,
        },
{
    let n = s.unicode_len();
    proof {
        assert(s@.skip(0) =~= s@);
    }
    let j1 = match expect_lit(s, 0, "{\"config_dir\":") {
        Option::Some(j) => j,
        Option::None => {
            return None;
        },
    };
    let (config_dir, j2) = match parse_string_at_quoted(s, j1) {
        Option::Some(p) => p,
        Option::None => {
            return None;
        },
    };
    let j3 = match expect_lit(s, j2, ",\"is_wine_installed\":") {
        Option::Some(j) => j,
        Option::None => {
            return None;
        },
    };
    let (wine, j4) = match parse_bool_at(s, j3) {
        Option::Some(p) => p,
        Option::None => {
            return None;
        },
    };
    let j5 = match expect_lit(s, j4, ",\"is_dxvk_installed\":") {
        Option::Some(j) => j,
        Option::None => {
            return None;
        },
    };
    let (dxvk, j6) = match parse_bool_at(s, j5) {
        Option::Some(p) => p,
        Option::None => {
            return None;
        },
    };
    let j7 = match expect_lit(s, j6, ",\"is_font_installed\":") {
        Option::Some(j) => j,
        Option::None => {
            return None;
        },
    };
    let (font, j8) = match parse_bool_at(s, j7) {
        Option::Some(p) => p,
        Option::None => {
            return None;
        },
    };
    let j9 = match expect_lit(s, j8, ",\"is_dependecies_installed\":") {
        Option::Some(j) => j,
        Option::None => {
            return None;
        },
    };
    let (deps, j10) = match parse_bool_at(s, j9) {
        Option::Some(p) => p,
        Option::None => {
            return None;
        },
    };
    let j11 = match expect_lit(s, j10, ",\"game_dir\":") {
        Option::Some(j) => j,
        Option::None => {
            return None;
        },
    };
    let (game_dir, j12) = match parse_opt_at(s, j11) {
        Option::Some(p) => p,
        Option::None => {
            return None;
        },
    };
    let j13 = match expect_lit(s, j12, ",\"is_game_installed\":") {
        Option::Some(j) => j,
        Option::None => {
            return None;
        },
    };
    let (game, j14) = match parse_bool_at(s, j13) {
        Option::Some(p) => p,
        Option::None => {
            return None;
        },
    };
    let j15 = match expect_lit(s, j14, ",\"is_game_patched\":") {
        Option::Some(j) => j,
        Option::None => {
            return None;
        },
    };
    let (patched, j16) = match parse_bool_at(s, j15) {
        Option::Some(p) => p,
        Option::None => {
            return None;
        },
    };
    let j17 = match expect_lit(s, j16, "}") {
        Option::Some(j) => j,
        Option::None => {
            return None;
        },
    };
    if j17 != n {
        proof {
            assert(s@.skip(j17 as int).len() > 0);
        }
        return None;
    }
    proof {
        assert(s@.skip(j17 as int).len() == 0);
    }
    Some(
        GameConfig {
            config_dir,
            is_wine_installed: wine,
            is_dxvk_installed: dxvk,
            is_font_installed: font,
            is_dependecies_installed: deps,
            game_dir,
            is_game_installed: game,
            is_game_patched: patched,
        },
    )
}

/// Reads a quoted value at position `i`, opening quote included.
fn parse_string_at_quoted(s: &str, i: usize) -> (r: Option<(String, usize)>)
    requires
        i <= s@.len(),
    ensures
        match r {
            Some(p) => spec_parse_quoted(s@.skip(i as int)) == Some((p.0@, s@.skip(p.1 as int)))
                && i <= p.1 <= s@.len(),
            None => spec_parse_quoted(s@.skip(i as int)) is None,
        },
{
    let n = s.unicode_len();
    if i < n && s.get_char(i) == '"' {
        proof {
            assert(s@.skip(i as int)[0] == s@[i as int]);
            assert(s@.skip(i as int).drop_first() =~= s@.skip(i + 1 as int));
        }
        parse_string_at(s, i + 1)
    } else {
        proof {
            if i < n {
                assert(s@.skip(i as int)[0] == s@[i as int]);
            } else {
                assert(s@.skip(i as int).len() == 0);
            }
        }
        None
    }
}

} // verus!
