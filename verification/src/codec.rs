//! Reversible escaping of the three delimiter characters.
//!
//! Key/value text is packed into flat `key=value&key=value` buffers, so the
//! characters `&`, `:` and `=` may not appear literally inside a packed
//! string. Encoding rewrites each of them to a named escape sequence that is
//! introduced by `&` and closed by `;`; decoding reverses the rewriting
//! exactly, so any string survives a round trip unchanged.

use vstd::prelude::*;

verus! {

/// What one character of the plain text becomes in the encoded text.
pub open spec fn esc_char(c: char) -> Seq<char> {
    if c == '&' {
        seq!['&', 'a', 'm', 'p', ';']
    } else if c == ':' {
        seq!['&', 'c', 'o', 'l', ';']
    } else if c == '=' {
        seq!['&', 'e', 'q', ';']
    } else {
        seq![c]
    }
}

/// The encoded form of a whole string: each character escaped in place.
pub open spec fn encode_seq(s: Seq<char>) -> Seq<char>
    decreases s.len(),
{
    if s.len() == 0 {
        Seq::empty()
    } else {
        esc_char(s[0]) + encode_seq(s.skip(1))
    }
}

/// The `&amp;` escape sequence begins at position `i`.
pub open spec fn amp_at(s: Seq<char>, i: int) -> bool {
    i + 5 <= s.len() && s[i] == '&' && s[i + 1] == 'a' && s[i + 2] == 'm' && s[i + 3] == 'p'
        && s[i + 4] == ';'
}

/// The `&col;` escape sequence begins at position `i`.
pub open spec fn col_at(s: Seq<char>, i: int) -> bool {
    i + 5 <= s.len() && s[i] == '&' && s[i + 1] == 'c' && s[i + 2] == 'o' && s[i + 3] == 'l'
        && s[i + 4] == ';'
}

/// The `&eq;` escape sequence begins at position `i`.
pub open spec fn eq_at(s: Seq<char>, i: int) -> bool {
    i + 4 <= s.len() && s[i] == '&' && s[i + 1] == 'e' && s[i + 2] == 'q' && s[i + 3] == ';'
}

/// The decoded form: a left-to-right scan that turns each escape sequence
/// back into its character and copies everything else through.
pub open spec fn decode_seq(s: Seq<char>) -> Seq<char>
    decreases s.len(),
{
    if s.len() == 0 {
        Seq::empty()
    } else if amp_at(s, 0) {
        seq!['&'] + decode_seq(s.skip(5))
    } else if col_at(s, 0) {
        seq![':'] + decode_seq(s.skip(5))
    } else if eq_at(s, 0) {
        seq!['='] + decode_seq(s.skip(4))
    } else {
        seq![s[0]] + decode_seq(s.skip(1))
    }
}

/// No unescaped delimiter: `:` and `=` are absent, and every `&` introduces
/// one of the three escape sequences.
pub open spec fn well_escaped(s: Seq<char>) -> bool {
    forall|i: int|
        0 <= i < s.len() ==> #[trigger] s[i] != ':' && s[i] != '=' && (s[i] == '&' ==> amp_at(
            s,
            i,
        ) || col_at(s, i) || eq_at(s, i))
}

/// Encoding distributes over concatenation.
pub proof fn lemma_encode_append(a: Seq<char>, b: Seq<char>)
    ensures
        encode_seq(a + b) == encode_seq(a) + encode_seq(b),
    decreases a.len(),
{
    if a.len() == 0 {
        assert(a + b =~= b);
        assert(encode_seq(a) + encode_seq(b) =~= encode_seq(b));
    } else {
        lemma_encode_append(a.skip(1), b);
        assert((a + b).skip(1) =~= a.skip(1) + b);
        assert(esc_char(a[0]) + (encode_seq(a.skip(1)) + encode_seq(b)) =~= (esc_char(a[0])
            + encode_seq(a.skip(1))) + encode_seq(b));
    }
}

/// Encoding one more character appends that character's escape sequence.
proof fn lemma_encode_snoc(s: Seq<char>, i: int)
    requires
        0 <= i < s.len(),
    ensures
        encode_seq(s.take(i + 1)) == encode_seq(s.take(i)) + esc_char(s[i]),
{
    let unit = seq![s[i]];
    assert(s.take(i + 1) =~= s.take(i) + unit);
    lemma_encode_append(s.take(i), unit);
    assert(unit.skip(1) =~= Seq::<char>::empty());
    assert(encode_seq(Seq::<char>::empty()) =~= Seq::<char>::empty());
    assert(encode_seq(unit) =~= esc_char(s[i]) + encode_seq(unit.skip(1)));
    assert(encode_seq(unit) =~= esc_char(s[i]));
}

/// Decoding inverts encoding: every string survives the round trip.
pub proof fn lemma_codec_round_trip(s: Seq<char>)
    ensures
        decode_seq(encode_seq(s)) == s,
    decreases s.len(),
{
    if s.len() == 0 {
        assert(decode_seq(encode_seq(s)) =~= s);
    } else {
        let c = s[0];
        let rest = s.skip(1);
        lemma_codec_round_trip(rest);
        let e = encode_seq(s);
        assert(e == esc_char(c) + encode_seq(rest));
        if c == '&' {
            assert(amp_at(e, 0));
            assert(e.skip(5) =~= encode_seq(rest));
            assert(seq!['&'] + rest =~= s);
        } else if c == ':' {
            assert(col_at(e, 0));
            assert(!amp_at(e, 0));
            assert(e.skip(5) =~= encode_seq(rest));
            assert(seq![':'] + rest =~= s);
        } else if c == '=' {
            assert(eq_at(e, 0));
            assert(!amp_at(e, 0) && !col_at(e, 0));
            assert(e.skip(4) =~= encode_seq(rest));
            assert(seq!['='] + rest =~= s);
        } else {
            assert(e[0] == c);
            assert(!amp_at(e, 0) && !col_at(e, 0) && !eq_at(e, 0));
            assert(e.skip(1) =~= encode_seq(rest));
            assert(seq![c] + rest =~= s);
        }
    }
}

/// Encoded text never holds an unescaped delimiter.
pub proof fn lemma_encode_well_escaped(s: Seq<char>)
    ensures
        well_escaped(encode_seq(s)),
    decreases s.len(),
{
    if s.len() == 0 {
    } else {
        let c = s[0];
        let rest = s.skip(1);
        lemma_encode_well_escaped(rest);
        let chunk = esc_char(c);
        let tail = encode_seq(rest);
        let e = encode_seq(s);
        assert(e == chunk + tail);
        let l = chunk.len() as int;
        assert forall|i: int|
            0 <= i < e.len() implies #[trigger] e[i] != ':' && e[i] != '=' && (e[i] == '&'
            ==> amp_at(e, i) || col_at(e, i) || eq_at(e, i)) by {
            if i < l {
                if c == '&' || c == ':' || c == '=' {
                    if i == 0 {
                        assert(e[0] == '&');
                        if c == '&' {
                            assert(amp_at(e, 0));
                        } else if c == ':' {
                            assert(col_at(e, 0));
                        } else {
                            assert(eq_at(e, 0));
                        }
                    } else {
                        assert(e[i] == chunk[i]);
                        assert(e[i] != ':' && e[i] != '=' && e[i] != '&');
                    }
                } else {
                    assert(e[i] == c);
                }
            } else {
                let j = i - l;
                assert(e[i] == tail[j]);
                assert(tail[j] != ':' && tail[j] != '=' && (tail[j] == '&' ==> amp_at(tail, j)
                    || col_at(tail, j) || eq_at(tail, j)));
                if tail[j] == '&' {
                    if amp_at(tail, j) {
                        assert(amp_at(e, i));
                    } else if col_at(tail, j) {
                        assert(col_at(e, i));
                    } else {
                        assert(eq_at(e, i));
                    }
                }
            }
        }
    }
}

/// Relies on `String::push` from std: appends exactly the one character.
#[verifier::external_body]
fn push_char(s: &mut String, c: char)
    ensures
        final(s)@ == old(s)@.push(c),
{
    s.push(c);
}

/// Escapes the three delimiter characters of `url`, so that the result can
/// stand inside a flat `key=value&key=value` buffer without ambiguity.
pub fn url_encode(url: &str) -> (r: String)
    ensures
        r@ == encode_seq(url@),
{
    let n: usize = url.unicode_len();
    let mut out = String::new();
    let mut i: usize = 0;
    proof {
        assert(url@.take(0) =~= Seq::<char>::empty());
    }
    while i < n
        invariant
            i <= n,
            n == url@.len(),
            out@ == encode_seq(url@.take(i as int)),
        decreases n - i,
    {
        let c = url.get_char(i);
        if c == '&' {
            out.append("&amp;");
        } else if c == ':' {
            out.append("&col;");
        } else if c == '=' {
            out.append("&eq;");
        } else {
            push_char(&mut out, c);
        }
        proof {
            reveal_strlit("&amp;");
            reveal_strlit("&col;");
            reveal_strlit("&eq;");
            assert("&amp;"@ =~= seq!['&', 'a', 'm', 'p', ';']);
            assert("&col;"@ =~= seq!['&', 'c', 'o', 'l', ';']);
            assert("&eq;"@ =~= seq!['&', 'e', 'q', ';']);
            lemma_encode_snoc(url@, i as int);
            assert(out@ =~= encode_seq(url@.take(i as int + 1)));
        }
        i = i + 1;
    }
    proof {
        assert(url@.take(n as int) =~= url@);
    }
    out
}

/// Undoes `url_encode`: each escape sequence becomes its character again,
/// scanning left to right; text that is no escape sequence copies through.
pub fn url_decode(encoded: &str) -> (r: String)
    ensures
        r@ == decode_seq(encoded@),
{
    let n: usize = encoded.unicode_len();
    let mut out = String::new();
    let mut i: usize = 0;
    proof {
        assert(encoded@.skip(0) =~= encoded@);
        assert(Seq::<char>::empty() + decode_seq(encoded@) =~= decode_seq(encoded@));
    }
    while i < n
        invariant
            i <= n,
            n == encoded@.len(),
            decode_seq(encoded@) == out@ + decode_seq(encoded@.skip(i as int)),
        decreases n - i,
    {
        let ghost tail = encoded@.skip(i as int);
        let ghost prev = out@;
        let is_amp = n - i >= 5 && encoded.get_char(i) == '&' && encoded.get_char(i + 1) == 'a'
            && encoded.get_char(i + 2) == 'm' && encoded.get_char(i + 3) == 'p'
            && encoded.get_char(i + 4) == ';';
        let is_col = n - i >= 5 && encoded.get_char(i) == '&' && encoded.get_char(i + 1) == 'c'
            && encoded.get_char(i + 2) == 'o' && encoded.get_char(i + 3) == 'l'
            && encoded.get_char(i + 4) == ';';
        let is_eq = n - i >= 4 && encoded.get_char(i) == '&' && encoded.get_char(i + 1) == 'e'
            && encoded.get_char(i + 2) == 'q' && encoded.get_char(i + 3) == ';';
        proof {
            assert(is_amp == amp_at(tail, 0));
            assert(is_col == col_at(tail, 0));
            assert(is_eq == eq_at(tail, 0));
        }
        if is_amp {
            push_char(&mut out, '&');
            proof {
                assert(tail.skip(5) =~= encoded@.skip(i as int + 5));
                assert(out@ + decode_seq(tail.skip(5)) =~= prev + decode_seq(tail));
            }
            i = i + 5;
        } else if is_col {
            push_char(&mut out, ':');
            proof {
                assert(tail.skip(5) =~= encoded@.skip(i as int + 5));
                assert(out@ + decode_seq(tail.skip(5)) =~= prev + decode_seq(tail));
            }
            i = i + 5;
        } else if is_eq {
            push_char(&mut out, '=');
            proof {
                assert(tail.skip(4) =~= encoded@.skip(i as int + 4));
                assert(out@ + decode_seq(tail.skip(4)) =~= prev + decode_seq(tail));
            }
            i = i + 4;
        } else {
            let c = encoded.get_char(i);
            push_char(&mut out, c);
            proof {
                assert(tail.skip(1) =~= encoded@.skip(i as int + 1));
                assert(out@ + decode_seq(tail.skip(1)) =~= prev + decode_seq(tail));
            }
            i = i + 1;
        }
    }
    proof {
        assert(encoded@.skip(n as int) =~= Seq::<char>::empty());
        assert(out@ + Seq::<char>::empty() =~= out@);
    }
    out
}

} // verus!
