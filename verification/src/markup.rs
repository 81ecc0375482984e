//! Text where the toolkit takes markup.

use vstd::prelude::*;

use crate::text;

verus! {

/// A digit of a number in base sixteen.
pub open spec fn hex_digit(d: nat) -> char {
    if d < 10 {
        (48 + d) as char
    } else {
        (87 + d) as char
    }
}

/// A number in base sixteen.
pub open spec fn hexadecimal(n: nat) -> Seq<char>
    decreases n,
{
    if n < 16 {
        seq![hex_digit(n)]
    } else {
        hexadecimal(n / 16).push(hex_digit(n % 16))
    }
}

/// Whether a character is one that markup may only hold by number.
pub open spec fn goes_by_number(c: char) -> bool {
    ||| 0x1 <= c as u32 <= 0x8
    ||| 0xb <= c as u32 <= 0xc
    ||| 0xe <= c as u32 <= 0x1f
    ||| 0x7f <= c as u32 <= 0x84
    ||| 0x86 <= c as u32 <= 0x9f
}

/// A character as markup spells it.
pub open spec fn spelled(c: char) -> Seq<char> {
    if c == '&' {
        "&amp;"@
    } else if c == '<' {
        "&lt;"@
    } else if c == '>' {
        "&gt;"@
    } else if c == '\'' {
        "&apos;"@
    } else if c == '"' {
        "&quot;"@
    } else if goes_by_number(c) {
        "&#x"@ + hexadecimal(c as nat) + ";"@
    } else {
        seq![c]
    }
}

/// A text as markup spells it, up to its end or to a NUL: the toolkit's strings
/// end there.
pub open spec fn escaped(words: Seq<char>) -> Seq<char>
    decreases words.len(),
{
    if words.len() == 0 || words[0] as u32 == 0 {
        Seq::empty()
    } else {
        spelled(words[0]) + escaped(words.skip(1))
    }
}

fn push_hexadecimal(out: &mut String, n: u32)
    ensures
        final(out)@ == old(out)@ + hexadecimal(n as nat),
    decreases n,
{
    if n >= 16 {
        push_hexadecimal(out, n / 16);
    }
    let d: u8 = (n % 16) as u8;
    let c: u8 = if d < 10 {
        48u8 + d
    } else {
        87u8 + d
    };
    out.push(c as char);
    proof {
        assert(final(out)@ =~= old(out)@ + hexadecimal(n as nat));
    }
}

fn spell(out: &mut String, c: char)
    ensures
        final(out)@ == old(out)@ + spelled(c),
{
    let n: u32 = c as u32;
    if c == '&' {
        out.append("&amp;");
    } else if c == '<' {
        out.append("&lt;");
    } else if c == '>' {
        out.append("&gt;");
    } else if c == '\'' {
        out.append("&apos;");
    } else if c == '"' {
        out.append("&quot;");
    } else if (0x1 <= n && n <= 0x8) || (0xb <= n && n <= 0xc) || (0xe <= n && n <= 0x1f) || (0x7f
        <= n && n <= 0x84) || (0x86 <= n && n <= 0x9f) {
        out.append("&#x");
        push_hexadecimal(out, n);
        out.append(";");
        proof {
            assert(final(out)@ =~= old(out)@ + spelled(c));
        }
    } else {
        out.push(c);
        proof {
            assert(final(out)@ =~= old(out)@ + spelled(c));
        }
    }
}

/// Spell a text so that what parses markup reads it as it is, the way GLib's
/// `g_markup_escape_text` does.
pub fn escape(words: &str) -> (r: String)
    ensures
        r@ == escaped(words@),
{
    let chars = text::chars_of(words);
    let mut out = String::new();
    let mut i: usize = 0;
    proof {
        assert(chars@.skip(0) =~= chars@);
        assert(out@ + escaped(chars@) =~= escaped(words@));
    }
    while i < chars.len() && chars[i] as u32 != 0
        invariant
            i <= chars@.len(),
            chars@ == words@,
            out@ + escaped(chars@.skip(i as int)) == escaped(words@),
        decreases chars@.len() - i,
    {
        let ghost before = out@;
        let ghost rest = chars@.skip(i as int);
        spell(&mut out, chars[i]);
        i += 1;
        proof {
            assert(rest.skip(1) =~= chars@.skip(i as int));
            assert(out@ + escaped(rest.skip(1)) =~= before + escaped(rest));
        }
    }
    proof {
        assert(out@ + Seq::<char>::empty() =~= out@);
    }
    out
}

/// Whether a character means something to what parses markup, beyond itself and
/// the start of a spelling.
pub open spec fn is_markup(c: char) -> bool {
    c == '<' || c == '>' || c == '\'' || c == '"'
}

proof fn no_digit_is_markup(n: nat)
    ensures
        forall|i: int| 0 <= i < hexadecimal(n).len() ==> !is_markup(#[trigger] hexadecimal(n)[i]),
    decreases n,
{
    assert(!is_markup(hex_digit(n % 16)));
    if n >= 16 {
        no_digit_is_markup(n / 16);
        let front = hexadecimal(n / 16);
        assert forall|i: int| 0 <= i < hexadecimal(n).len() implies !is_markup(
            #[trigger] hexadecimal(n)[i],
        ) by {
            if i < front.len() {
                assert(hexadecimal(n)[i] == front[i]);
            }
        }
    }
}

proof fn no_spelling_holds_markup(c: char)
    ensures
        forall|i: int| 0 <= i < spelled(c).len() ==> !is_markup(#[trigger] spelled(c)[i]),
{
    reveal_strlit("&amp;");
    reveal_strlit("&lt;");
    reveal_strlit("&gt;");
    reveal_strlit("&apos;");
    reveal_strlit("&quot;");
    reveal_strlit("&#x");
    reveal_strlit(";");
    no_digit_is_markup(c as nat);
    let number = hexadecimal(c as nat);
    assert forall|i: int| 0 <= i < spelled(c).len() implies !is_markup(#[trigger] spelled(c)[i]) by {
        if spelled(c) == "&#x"@ + number + ";"@ && 3 <= i < 3 + number.len() {
            assert(spelled(c)[i] == number[i - 3]);
        }
    }
}

/// No markup is left in an escaped text.
pub proof fn an_escaped_text_holds_no_markup(words: Seq<char>)
    ensures
        forall|i: int| 0 <= i < escaped(words).len() ==> !is_markup(#[trigger] escaped(words)[i]),
    decreases words.len(),
{
    if words.len() > 0 && words[0] as u32 != 0 {
        no_spelling_holds_markup(words[0]);
        an_escaped_text_holds_no_markup(words.skip(1));
        let first = spelled(words[0]);
        let rest = escaped(words.skip(1));
        assert forall|i: int| 0 <= i < escaped(words).len() implies !is_markup(
            #[trigger] escaped(words)[i],
        ) by {
            if i < first.len() {
                assert(escaped(words)[i] == first[i]);
            } else {
                assert(escaped(words)[i] == rest[i - first.len()]);
            }
        }
    }
}

/// A text with nothing to escape is left as it is.
pub proof fn a_plain_text_is_left_alone(words: Seq<char>)
    requires
        forall|i: int|
            0 <= i < words.len() ==> !is_markup(#[trigger] words[i]) && words[i] != '&'
                && !goes_by_number(words[i]) && words[i] as u32 != 0,
    ensures
        escaped(words) == words,
    decreases words.len(),
{
    if words.len() > 0 {
        a_plain_text_is_left_alone(words.skip(1));
        assert(seq![words[0]] + words.skip(1) =~= words);
    } else {
        assert(escaped(words) =~= words);
    }
}

/// Each of the five characters that markup takes for its own is spelled by its own name.
pub proof fn each_character_is_spelled_by_its_own_name(c: char)
    ensures
        spelled('&') == "&amp;"@,
        spelled('<') == "&lt;"@,
        spelled('>') == "&gt;"@,
        spelled('\'') == "&apos;"@,
        spelled('"') == "&quot;"@,
        !is_markup(c) && c != '&' && !goes_by_number(c) ==> spelled(c) == seq![c],
{
}

/// A text is spelled one character after the other.
pub proof fn a_text_is_spelled_one_character_at_a_time(a: Seq<char>, b: Seq<char>)
    requires
        forall|i: int| 0 <= i < a.len() ==> (#[trigger] a[i]) as u32 != 0,
    ensures
        escaped(a + b) == escaped(a) + escaped(b),
    decreases a.len(),
{
    if a.len() == 0 {
        assert(a + b =~= b);
        assert(escaped(a) + escaped(b) =~= escaped(b));
    } else {
        a_text_is_spelled_one_character_at_a_time(a.skip(1), b);
        assert((a + b).skip(1) =~= a.skip(1) + b);
        assert(spelled(a[0]) + (escaped(a.skip(1)) + escaped(b)) =~= (spelled(a[0]) + escaped(
            a.skip(1),
        )) + escaped(b));
    }
}

} // verus!
