//! Small verified string helpers: HTML escaping, decimal rendering of
//! counters, and repeated markers for headings and list indentation.

use vstd::prelude::*;
use vstd::string::StrSliceExecFns;
use vstd::string::StringExecFns;

verus! {

/// Relies on `String::push`: appends exactly the one character at the end.
#[verifier::external_body]
pub fn push_char(s: &mut String, c: char)
    ensures
        final(s)@ == old(s)@.push(c),
{
    s.push(c)
}

/// What one character becomes under HTML escaping: the four characters that
/// are unsafe in HTML attribute values and element bodies are replaced by
/// their entities; every other character stands as it is.
pub open spec fn escape_char(c: char) -> Seq<char> {
    if c == '&' {
        "&amp;"@
    } else if c == '<' {
        "&lt;"@
    } else if c == '>' {
        "&gt;"@
    } else if c == '"' {
        "&quot;"@
    } else {
        seq![c]
    }
}

/// HTML escaping of a character sequence, character by character.
pub open spec fn escape_seq(s: Seq<char>) -> Seq<char>
    decreases s.len(),
{
    if s.len() == 0 {
        Seq::<char>::empty()
    } else {
        escape_char(s[0]) + escape_seq(s.drop_first())
    }
}

pub proof fn lemma_escape_push(s: Seq<char>, c: char)
    ensures
        escape_seq(s.push(c)) == escape_seq(s) + escape_char(c),
    decreases s.len(),
{
    if s.len() == 0 {
        assert(s.push(c).drop_first() =~= Seq::<char>::empty());
        assert(s.push(c)[0] == c);
        assert(escape_seq(s.push(c)) == escape_char(c) + escape_seq(Seq::<char>::empty()));
        assert(escape_seq(Seq::<char>::empty()) == Seq::<char>::empty());
        assert(escape_seq(s.push(c)) =~= escape_seq(s) + escape_char(c));
    } else {
        assert(s.push(c).drop_first() =~= s.drop_first().push(c));
        lemma_escape_push(s.drop_first(), c);
        assert(escape_seq(s.push(c)) =~= escape_seq(s) + escape_char(c));
    }
}

/// Escapes `&`, `<`, `>` and `"` for interpolation into HTML attributes or
/// element bodies.
pub fn escape_html(s: &str) -> (r: String)
    ensures
        r@ == escape_seq(s@),
{
    let n = s.unicode_len();
    let mut out = String::new();
    let mut i: usize = 0;
    while i < n
        invariant
            n == s@.len(),
            i <= n,
            out@ == escape_seq(s@.subrange(0, i as int)),
        decreases n - i,
    {
        let c = s.get_char(i);
        proof {
            lemma_escape_push(s@.subrange(0, i as int), c);
            assert(s@.subrange(0, i as int).push(c) =~= s@.subrange(0, i as int + 1));
        }
        if c == '&' {
            out.append("&amp;");
        } else if c == '<' {
            out.append("&lt;");
        } else if c == '>' {
            out.append("&gt;");
        } else if c == '"' {
            out.append("&quot;");
        } else {
            push_char(&mut out, c);
        }
        i = i + 1;
    }
    proof {
        assert(s@.subrange(0, n as int) =~= s@);
    }
    out
}

/// The escaped form of a sequence never contains a raw `<`, `>` or `"`; the
/// only `&` it contains opens one of the four entities it emits. Stated here
/// for the three characters that must never survive, so an escaped name is
/// safe inside a double-quoted HTML attribute.
pub proof fn lemma_escape_no_specials(s: Seq<char>)
    ensures
        forall|i: int|
            0 <= i < escape_seq(s).len() ==> escape_seq(s)[i] != '<' && escape_seq(s)[i] != '>'
                && escape_seq(s)[i] != '"',
    decreases s.len(),
{
    reveal_strlit("&amp;");
    reveal_strlit("&lt;");
    reveal_strlit("&gt;");
    reveal_strlit("&quot;");
    if s.len() == 0 {
    } else {
        lemma_escape_no_specials(s.drop_first());
        assert forall|i: int| 0 <= i < escape_seq(s).len() implies escape_seq(s)[i] != '<'
            && escape_seq(s)[i] != '>' && escape_seq(s)[i] != '"' by {
            if i < escape_char(s[0]).len() {
                assert(escape_seq(s)[i] == escape_char(s[0])[i]);
            } else {
                assert(escape_seq(s)[i] == escape_seq(s.drop_first())[i - escape_char(
                    s[0],
                ).len()]);
            }
        }
    }
}

/// The decimal digit character for a value below ten.
pub open spec fn dec_digit(d: u64) -> char {
    ((d + 48) as u8) as char
}

/// The usual decimal rendering of an unsigned number, most significant digit
/// first, with no leading zeros (zero itself renders as one digit).
pub open spec fn dec_seq(n: u64) -> Seq<char>
    decreases n,
{
    if n < 10 {
        seq![dec_digit(n)]
    } else {
        dec_seq(n / 10).push(dec_digit(n % 10))
    }
}

/// Renders a counter or marker number in decimal.
pub fn dec_string(n: u64) -> (r: String)
    ensures
        r@ == dec_seq(n),
    decreases n,
{
    if n < 10 {
        let mut out = String::new();
        push_char(&mut out, ((n + 48) as u8) as char);
        assert(out@ =~= dec_seq(n));
        out
    } else {
        let mut out = dec_string(n / 10);
        push_char(&mut out, ((n % 10 + 48) as u8) as char);
        out
    }
}

/// `n` copies of one character, as for heading markers and list indentation.
pub open spec fn repeat_char(c: char, n: nat) -> Seq<char>
    decreases n,
{
    if n == 0 {
        Seq::<char>::empty()
    } else {
        repeat_char(c, (n - 1) as nat).push(c)
    }
}

/// `n` copies of one piece, as for list indentation.
pub open spec fn repeat_seq(s: Seq<char>, n: nat) -> Seq<char>
    decreases n,
{
    if n == 0 {
        Seq::<char>::empty()
    } else {
        repeat_seq(s, (n - 1) as nat) + s
    }
}

/// Appends `n` copies of `piece` to `out`.
pub fn append_repeat(out: &mut String, piece: &str, n: u64)
    ensures
        final(out)@ == old(out)@ + repeat_seq(piece@, n as nat),
{
    let mut i: u64 = 0;
    while i < n
        invariant
            i <= n,
            out@ == old(out)@ + repeat_seq(piece@, i as nat),
        decreases n - i,
    {
        out.append(piece);
        i = i + 1;
    }
}

/// Builds `n` copies of one character.
pub fn repeat_string(c: char, n: u64) -> (r: String)
    ensures
        r@ == repeat_char(c, n as nat),
{
    let mut out = String::new();
    let mut i: u64 = 0;
    while i < n
        invariant
            i <= n,
            out@ == repeat_char(c, i as nat),
        decreases n - i,
    {
        push_char(&mut out, c);
        i = i + 1;
    }
    out
}

} // verus!
