//! Small formatting helpers the report renderers are built from: decimal
//! numbers, per-line indentation, and character-level string predicates.

use vstd::prelude::*;

verus! {

/// The digit character for `d`.
pub open spec fn spec_digit(d: nat) -> char {
    if d == 0 {
        '0'
    } else if d == 1 {
        '1'
    } else if d == 2 {
        '2'
    } else if d == 3 {
        '3'
    } else if d == 4 {
        '4'
    } else if d == 5 {
        '5'
    } else if d == 6 {
        '6'
    } else if d == 7 {
        '7'
    } else if d == 8 {
        '8'
    } else {
        '9'
    }
}

/// The decimal rendering of `n`, most significant digit first.
pub open spec fn spec_dec(n: nat) -> Seq<char>
    decreases n,
{
    if n < 10 {
        seq![spec_digit(n)]
    } else {
        spec_dec(n / 10) + seq![spec_digit(n % 10)]
    }
}

/// One digit as text.
fn digit_str(d: u64) -> (s: &'static str)
    requires
        d < 10,
    ensures
        s@ == seq![spec_digit(d as nat)],
{
    proof {
        reveal_strlit("0");
        reveal_strlit("1");
        reveal_strlit("2");
        reveal_strlit("3");
        reveal_strlit("4");
        reveal_strlit("5");
        reveal_strlit("6");
        reveal_strlit("7");
        reveal_strlit("8");
        reveal_strlit("9");
    }
    let s: &'static str = if d == 0 {
        "0"
    } else if d == 1 {
        "1"
    } else if d == 2 {
        "2"
    } else if d == 3 {
        "3"
    } else if d == 4 {
        "4"
    } else if d == 5 {
        "5"
    } else if d == 6 {
        "6"
    } else if d == 7 {
        "7"
    } else if d == 8 {
        "8"
    } else {
        "9"
    };
    proof {
        assert(s@ =~= seq![spec_digit(d as nat)]);
    }
    s
}

/// Renders `n` in decimal.
pub fn dec_u64(n: u64) -> (s: String)
    ensures
        s@ == spec_dec(n as nat),
    decreases n,
{
    if n < 10 {
        String::from_str(digit_str(n))
    } else {
        let mut s = dec_u64(n / 10);
        s.append(digit_str(n % 10));
        proof {
            assert(s@ =~= spec_dec(n as nat));
        }
        s
    }
}

/// Renders `n` in decimal.
pub fn dec_usize(n: usize) -> (s: String)
    ensures
        s@ == spec_dec(n as nat),
{
    dec_u64(n as u64)
}

/// Relies on `String::push`: appends exactly one character.
#[verifier::external_body]
pub(crate) fn push_char(s: &mut String, c: char)
    ensures
        final(s)@ == old(s)@ + seq![c],
{
    s.push(c)
}

/// `s` with `pre` inserted after every newline that does not end the text.
pub open spec fn spec_ind_tail(s: Seq<char>, pre: Seq<char>) -> Seq<char>
    decreases s.len(),
{
    if s.len() == 0 {
        Seq::empty()
    } else if s[0] == '\n' && s.len() > 1 {
        seq!['\n'] + pre + spec_ind_tail(s.drop_first(), pre)
    } else {
        seq![s[0]] + spec_ind_tail(s.drop_first(), pre)
    }
}

/// The text `s` indented by `pre`: every line, the first included, starts
/// with `pre`; a trailing newline is kept bare.
pub open spec fn spec_indented(s: Seq<char>, pre: Seq<char>) -> Seq<char> {
    pre + spec_ind_tail(s, pre)
}

/// Appends `s`, inserting `pre` after every interior newline, starting at
/// character `from`.
pub(crate) fn append_ind_tail(s: &str, from: usize, pre: &str, out: &mut String)
    requires
        from <= s@.len(),
    ensures
        final(out)@ == old(out)@ + spec_ind_tail(s@.subrange(from as int, s@.len() as int), pre@),
    decreases s@.len() - from,
{
    let len = s.unicode_len();
    if from < len {
        let ghost tail = s@.subrange(from as int, s@.len() as int);
        proof {
            assert(tail.drop_first() =~= s@.subrange(from as int + 1, s@.len() as int));
        }
        let c = s.get_char(from);
        if c == '\n' && from + 1 < len {
            push_char(out, '\n');
            out.append(pre);
        } else {
            push_char(out, c);
        }
        append_ind_tail(s, from + 1, pre, out);
        proof {
            assert(out@ =~= old(out)@ + spec_ind_tail(tail, pre@));
        }
    } else {
        proof {
            assert(spec_ind_tail(s@.subrange(from as int, s@.len() as int), pre@) =~= Seq::empty());
            assert(out@ =~= old(out)@ + spec_ind_tail(
                s@.subrange(from as int, s@.len() as int),
                pre@,
            ));
        }
    }
}

/// Appends the text `s` indented by `pre`.
pub fn append_indented(out: &mut String, s: &str, pre: &str)
    ensures
        final(out)@ == old(out)@ + spec_indented(s@, pre@),
{
    out.append(pre);
    append_ind_tail(s, 0, pre, out);
    proof {
        assert(s@.subrange(0, s@.len() as int) =~= s@);
        assert(out@ =~= old(out)@ + spec_indented(s@, pre@));
    }
}

/// Whether the characters of `p` are a prefix of those of `s`.
pub fn str_starts_with(s: &str, p: &str) -> (r: bool)
    ensures
        r == p@.is_prefix_of(s@),
{
    let m = s.unicode_len();
    let n = p.unicode_len();
    if n > m {
        proof {
            assert(!p@.is_prefix_of(s@));
        }
        return false;
    }
    let mut i: usize = 0;
    while i < n
        invariant
            i <= n,
            n == p@.len(),
            m == s@.len(),
            n <= m,
            forall|j: int| 0 <= j < i ==> p@[j] == s@[j],
        decreases n - i,
    {
        if p.get_char(i) != s.get_char(i) {
            proof {
                assert(!p@.is_prefix_of(s@));
            }
            return false;
        }
        i = i + 1;
    }
    proof {
        assert(p@ =~= s@.subrange(0, p@.len() as int));
    }
    true
}

/// Whether the characters of `needle` occur anywhere in `s`.
pub fn str_contains(s: &str, needle: &str) -> (r: bool)
    ensures
        r == exists|i: int|
            0 <= i && i + needle@.len() <= s@.len() && #[trigger] s@.subrange(
                i,
                i + needle@.len(),
            ) == needle@,
{
    let m = s.unicode_len();
    let n = needle.unicode_len();
    if n > m {
        return false;
    }
    if n == 0 {
        proof {
            assert(s@.subrange(0int, 0int + needle@.len() as int) =~= needle@);
        }
        return true;
    }
    let mut i: usize = 0;
    while i <= m - n
        invariant
            m == s@.len(),
            n == needle@.len(),
            1 <= n <= m,
            i <= m - n + 1,
            forall|k: int| 0 <= k < i ==> #[trigger] s@.subrange(k, k + needle@.len() as int)
                != needle@,
        decreases m - i,
    {
        if str_eq_at(s, needle, i) {
            proof {
                assert(s@.subrange(i as int, i as int + needle@.len() as int) == needle@);
            }
            return true;
        }
        i = i + 1;
    }
    proof {
        assert forall|k: int|
            0 <= k && k + needle@.len() <= s@.len() implies #[trigger] s@.subrange(
            k,
            k + needle@.len(),
        ) != needle@ by {
            assert(k < i);
        }
    }
    false
}

/// Whether `needle` occurs in `s` at character position `i`.
fn str_eq_at(s: &str, needle: &str, i: usize) -> (r: bool)
    requires
        i + needle@.len() <= s@.len(),
    ensures
        r == (s@.subrange(i as int, i as int + needle@.len() as int) == needle@),
{
    let m = s.unicode_len();
    let n = needle.unicode_len();
    let mut j: usize = 0;
    while j < n
        invariant
            j <= n,
            m == s@.len(),
            n == needle@.len(),
            i + n <= m,
            forall|k: int| 0 <= k < j ==> s@[i + k] == needle@[k],
        decreases n - j,
    {
        if s.get_char(i + j) != needle.get_char(j) {
            proof {
                assert(s@.subrange(i as int, i as int + needle@.len() as int)[j as int]
                    != needle@[j as int]);
            }
            return false;
        }
        j = j + 1;
    }
    proof {
        assert(s@.subrange(i as int, i as int + needle@.len() as int) =~= needle@);
    }
    true
}

/// Whether two texts have the same characters.
pub fn str_eq(s: &str, p: &str) -> (r: bool)
    ensures
        r == (s@ == p@),
{
    let m = s.unicode_len();
    let n = p.unicode_len();
    if m != n {
        return false;
    }
    if n == 0 {
        proof {
            assert(s@ =~= p@);
        }
        return true;
    }
    let r = str_eq_at(s, p, 0);
    proof {
        if r {
            assert(s@.subrange(0, p@.len() as int) =~= s@);
        } else {
            if s@ == p@ {
                assert(s@.subrange(0, p@.len() as int) =~= p@);
            }
        }
    }
    r
}

/// Numbered, indented lines: for each text, a newline, the line number
/// starting at `n`, and the text with its continuation lines indented.
pub open spec fn spec_numbered_lines(texts: Seq<Seq<char>>, n: nat) -> Seq<char>
    decreases texts.len(),
{
    if texts.len() == 0 {
        Seq::empty()
    } else {
        "\n   "@ + spec_dec(n) + ": "@ + spec_ind_tail(texts.first(), "      "@)
            + spec_numbered_lines(texts.drop_first(), n + 1)
    }
}

/// Appends numbered, indented lines for `texts[i..]`, numbering from
/// `i - off`.
pub fn append_numbered_lines(texts: &Vec<String>, i: usize, off: usize, out: &mut String)
    requires
        off <= i <= texts@.len(),
    ensures
        final(out)@ == old(out)@ + spec_numbered_lines(
            texts.deep_view().subrange(i as int, texts.deep_view().len() as int),
            (i - off) as nat,
        ),
    decreases texts@.len() - i,
{
    let ghost tail = texts.deep_view().subrange(i as int, texts.deep_view().len() as int);
    if i < texts.len() {
        proof {
            assert(tail.drop_first() =~= texts.deep_view().subrange(
                i as int + 1,
                texts.deep_view().len() as int,
            ));
            assert(tail.first() == texts.deep_view()[i as int]);
        }
        out.append("\n   ");
        let num = dec_usize(i - off);
        out.append(num.as_str());
        out.append(": ");
        append_ind_tail(texts[i].as_str(), 0, "      ", out);
        proof {
            assert(texts@[i as int]@.subrange(0, texts@[i as int]@.len() as int) =~= texts@[
            i as int]@);
        }
        append_numbered_lines(texts, i + 1, off, out);
        proof {
            assert(out@ =~= old(out)@ + spec_numbered_lines(tail, (i - off) as nat));
        }
    } else {
        proof {
            assert(spec_numbered_lines(tail, (i - off) as nat) =~= Seq::<char>::empty());
            assert(out@ =~= old(out)@ + spec_numbered_lines(tail, (i - off) as nat));
        }
    }
}

/// Moves all of `src` onto the end of `dst`, leaving `src` empty.
pub(crate) fn push_strings(dst: &mut Vec<String>, src: &mut Vec<String>)
    ensures
        final(dst).deep_view() == old(dst).deep_view() + old(src).deep_view(),
        final(src)@.len() == 0,
{
    let ghost orig = src.deep_view();
    proof {
        assert(dst.deep_view() + src.deep_view() =~= old(dst).deep_view() + orig);
    }
    while src.len() > 0
        invariant
            dst.deep_view() + src.deep_view() == old(dst).deep_view() + orig,
        decreases src@.len(),
    {
        let s = src.remove(0);
        dst.push(s);
        proof {
            assert(dst.deep_view() + src.deep_view() =~= old(dst).deep_view() + orig);
        }
    }
    proof {
        assert(dst.deep_view() =~= old(dst).deep_view() + orig);
    }
}

} // verus!
