//! Small verified text utilities used by the symbol resolver and the
//! binding emitter: joining with separators, splitting comment text into
//! lines, escaping path separators, and digit rendering.
use vstd::prelude::*;

verus! {

// ---------------------------------------------------------------------------
// Joining parts with a separator.
// ---------------------------------------------------------------------------
pub open spec fn join_spec(parts: Seq<Seq<char>>, sep: Seq<char>) -> Seq<char>
    decreases parts.len(),
{
    if parts.len() == 0 {
        Seq::empty()
    } else if parts.len() == 1 {
        parts[0]
    } else {
        parts[0] + sep + join_spec(parts.skip(1), sep)
    }
}

fn join_from(parts: &Vec<String>, sep: &str, i: usize) -> (r: String)
    requires
        i <= parts@.len(),
    ensures
        r@ == join_spec(parts.deep_view().skip(i as int), sep@),
    decreases parts@.len() - i,
{
    if i == parts.len() {
        let r = String::new();
        proof {
            assert(parts.deep_view().skip(i as int) =~= Seq::<Seq<char>>::empty());
        }
        r
    } else if i + 1 == parts.len() {
        let r = parts[i].clone();
        proof {
            assert(parts.deep_view().skip(i as int) =~= seq![parts.deep_view()[i as int]]);
        }
        r
    } else {
        let mut r = parts[i].clone();
        r.append(sep);
        let rest = join_from(parts, sep, i + 1);
        r.append(rest.as_str());
        proof {
            let s = parts.deep_view().skip(i as int);
            assert(s.skip(1) =~= parts.deep_view().skip(i as int + 1));
            assert(s[0] == parts.deep_view()[i as int]);
        }
        r
    }
}

/// Join the parts with the separator between neighbours.
pub fn join(parts: &Vec<String>, sep: &str) -> (r: String)
    ensures
        r@ == join_spec(parts.deep_view(), sep@),
{
    let r = join_from(parts, sep, 0);
    proof {
        assert(parts.deep_view().skip(0) =~= parts.deep_view());
    }
    r
}

// ---------------------------------------------------------------------------
// Concatenating parts.
// ---------------------------------------------------------------------------
pub open spec fn concat_spec(parts: Seq<Seq<char>>) -> Seq<char>
    decreases parts.len(),
{
    if parts.len() == 0 {
        Seq::empty()
    } else {
        parts[0] + concat_spec(parts.skip(1))
    }
}

/// Appending one more part extends the concatenation at its end: the shape
/// a forward loop accumulates in.
pub proof fn lemma_concat_push(parts: Seq<Seq<char>>, x: Seq<char>)
    ensures
        concat_spec(parts.push(x)) == concat_spec(parts) + x,
    decreases parts.len(),
{
    if parts.len() == 0 {
        assert(parts.push(x).skip(1) =~= Seq::<Seq<char>>::empty());
        assert(parts.push(x)[0] == x);
        assert(concat_spec(Seq::<Seq<char>>::empty()) == Seq::<char>::empty());
        assert(concat_spec(parts.push(x)) == x + Seq::<char>::empty());
        assert(x + Seq::<char>::empty() =~= Seq::<char>::empty() + x);
    } else {
        lemma_concat_push(parts.skip(1), x);
        assert(parts.push(x).skip(1) =~= parts.skip(1).push(x));
        assert(parts.push(x)[0] == parts[0]);
        assert(concat_spec(parts.push(x)) == parts[0] + concat_spec(parts.skip(1).push(x)));
        assert(concat_spec(parts.skip(1).push(x)) == concat_spec(parts.skip(1)) + x);
        assert(parts[0] + (concat_spec(parts.skip(1)) + x) =~= (parts[0] + concat_spec(
            parts.skip(1),
        )) + x);
    }
}

// ---------------------------------------------------------------------------
// Rendering a list of lines, each followed by a newline.
// ---------------------------------------------------------------------------
pub open spec fn lines_spec(lines: Seq<Seq<char>>) -> Seq<char>
    decreases lines.len(),
{
    if lines.len() == 0 {
        Seq::empty()
    } else {
        lines[0] + "\n"@ + lines_spec(lines.skip(1))
    }
}

fn render_lines_from(lines: &Vec<String>, i: usize) -> (r: String)
    requires
        i <= lines@.len(),
    ensures
        r@ == lines_spec(lines.deep_view().skip(i as int)),
    decreases lines@.len() - i,
{
    if i == lines.len() {
        let r = String::new();
        proof {
            assert(lines.deep_view().skip(i as int) =~= Seq::<Seq<char>>::empty());
        }
        r
    } else {
        let mut r = lines[i].clone();
        r.append("\n");
        let rest = render_lines_from(lines, i + 1);
        r.append(rest.as_str());
        proof {
            let s = lines.deep_view().skip(i as int);
            assert(s.skip(1) =~= lines.deep_view().skip(i as int + 1));
            assert(s[0] == lines.deep_view()[i as int]);
        }
        r
    }
}

/// Render each line followed by a newline.
pub fn render_lines(lines: &Vec<String>) -> (r: String)
    ensures
        r@ == lines_spec(lines.deep_view()),
{
    let r = render_lines_from(lines, 0);
    proof {
        assert(lines.deep_view().skip(0) =~= lines.deep_view());
    }
    r
}

// ---------------------------------------------------------------------------
// Splitting text into lines at newline characters.
// ---------------------------------------------------------------------------
/// Index of the first newline in `s`, or `s.len()` if there is none.
pub open spec fn nl_pos(s: Seq<char>) -> int
    decreases s.len(),
{
    if s.len() == 0 {
        0
    } else if s[0] == '\n' {
        0
    } else {
        1 + nl_pos(s.skip(1))
    }
}

pub proof fn lemma_nl_pos(s: Seq<char>)
    ensures
        0 <= nl_pos(s) <= s.len(),
        nl_pos(s) < s.len() ==> s[nl_pos(s)] == '\n',
        forall|k: int| 0 <= k < nl_pos(s) ==> s[k] != '\n',
    decreases s.len(),
{
    if s.len() == 0 {
    } else if s[0] == '\n' {
    } else {
        lemma_nl_pos(s.skip(1));
        assert forall|k: int| 0 <= k < nl_pos(s) implies s[k] != '\n' by {
            if k > 0 {
                assert(s.skip(1)[k - 1] == s[k]);
            }
        }
    }
}

proof fn lemma_nl_pos_is(s: Seq<char>, j: int)
    requires
        0 <= j <= s.len(),
        forall|k: int| 0 <= k < j ==> s[k] != '\n',
        j < s.len() ==> s[j] == '\n',
    ensures
        nl_pos(s) == j,
    decreases s.len(),
{
    if j == 0 {
    } else {
        assert(s[0] != '\n');
        lemma_nl_pos_is(s.skip(1), j - 1);
    }
}

/// The maximal newline-free pieces of `s`, in order: what splitting at every
/// newline character yields, one piece more than there are newlines.
pub open spec fn split_lines_spec(s: Seq<char>) -> Seq<Seq<char>>
    decreases s.len(),
{
    let p = nl_pos(s);
    if p < 0 || p >= s.len() {
        seq![s]
    } else {
        seq![s.take(p)] + split_lines_spec(s.skip(p + 1))
    }
}

fn split_from(s: &str, i: usize, n: usize) -> (r: Vec<String>)
    requires
        i <= n,
        n == s@.len(),
    ensures
        r.deep_view() == split_lines_spec(s@.skip(i as int)),
    decreases n - i,
{
    let mut j = i;
    while j < n && s.get_char(j) != '\n'
        invariant
            i <= j <= n,
            n == s@.len(),
            forall|k: int| i <= k < j ==> s@[k] != '\n',
        decreases n - j,
    {
        j += 1;
    }
    proof {
        let tail = s@.skip(i as int);
        assert forall|k: int| 0 <= k < j - i implies tail[k] != '\n' by {
            assert(tail[k] == s@[i + k]);
        }
        if j < n {
            assert(tail[j - i] == s@[j as int]);
        }
        lemma_nl_pos_is(tail, j - i);
    }
    let line = String::from_str(s.substring_char(i, j));
    proof {
        assert(line@ =~= s@.skip(i as int).take(j - i));
    }
    if j == n {
        let mut r: Vec<String> = Vec::new();
        r.push(line);
        proof {
            assert(s@.skip(i as int).take(j - i) =~= s@.skip(i as int));
            assert(r.deep_view() =~= seq![s@.skip(i as int)]);
        }
        r
    } else {
        let mut r = split_from(s, j + 1, n);
        r.insert(0, line);
        proof {
            let tail = s@.skip(i as int);
            assert(tail.skip(j - i + 1) =~= s@.skip(j + 1));
            assert(r.deep_view() =~= seq![tail.take(j - i)] + split_lines_spec(
                s@.skip(j + 1),
            ));
        }
        r
    }
}

/// Split `s` into its lines: the pieces between newline characters, in
/// order, the newlines themselves dropped.
pub fn split_lines(s: &str) -> (r: Vec<String>)
    ensures
        r.deep_view() == split_lines_spec(s@),
{
    let n = s.unicode_len();
    let r = split_from(s, 0, n);
    proof {
        assert(s@.skip(0) =~= s@);
    }
    r
}

// ---------------------------------------------------------------------------
// Escaping backslashes (platform path separators inside quoted text).
// ---------------------------------------------------------------------------
pub open spec fn escape_backslashes_spec(s: Seq<char>) -> Seq<char>
    decreases s.len(),
{
    if s.len() == 0 {
        Seq::empty()
    } else {
        (if s[0] == '\\' {
            seq!['\\', '\\']
        } else {
            seq![s[0]]
        }) + escape_backslashes_spec(s.skip(1))
    }
}

fn escape_from(s: &str, i: usize, n: usize) -> (r: String)
    requires
        i <= n,
        n == s@.len(),
    ensures
        r@ == escape_backslashes_spec(s@.skip(i as int)),
    decreases n - i,
{
    if i == n {
        let r = String::new();
        proof {
            assert(s@.skip(i as int) =~= Seq::<char>::empty());
        }
        r
    } else {
        let c = s.get_char(i);
        let mut r = if c == '\\' {
            let two = String::from_str("\\\\");
            proof {
                reveal_strlit("\\\\");
                assert(two@ =~= seq!['\\', '\\']);
            }
            two
        } else {
            let one = String::from_str(s.substring_char(i, i + 1));
            proof {
                assert(one@ =~= seq![s@[i as int]]);
            }
            one
        };
        let rest = escape_from(s, i + 1, n);
        r.append(rest.as_str());
        proof {
            assert(s@.skip(i as int)[0] == s@[i as int]);
            assert(s@.skip(i as int).skip(1) =~= s@.skip(i as int + 1));
        }
        r
    }
}

/// Double every backslash in `s`, so the text can stand inside a quoted
/// string literal.
pub fn escape_backslashes(s: &str) -> (r: String)
    ensures
        r@ == escape_backslashes_spec(s@),
{
    let n = s.unicode_len();
    let r = escape_from(s, 0, n);
    proof {
        assert(s@.skip(0) =~= s@);
    }
    r
}

// ---------------------------------------------------------------------------
// Digit rendering: decimal (positional parameter names) and lower-case
// hexadecimal (synthesized symbols).
// ---------------------------------------------------------------------------
pub open spec fn digit_seq(d: int) -> Seq<char> {
    if d == 0 {
        "0"@
    } else if d == 1 {
        "1"@
    } else if d == 2 {
        "2"@
    } else if d == 3 {
        "3"@
    } else if d == 4 {
        "4"@
    } else if d == 5 {
        "5"@
    } else if d == 6 {
        "6"@
    } else if d == 7 {
        "7"@
    } else if d == 8 {
        "8"@
    } else if d == 9 {
        "9"@
    } else if d == 10 {
        "a"@
    } else if d == 11 {
        "b"@
    } else if d == 12 {
        "c"@
    } else if d == 13 {
        "d"@
    } else if d == 14 {
        "e"@
    } else {
        "f"@
    }
}

fn digit_str(d: u64) -> (r: &'static str)
    requires
        d < 16,
    ensures
        r@ == digit_seq(d as int),
{
    match d {
        0 => "0",
        1 => "1",
        2 => "2",
        3 => "3",
        4 => "4",
        5 => "5",
        6 => "6",
        7 => "7",
        8 => "8",
        9 => "9",
        10 => "a",
        11 => "b",
        12 => "c",
        13 => "d",
        14 => "e",
        _ => "f",
    }
}

/// The decimal digits of `n`, most significant first.
pub open spec fn dec_seq(n: int) -> Seq<char>
    decreases n,
{
    if n < 10 {
        digit_seq(n)
    } else {
        dec_seq(n / 10) + digit_seq(n % 10)
    }
}

/// Render `n` in decimal.
pub fn dec_string(n: u64) -> (r: String)
    ensures
        r@ == dec_seq(n as int),
    decreases n,
{
    if n < 10 {
        String::from_str(digit_str(n))
    } else {
        let mut s = dec_string(n / 10);
        s.append(digit_str(n % 10));
        s
    }
}

/// The lower-case hexadecimal digits of `n`, most significant first.
pub open spec fn hex_seq(n: int) -> Seq<char>
    decreases n,
{
    if n < 16 {
        digit_seq(n)
    } else {
        hex_seq(n / 16) + digit_seq(n % 16)
    }
}

/// Render `n` in lower-case hexadecimal.
pub fn hex_string(n: u64) -> (r: String)
    ensures
        r@ == hex_seq(n as int),
    decreases n,
{
    if n < 16 {
        String::from_str(digit_str(n))
    } else {
        let mut s = hex_string(n / 16);
        s.append(digit_str(n % 16));
        s
    }
}

} // verus!
