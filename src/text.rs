use vstd::prelude::*;

verus! {

/// The character of a decimal digit (48 is the code of `0`).
pub open spec fn digit_char(d: nat) -> char {
    (48 + d % 10) as char
}

/// The decimal numeral of `n`, without sign or leading zeros.
pub open spec fn decimal(n: nat) -> Seq<char>
    decreases n,
{
    if n < 10 {
        seq![digit_char(n)]
    } else {
        decimal(n / 10).push(digit_char(n % 10))
    }
}

/// Index of the last `c` in `s`, if there is one.
pub open spec fn last_index_of(s: Seq<char>, c: char) -> Option<int>
    decreases s.len(),
{
    if s.len() == 0 {
        None
    } else if s.last() == c {
        Some(s.len() - 1)
    } else {
        last_index_of(s.drop_last(), c)
    }
}

/// The extension of a file name that holds no path separator: what follows
/// its last `.`, provided that dot is not the name's first character.
pub open spec fn simple_extension(s: Seq<char>) -> Option<Seq<char>> {
    match last_index_of(s, '.') {
        Some(i) => if i > 0 {
            Some(s.subrange(i + 1, s.len() as int))
        } else {
            None
        },
        None => None,
    }
}

/// A character that separates or prefixes path components on some platform:
/// `/` everywhere, `\` and the `:` of a drive prefix on Windows.
pub open spec fn is_path_separator(c: char) -> bool {
    c == '/' || c == '\\' || c == ':'
}

/// A text that holds no path separator of any platform.
pub open spec fn no_path_separator(s: Seq<char>) -> bool {
    forall|i: int| 0 <= i < s.len() ==> !is_path_separator(#[trigger] s[i])
}

/// A name with no path separator that is not `..`: on every platform a path
/// of one normal component, which is its own file name, unless it is empty or
/// `.`.
pub open spec fn is_simple_name(s: Seq<char>) -> bool {
    no_path_separator(s) && s != seq!['.', '.']
}

/// A name for what `Path::extension` returns on a path given as text.
pub uninterp spec fn path_extension(s: Seq<char>) -> Option<Seq<char>>;

/// The view of an optional string.
pub open spec fn opt_view(o: Option<String>) -> Option<Seq<char>> {
    match o {
        Some(s) => Some(s@),
        None => None,
    }
}

/// Relies on `String::push`: appends one character.
#[verifier::external_body]
fn push_char(s: &mut String, c: char)
    ensures
        final(s)@ == old(s)@.push(c),
{
    s.push(c)
}

/// Relies on `std::path::Path::extension` (its result turned back into a
/// `String`, which cannot fail on a path built from a `&str`). The
/// documentation gives: no extension when the file name holds no `.`, so none
/// for a text without `.`. Where the text holds none of `/`, `\`, `:` and is
/// not `..`, it is a single normal component on every platform (or `""` or
/// `.`, which have no file name), and the result is the part after the final
/// `.`, none when the name begins with its only `.`.
#[verifier::external_body]
pub(crate) fn path_extension_of(name: &str) -> (r: Option<String>)
    ensures
        opt_view(r) == path_extension(name@),
        !name@.contains('.') ==> r is None,
        is_simple_name(name@) ==> opt_view(r) == simple_extension(name@),
{
    match std::path::Path::new(name).extension() {
        Some(e) => e.to_str().map(String::from),
        None => None,
    }
}

/// What `last_index_of` finds is the last occurrence.
pub proof fn lemma_last_index_of(s: Seq<char>, c: char)
    ensures
        match last_index_of(s, c) {
            Some(i) => 0 <= i < s.len() && s[i] == c && forall|j: int| i < j < s.len() ==> s[j] != c,
            None => !s.contains(c),
        },
    decreases s.len(),
{
    if s.len() > 0 && s.last() != c {
        let d = s.drop_last();
        lemma_last_index_of(d, c);
        assert forall|j: int| 0 <= j < d.len() implies d[j] == s[j] by {}
        if last_index_of(d, c) is None {
            assert forall|j: int| 0 <= j < s.len() implies s[j] != c by {
                if j < d.len() {
                    assert(d[j] == s[j]);
                    assert(!d.contains(c));
                }
            }
        }
    }
}

/// The last `c` of `p`, `c` and `e` is the one between them when `e` holds no
/// `c`.
pub proof fn lemma_last_index_after(p: Seq<char>, c: char, e: Seq<char>)
    requires
        !e.contains(c),
    ensures
        last_index_of(p.push(c) + e, c) == Some(p.len() as int),
    decreases e.len(),
{
    let t = p.push(c) + e;
    if e.len() == 0 {
        assert(t =~= p.push(c));
    } else {
        assert(t.last() == e[e.len() - 1]);
        assert(t.drop_last() =~= p.push(c) + e.drop_last());
        assert forall|j: int| 0 <= j < e.drop_last().len() implies e.drop_last()[j] != c by {
            assert(e.drop_last()[j] == e[j]);
        }
        lemma_last_index_after(p, c, e.drop_last());
    }
}

/// A decimal numeral is made of digits only, and has at least one.
pub proof fn lemma_decimal_digits(n: nat)
    ensures
        decimal(n).len() > 0,
        forall|i: int| 0 <= i < decimal(n).len() ==> 48 <= #[trigger] decimal(n)[i] as u32 <= 57,
    decreases n,
{
    if n >= 10 {
        lemma_decimal_digits(n / 10);
    }
}

/// The extension of `p`, a dot and `e` is `e`, when `p` is a non-empty run of
/// digits and `e` holds neither `.` nor a path separator; and that name is
/// simple.
pub proof fn lemma_extension_after_number(p: Seq<char>, e: Seq<char>)
    requires
        p.len() > 0,
        forall|i: int| 0 <= i < p.len() ==> 48 <= #[trigger] p[i] as u32 <= 57,
        !e.contains('.'),
        no_path_separator(e),
    ensures
        simple_extension(p + seq!['.'] + e) == Some(e),
        is_simple_name(p + seq!['.'] + e),
{
    let t = p + seq!['.'] + e;
    assert(p + seq!['.'] =~= p.push('.'));
    lemma_last_index_after(p, '.', e);
    assert(t.subrange(p.len() + 1 as int, t.len() as int) =~= e);
    assert forall|i: int| 0 <= i < t.len() implies !is_path_separator(t[i]) by {
        if i < p.len() {
            assert(t[i] == p[i]);
        } else if i > p.len() {
            assert(t[i] == e[i - p.len() - 1]);
        }
    }
    assert(t[0] != '.') by {
        assert(t[0] == p[0]);
    }
}

/// The character of the digit `d`.
fn digit(d: u8) -> (c: char)
    requires
        d < 10,
    ensures
        c == digit_char(d as nat),
{
    (48u8 + d) as char
}

/// The decimal numeral of `n`.
pub fn decimal_text(n: u8) -> (r: String)
    ensures
        r@ == decimal(n as nat),
{
    let mut s = String::new();
    if n >= 100 {
        push_char(&mut s, digit(n / 100));
    }
    if n >= 10 {
        push_char(&mut s, digit((n / 10) % 10));
    }
    push_char(&mut s, digit(n % 10));
    proof {
        reveal_with_fuel(decimal, 3);
        let m = n as nat;
        if m >= 100 {
            assert(decimal(m / 100) =~= seq![digit_char(m / 100)]);
            assert((m / 10) / 10 == m / 100);
            assert(decimal(m / 10) =~= seq![digit_char(m / 100), digit_char((m / 10) % 10)]);
        } else if m >= 10 {
            assert(decimal(m / 10) =~= seq![digit_char(m / 10)]);
        }
        assert(s@ =~= decimal(m));
    }
    s
}

/// Whether two texts are the same sequence of characters.
pub fn same_text(a: &str, b: &str) -> (r: bool)
    ensures
        r == (a@ == b@),
{
    let n = a.unicode_len();
    if n != b.unicode_len() {
        return false;
    }
    let mut i: usize = 0;
    while i < n
        invariant
            n == a@.len(),
            n == b@.len(),
            i <= n,
            a@.subrange(0, i as int) == b@.subrange(0, i as int),
        decreases n - i,
    {
        if a.get_char(i) != b.get_char(i) {
            return false;
        }
        proof {
            assert(a@.subrange(0, i + 1) =~= a@.subrange(0, i as int).push(a@[i as int]));
            assert(b@.subrange(0, i + 1) =~= b@.subrange(0, i as int).push(b@[i as int]));
        }
        i = i + 1;
    }
    proof {
        assert(a@ =~= a@.subrange(0, n as int));
        assert(b@ =~= b@.subrange(0, n as int));
    }
    true
}

} // verus!
