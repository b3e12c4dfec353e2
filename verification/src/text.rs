//! Plain-text building blocks: decimal rendering of integers, repeated
//! characters, ANSI colour painting, and visible-width measurement of
//! painted text (colour control sequences have zero visible width).
use vstd::prelude::*;

verus! {

/// The decimal digit character for a value below ten.
pub open spec fn dec_digit(d: nat) -> char {
    if d == 0 {
        '0'
    } else if d == 1 {
        '1'
    } else if d == 2 {
        '2'
    } else if d == 3 {
        '3'
    } else if d == 4 {
        '4'
    } else if d == 5 {
        '5'
    } else if d == 6 {
        '6'
    } else if d == 7 {
        '7'
    } else if d == 8 {
        '8'
    } else {
        '9'
    }
}

/// The decimal representation of a non-negative integer, most significant
/// digit first, with no leading zeros (zero itself is "0").
pub open spec fn spec_dec(n: nat) -> Seq<char>
    decreases n,
{
    if n < 10 {
        seq![dec_digit(n)]
    } else {
        spec_dec(n / 10) + seq![dec_digit(n % 10)]
    }
}

/// A run of `n` copies of one character.
pub open spec fn spec_repeat(c: char, n: nat) -> Seq<char> {
    Seq::new(n, |i: int| c)
}

/// The escape character that opens an ANSI control sequence.
pub open spec fn esc() -> char {
    '\u{1b}'
}

/// `s` painted in the ANSI colour `code`: a select-graphic-rendition
/// sequence before the text and a reset sequence after it.
pub open spec fn spec_paint(code: nat, s: Seq<char>) -> Seq<char> {
    seq![esc(), '['] + spec_dec(code) + seq!['m'] + s + seq![esc(), '[', '0', 'm']
}

/// `s` with every ANSI control sequence (`ESC` up to the closing `m`)
/// removed, scanned left to right; `in_escape` says whether the scan
/// starts inside such a sequence.
pub open spec fn spec_strip_rec(s: Seq<char>, in_escape: bool) -> Seq<char>
    decreases s.len(),
{
    if s.len() == 0 {
        Seq::<char>::empty()
    } else if in_escape {
        spec_strip_rec(s.drop_first(), s.first() != 'm')
    } else if s.first() == esc() {
        spec_strip_rec(s.drop_first(), true)
    } else {
        seq![s.first()] + spec_strip_rec(s.drop_first(), false)
    }
}

/// Whether a scan that starts in state `in_escape` ends inside a control
/// sequence after reading all of `s`.
pub open spec fn spec_mode_after(s: Seq<char>, in_escape: bool) -> bool
    decreases s.len(),
{
    if s.len() == 0 {
        in_escape
    } else if in_escape {
        spec_mode_after(s.drop_first(), s.first() != 'm')
    } else {
        spec_mode_after(s.drop_first(), s.first() == esc())
    }
}

/// `s` with all ANSI control sequences removed.
pub open spec fn spec_strip(s: Seq<char>) -> Seq<char> {
    spec_strip_rec(s, false)
}

/// The width of `s` as a terminal shows it: control sequences count for
/// nothing, every other character for one column.
pub open spec fn spec_visible_len(s: Seq<char>) -> nat {
    spec_strip(s).len()
}

/// Text that holds no escape character at all.
pub open spec fn spec_plain(s: Seq<char>) -> bool {
    forall|i: int| 0 <= i < s.len() ==> s[i] != esc()
}

/// Every character of a decimal representation is a digit, so none is the
/// escape character and none closes a control sequence.
proof fn lemma_dec_digits_harmless(n: nat)
    ensures
        forall|i: int|
            0 <= i < spec_dec(n).len() ==> spec_dec(n)[i] != esc() && spec_dec(n)[i] != 'm',
    decreases n,
{
    if n >= 10 {
        lemma_dec_digits_harmless(n / 10);
        let a = spec_dec(n / 10);
        let b = seq![dec_digit(n % 10)];
        assert forall|i: int| 0 <= i < spec_dec(n).len() implies spec_dec(n)[i] != esc()
            && spec_dec(n)[i] != 'm' by {
            assert(spec_dec(n) == a + b);
            if i < a.len() {
                assert(spec_dec(n)[i] == a[i]);
            } else {
                assert(spec_dec(n)[i] == dec_digit(n % 10));
            }
        }
    }
}

/// Splitting a scan at any point changes nothing: stripping a
/// concatenation strips the left part first and carries its final scan
/// state into the right part.
pub proof fn lemma_strip_concat(a: Seq<char>, b: Seq<char>, m: bool)
    ensures
        spec_strip_rec(a + b, m) == spec_strip_rec(a, m) + spec_strip_rec(b, spec_mode_after(a, m)),
        spec_mode_after(a + b, m) == spec_mode_after(b, spec_mode_after(a, m)),
    decreases a.len(),
{
    if a.len() == 0 {
        assert(a + b =~= b);
        assert(spec_strip_rec(a, m) + spec_strip_rec(b, m) =~= spec_strip_rec(b, m));
    } else {
        let ab = a + b;
        assert(ab.len() > 0);
        assert(ab.first() == a.first());
        assert(ab.drop_first() =~= a.drop_first() + b);
        if m {
            lemma_strip_concat(a.drop_first(), b, a.first() != 'm');
        } else if a.first() == esc() {
            lemma_strip_concat(a.drop_first(), b, true);
        } else {
            lemma_strip_concat(a.drop_first(), b, false);
            assert(seq![a.first()] + (spec_strip_rec(a.drop_first(), false) + spec_strip_rec(
                b,
                spec_mode_after(a.drop_first(), false),
            )) =~= (seq![a.first()] + spec_strip_rec(a.drop_first(), false)) + spec_strip_rec(
                b,
                spec_mode_after(a.drop_first(), false),
            ));
        }
    }
}

/// Text without the escape character is left untouched by stripping, and
/// leaves the scan outside any control sequence.
pub proof fn lemma_strip_plain(s: Seq<char>)
    requires
        spec_plain(s),
    ensures
        spec_strip_rec(s, false) == s,
        spec_mode_after(s, false) == false,
    decreases s.len(),
{
    if s.len() > 0 {
        assert(spec_plain(s.drop_first()));
        lemma_strip_plain(s.drop_first());
        assert(seq![s.first()] + s.drop_first() =~= s);
    }
}

/// Inside a control sequence, characters other than the closing `m` are
/// all swallowed and the scan stays inside the sequence.
proof fn lemma_strip_in_escape(s: Seq<char>)
    requires
        forall|i: int| 0 <= i < s.len() ==> s[i] != 'm',
    ensures
        spec_strip_rec(s, true) == Seq::<char>::empty(),
        spec_mode_after(s, true) == true,
    decreases s.len(),
{
    if s.len() > 0 {
        lemma_strip_in_escape(s.drop_first());
    }
}

/// A run of characters other than `m`, closed by one `m`, is swallowed
/// whole when the scan starts inside a control sequence, and the scan
/// comes out of the sequence.
proof fn lemma_escape_run(body: Seq<char>)
    requires
        forall|i: int| 0 <= i < body.len() ==> body[i] != 'm',
    ensures
        spec_strip_rec(body + seq!['m'], true) == Seq::<char>::empty(),
        spec_mode_after(body + seq!['m'], true) == false,
{
    let sm = seq!['m'];
    lemma_strip_in_escape(body);
    lemma_strip_concat(body, sm, true);
    assert(sm.first() == 'm');
    assert(sm.drop_first() =~= Seq::<char>::empty());
    assert(spec_strip_rec(Seq::<char>::empty(), false) == Seq::<char>::empty());
    assert(spec_mode_after(Seq::<char>::empty(), false) == false);
    assert(spec_strip_rec(sm, true) == Seq::<char>::empty());
    assert(spec_mode_after(sm, true) == false);
    assert(Seq::<char>::empty() + Seq::<char>::empty() =~= Seq::<char>::empty());
}

/// Painting contributes nothing visible: stripping painted text yields
/// exactly what stripping the unpainted text yields, and the scan ends
/// outside any control sequence.
pub proof fn lemma_strip_paint(code: nat, s: Seq<char>)
    ensures
        spec_strip_rec(spec_paint(code, s), false) == spec_strip_rec(s, false),
        spec_mode_after(spec_paint(code, s), false) == false,
{
    let d = spec_dec(code);
    let mid = seq!['['] + d;
    let pre = seq![esc(), '['] + d + seq!['m'];
    let post = seq![esc(), '[', '0', 'm'];
    let tail = s + post;

    // The opening sequence strips to nothing and ends outside an escape.
    lemma_dec_digits_harmless(code);
    assert(forall|i: int| 0 <= i < mid.len() ==> mid[i] != 'm');
    lemma_escape_run(mid);
    assert(pre.first() == esc());
    assert(pre.drop_first() =~= mid + seq!['m']);
    assert(spec_strip_rec(pre, false) == Seq::<char>::empty());
    assert(spec_mode_after(pre, false) == false);

    // The reset sequence strips to nothing from either scan state.
    let m0 = spec_mode_after(s, false);
    let rbody = seq!['[', '0'];
    lemma_escape_run(rbody);
    assert(post.first() == esc());
    assert(post.drop_first() =~= rbody + seq!['m']);
    if m0 {
        assert(spec_strip_rec(post, true) == Seq::<char>::empty());
        assert(spec_mode_after(post, true) == false);
    } else {
        assert(spec_strip_rec(post, false) == Seq::<char>::empty());
        assert(spec_mode_after(post, false) == false);
    }

    // The whole painted text is the opening sequence, the text, the reset.
    assert(spec_paint(code, s) =~= pre + tail);
    lemma_strip_concat(pre, tail, false);
    lemma_strip_concat(s, post, false);
    assert(spec_strip_rec(spec_paint(code, s), false) =~= spec_strip_rec(s, false));
}

/// A colour-painted string and its plain-text equivalent have the same
/// visible width: the control sequences around the text measure zero.
pub proof fn lemma_paint_preserves_visible_len(code: nat, s: Seq<char>)
    requires
        spec_plain(s),
    ensures
        spec_visible_len(spec_paint(code, s)) == spec_visible_len(s),
        spec_visible_len(s) == s.len(),
{
    lemma_strip_paint(code, s);
    lemma_strip_plain(s);
}

/// A run of one repeated non-escape character is plain and as wide as it
/// is long.
pub proof fn lemma_repeat_visible_len(c: char, n: nat)
    requires
        c != esc(),
    ensures
        spec_plain(spec_repeat(c, n)),
        spec_visible_len(spec_repeat(c, n)) == n,
{
    lemma_strip_plain(spec_repeat(c, n));
}

/// One decimal digit as a string.
fn digit_to_string(d: u64) -> (r: String)
    requires
        d < 10,
    ensures
        r@ == seq![dec_digit(d as nat)],
{
    let s: &str = if d == 0 {
        "0"
    } else if d == 1 {
        "1"
    } else if d == 2 {
        "2"
    } else if d == 3 {
        "3"
    } else if d == 4 {
        "4"
    } else if d == 5 {
        "5"
    } else if d == 6 {
        "6"
    } else if d == 7 {
        "7"
    } else if d == 8 {
        "8"
    } else {
        "9"
    };
    proof {
        reveal_strlit("0");
        reveal_strlit("1");
        reveal_strlit("2");
        reveal_strlit("3");
        reveal_strlit("4");
        reveal_strlit("5");
        reveal_strlit("6");
        reveal_strlit("7");
        reveal_strlit("8");
        reveal_strlit("9");
        assert(s@ =~= seq![dec_digit(d as nat)]);
    }
    String::from_str(s)
}

/// Renders an integer in decimal, most significant digit first.
pub fn u64_to_string(n: u64) -> (r: String)
    ensures
        r@ == spec_dec(n as nat),
    decreases n,
{
    if n < 10 {
        digit_to_string(n)
    } else {
        let mut r = u64_to_string(n / 10);
        let d = digit_to_string(n % 10);
        r.append(d.as_str());
        proof {
            assert((n / 10) as nat == n as nat / 10);
            assert((n % 10) as nat == n as nat % 10);
        }
        r
    }
}

/// A string of `n` copies of one character, given as a one-character
/// string piece.
fn repeat_piece(piece: &str, c: char, n: usize) -> (r: String)
    requires
        piece@ == seq![c],
    ensures
        r@ == spec_repeat(c, n as nat),
{
    let mut r = String::new();
    let mut i: usize = 0;
    while i < n
        invariant
            0 <= i <= n,
            piece@ == seq![c],
            r@ == spec_repeat(c, i as nat),
        decreases n - i,
    {
        r.append(piece);
        i = i + 1;
        proof {
            assert(spec_repeat(c, (i - 1) as nat) + seq![c] =~= spec_repeat(c, i as nat));
        }
    }
    r
}

/// A string of `n` spaces.
pub fn spaces(n: usize) -> (r: String)
    ensures
        r@ == spec_repeat(' ', n as nat),
{
    proof {
        reveal_strlit(" ");
        assert(" "@ =~= seq![' ']);
    }
    repeat_piece(" ", ' ', n)
}

/// A string of `n` dashes.
pub fn dashes(n: usize) -> (r: String)
    ensures
        r@ == spec_repeat('-', n as nat),
{
    proof {
        reveal_strlit("-");
        assert("-"@ =~= seq!['-']);
    }
    repeat_piece("-", '-', n)
}

/// Paints `s` in the ANSI colour `code`: an opening colour sequence, the
/// text, a reset sequence.
pub fn paint(code: u64, s: &str) -> (r: String)
    ensures
        r@ == spec_paint(code as nat, s@),
{
    let mut r = String::from_str("\u{1b}[");
    let digits = u64_to_string(code);
    r.append(digits.as_str());
    r.append("m");
    r.append(s);
    r.append("\u{1b}[0m");
    proof {
        reveal_strlit("\u{1b}[");
        reveal_strlit("m");
        reveal_strlit("\u{1b}[0m");
        assert(r@ =~= spec_paint(code as nat, s@));
    }
    r
}

/// Measures the width of `s` as a terminal shows it, counting ANSI
/// control sequences (`ESC` up to the closing `m`) as zero columns.
pub fn visible_width(s: &str) -> (r: usize)
    ensures
        r as nat == spec_visible_len(s@),
{
    let n = s.unicode_len();
    let mut i: usize = 0;
    let mut count: usize = 0;
    let mut in_escape: bool = false;
    proof {
        assert(s@.subrange(0, n as int) =~= s@);
    }
    while i < n
        invariant
            0 <= i <= n,
            n as nat == s@.len(),
            count <= i,
            spec_strip(s@).len() == count + spec_strip_rec(
                s@.subrange(i as int, n as int),
                in_escape,
            ).len(),
        decreases n - i,
    {
        let c = s.get_char(i);
        proof {
            let rest = s@.subrange(i as int, n as int);
            assert(rest.len() > 0);
            assert(rest.first() == s@[i as int]);
            assert(rest.drop_first() =~= s@.subrange(i as int + 1, n as int));
        }
        if in_escape {
            if c == 'm' {
                in_escape = false;
            }
        } else if c == '\u{1b}' {
            in_escape = true;
        } else {
            count = count + 1;
        }
        i = i + 1;
    }
    proof {
        assert(s@.subrange(n as int, n as int) =~= Seq::<char>::empty());
    }
    count
}

} // verus!

