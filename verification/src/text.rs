//! Verified text-building helpers shared by the serializer and the error
//! reporter: line indentation, the caret pointer line, and decimal rendering
//! of line numbers. Each helper's output is specified exactly, character by
//! character, by a spec function.

use vstd::prelude::*;
use vstd::string::*;

verus! {

/// The text of `s` with every line break followed by one indentation unit
/// (two spaces). This is the recursive core of [`indented`]; it does not add
/// the leading unit.
pub open spec fn indent_rest(s: Seq<char>) -> Seq<char>
    decreases s.len(),
{
    if s.len() == 0 {
        Seq::empty()
    } else {
        indent_rest(s.drop_last()) + (if s.last() == '\n' {
            seq!['\n', ' ', ' ']
        } else {
            seq![s.last()]
        })
    }
}

/// The text of `s` with every one of its lines indented by one indentation
/// unit (two spaces): one unit in front, and one after every line break.
pub open spec fn indented(s: Seq<char>) -> Seq<char> {
    seq![' ', ' '] + indent_rest(s)
}

/// A text without line breaks is unchanged by [`indent_rest`]: only the
/// leading unit of [`indented`] remains.
pub proof fn lemma_indent_rest_no_newline(s: Seq<char>)
    requires
        forall|i: int| 0 <= i < s.len() ==> s[i] != '\n',
    ensures
        indent_rest(s) == s,
    decreases s.len(),
{
    if s.len() == 0 {
        assert(indent_rest(s) =~= s);
    } else {
        lemma_indent_rest_no_newline(s.drop_last());
        assert(s.drop_last() + seq![s.last()] =~= s);
    }
}

/// Indents every line of `s` by one indentation unit of two spaces: the unit
/// is prepended, and inserted again after each line break, so that a nested
/// rendering gains one unit at every enclosing level.
pub fn indent(s: &str) -> (r: String)
    ensures
        r@ == indented(s@),
{
    let mut out = "  ".to_owned();
    proof {
        reveal_strlit("  ");
        assert(s@.take(0) =~= Seq::<char>::empty());
        assert(out@ =~= seq![' ', ' '] + indent_rest(s@.take(0)));
    }
    let n = s.unicode_len();
    let mut i: usize = 0;
    while i < n
        invariant
            n == s@.len(),
            i <= n,
            out@ == seq![' ', ' '] + indent_rest(s@.take(i as int)),
        decreases n - i,
    {
        let c = s.get_char(i);
        if c == '\n' {
            out.append("\n  ");
            proof {
                reveal_strlit("\n  ");
            }
        } else {
            let piece = s.substring_char(i, i + 1);
            out.append(piece);
            proof {
                assert(piece@ =~= seq![s@[i as int]]);
            }
        }
        proof {
            let t = s@.take(i as int + 1);
            assert(t.drop_last() =~= s@.take(i as int));
            assert(t.last() == s@[i as int]);
            assert(out@ =~= seq![' ', ' '] + indent_rest(t));
        }
        i = i + 1;
    }
    proof {
        assert(s@.take(n as int) =~= s@);
    }
    out
}

/// The caret pointer line of the detailed error form: `n` spaces followed by
/// a single caret, aligned under column `n` of the offending line.
pub open spec fn pointer_text(n: nat) -> Seq<char> {
    Seq::new(n, |i: int| ' ') + seq!['^']
}

/// Builds the caret pointer line: `n` spaces, then one caret.
pub fn pointer_string(n: usize) -> (r: String)
    ensures
        r@ == pointer_text(n as nat),
{
    let mut out = String::new();
    proof {
        assert(out@ =~= Seq::new(0, |j: int| ' '));
    }
    let mut i: usize = 0;
    while i < n
        invariant
            i <= n,
            out@ == Seq::new(i as nat, |j: int| ' '),
        decreases n - i,
    {
        out.append(" ");
        proof {
            reveal_strlit(" ");
            assert(out@ =~= Seq::new((i + 1) as nat, |j: int| ' '));
        }
        i = i + 1;
    }
    out.append("^");
    proof {
        reveal_strlit("^");
        assert(out@ =~= pointer_text(n as nat));
    }
    out
}

/// The character for one decimal digit value.
pub open spec fn decimal_digit(d: nat) -> char {
    if d == 0 {
        '0'
    } else if d == 1 {
        '1'
    } else if d == 2 {
        '2'
    } else if d == 3 {
        '3'
    } else if d == 4 {
        '4'
    } else if d == 5 {
        '5'
    } else if d == 6 {
        '6'
    } else if d == 7 {
        '7'
    } else if d == 8 {
        '8'
    } else {
        '9'
    }
}

/// The usual decimal rendering of `n`: most significant digit first, no sign,
/// no leading zeros (except for `n == 0` itself).
pub open spec fn decimal_text(n: nat) -> Seq<char>
    decreases n,
{
    if n < 10 {
        seq![decimal_digit(n)]
    } else {
        decimal_text(n / 10) + seq![decimal_digit(n % 10)]
    }
}

fn digit_str(d: usize) -> (r: &'static str)
    requires
        d < 10,
    ensures
        r@ == seq![decimal_digit(d as nat)],
{
    if d == 0 {
        proof {
            reveal_strlit("0");
            assert("0"@ =~= seq!['0']);
        }
        "0"
    } else if d == 1 {
        proof {
            reveal_strlit("1");
            assert("1"@ =~= seq!['1']);
        }
        "1"
    } else if d == 2 {
        proof {
            reveal_strlit("2");
            assert("2"@ =~= seq!['2']);
        }
        "2"
    } else if d == 3 {
        proof {
            reveal_strlit("3");
            assert("3"@ =~= seq!['3']);
        }
        "3"
    } else if d == 4 {
        proof {
            reveal_strlit("4");
            assert("4"@ =~= seq!['4']);
        }
        "4"
    } else if d == 5 {
        proof {
            reveal_strlit("5");
            assert("5"@ =~= seq!['5']);
        }
        "5"
    } else if d == 6 {
        proof {
            reveal_strlit("6");
            assert("6"@ =~= seq!['6']);
        }
        "6"
    } else if d == 7 {
        proof {
            reveal_strlit("7");
            assert("7"@ =~= seq!['7']);
        }
        "7"
    } else if d == 8 {
        proof {
            reveal_strlit("8");
            assert("8"@ =~= seq!['8']);
        }
        "8"
    } else {
        proof {
            reveal_strlit("9");
            assert("9"@ =~= seq!['9']);
        }
        "9"
    }
}

/// Renders `n` in decimal, exactly as [`decimal_text`] describes.
pub fn decimal_string(n: usize) -> (r: String)
    ensures
        r@ == decimal_text(n as nat),
    decreases n,
{
    if n < 10 {
        digit_str(n).to_owned()
    } else {
        let mut s = decimal_string(n / 10);
        s.append(digit_str(n % 10));
        s
    }
}

/// Two texts that agree and whose halves are split by the same delimiter,
/// absent from both left halves, split identically: the first occurrence of
/// the delimiter pins the boundary.
pub proof fn lemma_delimiter_split(a: Seq<char>, x: Seq<char>, b: Seq<char>, y: Seq<char>, d: char)
    requires
        a + seq![d] + x == b + seq![d] + y,
        forall|i: int| 0 <= i < a.len() ==> a[i] != d,
        forall|i: int| 0 <= i < b.len() ==> b[i] != d,
    ensures
        a == b,
        x == y,
{
    let l = a + seq![d] + x;
    let r = b + seq![d] + y;
    if a.len() < b.len() {
        assert(l[a.len() as int] == d);
        assert(r[a.len() as int] == b[a.len() as int]);
        assert(false);
    }
    if b.len() < a.len() {
        assert(r[b.len() as int] == d);
        assert(l[b.len() as int] == a[b.len() as int]);
        assert(false);
    }
    assert forall|i: int| 0 <= i < a.len() implies a[i] == b[i] by {
        assert(l[i] == a[i]);
        assert(r[i] == b[i]);
    }
    assert(a =~= b);
    assert(l.len() == a.len() + 1 + x.len());
    assert(r.len() == b.len() + 1 + y.len());
    assert(x.len() == y.len());
    assert forall|i: int| 0 <= i < x.len() implies x[i] == y[i] by {
        assert(l[a.len() + 1 + i] == x[i]);
        assert(r[b.len() + 1 + i] == y[i]);
    }
    assert(x =~= y);
}

/// The mirror of [`lemma_delimiter_split`]: when the delimiter is absent from
/// both right halves, its last occurrence pins the boundary.
pub proof fn lemma_last_delimiter_split(
    a: Seq<char>,
    x: Seq<char>,
    b: Seq<char>,
    y: Seq<char>,
    d: char,
)
    requires
        a + seq![d] + x == b + seq![d] + y,
        forall|i: int| 0 <= i < x.len() ==> x[i] != d,
        forall|i: int| 0 <= i < y.len() ==> y[i] != d,
    ensures
        a == b,
        x == y,
{
    let l = a + seq![d] + x;
    let r = b + seq![d] + y;
    assert(l.len() == r.len());
    if x.len() < y.len() {
        assert(l[a.len() as int] == d);
        assert(a.len() == r.len() - 1 - x.len());
        assert(a.len() > b.len());
        assert(r[a.len() as int] == y[a.len() - b.len() - 1]);
        assert(false);
    }
    if y.len() < x.len() {
        assert(r[b.len() as int] == d);
        assert(b.len() == l.len() - 1 - y.len());
        assert(b.len() > a.len());
        assert(l[b.len() as int] == x[b.len() - a.len() - 1]);
        assert(false);
    }
    assert(a.len() == b.len());
    assert forall|i: int| 0 <= i < a.len() implies a[i] == b[i] by {
        assert(l[i] == a[i]);
        assert(r[i] == b[i]);
    }
    assert(a =~= b);
    assert forall|i: int| 0 <= i < x.len() implies x[i] == y[i] by {
        assert(l[a.len() + 1 + i] == x[i]);
        assert(r[b.len() + 1 + i] == y[i]);
    }
    assert(x =~= y);
}

} // verus!
