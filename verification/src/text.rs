use vstd::prelude::*;

verus! {

/// A decimal digit character: one of '0' through '9'.
pub open spec fn is_digit(c: char) -> bool {
    48 <= c as int && c as int <= 57
}

/// Every character of the text is a decimal digit.
pub open spec fn is_digit_seq(s: Seq<char>) -> bool {
    forall|i: int| 0 <= i < s.len() ==> is_digit(#[trigger] s[i])
}

/// Whether every character of the text is a decimal digit.
pub fn is_digit_text(s: &str) -> (r: bool)
    ensures
        r == is_digit_seq(s@),
{
    let n = s.unicode_len();
    let mut i: usize = 0;
    while i < n
        invariant
            n == s@.len(),
            0 <= i <= n,
            forall|j: int| 0 <= j < i ==> is_digit(#[trigger] s@[j]),
        decreases n - i,
    {
        let c = s.get_char(i);
        let u = c as u32;
        if !(48 <= u && u <= 57) {
            assert(!is_digit(s@[i as int]));
            return false;
        }
        i += 1;
    }
    true
}

/// Whether two texts hold the same characters.
pub fn str_eq(a: &str, b: &str) -> (r: bool)
    ensures
        r == (a@ == b@),
{
    let na = a.unicode_len();
    let nb = b.unicode_len();
    if na != nb {
        return false;
    }
    let mut i: usize = 0;
    while i < na
        invariant
            na == a@.len(),
            na == b@.len(),
            0 <= i <= na,
            forall|j: int| 0 <= j < i ==> a@[j] == b@[j],
        decreases na - i,
    {
        if a.get_char(i) != b.get_char(i) {
            return false;
        }
        i += 1;
    }
    proof {
        assert(a@ =~= b@);
    }
    true
}

/// The character standing for one digit value.
pub open spec fn dec_digit(d: int) -> char {
    if d == 0 {
        '0'
    } else if d == 1 {
        '1'
    } else if d == 2 {
        '2'
    } else if d == 3 {
        '3'
    } else if d == 4 {
        '4'
    } else if d == 5 {
        '5'
    } else if d == 6 {
        '6'
    } else if d == 7 {
        '7'
    } else if d == 8 {
        '8'
    } else {
        '9'
    }
}

/// The decimal rendering of a natural number, most significant digit first,
/// with no leading zero except for the number zero itself.
pub open spec fn dec_rep(n: nat) -> Seq<char>
    decreases n,
{
    if n < 10 {
        seq![dec_digit(n as int)]
    } else {
        dec_rep((n / 10) as nat).push(dec_digit((n % 10) as int))
    }
}

/// The decimal rendering of an integer: a leading '-' for a negative one.
pub open spec fn dec_rep_int(i: int) -> Seq<char> {
    if i < 0 {
        seq!['-'] + dec_rep((-i) as nat)
    } else {
        dec_rep(i as nat)
    }
}

/// A decimal rendering is never empty and holds digits only.
pub proof fn lemma_dec_rep_digits(n: nat)
    ensures
        dec_rep(n).len() >= 1,
        is_digit_seq(dec_rep(n)),
    decreases n,
{
    if n < 10 {
        assert(is_digit(dec_digit(n as int)));
    } else {
        lemma_dec_rep_digits((n / 10) as nat);
        assert(is_digit(dec_digit((n % 10) as int)));
    }
}

fn digit_str(d: u64) -> (r: &'static str)
    requires
        d < 10,
    ensures
        r@ == seq![dec_digit(d as int)],
{
    if d == 0 {
        proof { reveal_strlit("0"); }
        assert("0"@ =~= seq![dec_digit(0)]);
        "0"
    } else if d == 1 {
        proof { reveal_strlit("1"); }
        assert("1"@ =~= seq![dec_digit(1)]);
        "1"
    } else if d == 2 {
        proof { reveal_strlit("2"); }
        assert("2"@ =~= seq![dec_digit(2)]);
        "2"
    } else if d == 3 {
        proof { reveal_strlit("3"); }
        assert("3"@ =~= seq![dec_digit(3)]);
        "3"
    } else if d == 4 {
        proof { reveal_strlit("4"); }
        assert("4"@ =~= seq![dec_digit(4)]);
        "4"
    } else if d == 5 {
        proof { reveal_strlit("5"); }
        assert("5"@ =~= seq![dec_digit(5)]);
        "5"
    } else if d == 6 {
        proof { reveal_strlit("6"); }
        assert("6"@ =~= seq![dec_digit(6)]);
        "6"
    } else if d == 7 {
        proof { reveal_strlit("7"); }
        assert("7"@ =~= seq![dec_digit(7)]);
        "7"
    } else if d == 8 {
        proof { reveal_strlit("8"); }
        assert("8"@ =~= seq![dec_digit(8)]);
        "8"
    } else {
        proof { reveal_strlit("9"); }
        assert("9"@ =~= seq![dec_digit(9)]);
        "9"
    }
}

/// The decimal rendering of an unsigned number as text.
pub fn u64_to_decimal(n: u64) -> (r: String)
    ensures
        r@ == dec_rep(n as nat),
    decreases n,
{
    if n < 10 {
        String::from_str(digit_str(n))
    } else {
        let mut s = u64_to_decimal(n / 10);
        s.append(digit_str(n % 10));
        proof {
            assert(s@ =~= dec_rep((n / 10) as nat).push(dec_digit((n % 10) as int)));
        }
        s
    }
}

/// The decimal rendering of a signed number as text.
pub fn i32_to_decimal(i: i32) -> (r: String)
    ensures
        r@ == dec_rep_int(i as int),
{
    if i >= 0 {
        u64_to_decimal(i as u64)
    } else {
        let mag: i64 = -(i as i64);
        let mut s = String::from_str("-");
        let digits = u64_to_decimal(mag as u64);
        s.append(digits.as_str());
        proof {
            reveal_strlit("-");
            assert("-"@ =~= seq!['-']);
        }
        s
    }
}

/// The largest index at which the character stands in the text, or -1 when
/// it stands nowhere in it.
pub open spec fn last_index_of(s: Seq<char>, c: char) -> int
    decreases s.len(),
{
    if s.len() == 0 {
        -1
    } else if s[s.len() - 1] == c {
        s.len() - 1
    } else {
        last_index_of(s.drop_last(), c)
    }
}

/// What `last_index_of` returns: the largest index holding the character,
/// or -1 when no index holds it.
pub proof fn lemma_last_index_of(s: Seq<char>, c: char)
    ensures
        -1 <= last_index_of(s, c) < s.len(),
        last_index_of(s, c) == -1 ==> forall|j: int| 0 <= j < s.len() ==> s[j] != c,
        last_index_of(s, c) >= 0 ==> s[last_index_of(s, c)] == c,
        last_index_of(s, c) >= 0 ==> forall|j: int|
            last_index_of(s, c) < j < s.len() ==> s[j] != c,
    decreases s.len(),
{
    if s.len() == 0 {
    } else if s[s.len() - 1] == c {
    } else {
        lemma_last_index_of(s.drop_last(), c);
        assert(forall|j: int| 0 <= j < s.len() - 1 ==> s.drop_last()[j] == s[j]);
    }
}

/// The index of the last occurrence of the character in the text, if any.
pub fn find_last(s: &str, c: char) -> (r: Option<usize>)
    ensures
        r matches Some(i) ==> i < s@.len() && last_index_of(s@, c) == i as int,
        r is None ==> last_index_of(s@, c) == -1,
{
    proof {
        lemma_last_index_of(s@, c);
    }
    let n = s.unicode_len();
    let mut i: usize = n;
    while i > 0
        invariant
            n == s@.len(),
            0 <= i <= n,
            forall|j: int| i <= j < n ==> s@[j] != c,
            -1 <= last_index_of(s@, c) < s@.len(),
            last_index_of(s@, c) == -1 ==> forall|j: int| 0 <= j < s@.len() ==> s@[j] != c,
            last_index_of(s@, c) >= 0 ==> s@[last_index_of(s@, c)] == c,
            last_index_of(s@, c) >= 0 ==> forall|j: int|
                last_index_of(s@, c) < j < s@.len() ==> s@[j] != c,
        decreases i,
    {
        i -= 1;
        if s.get_char(i) == c {
            return Some(i);
        }
    }
    None
}

} // verus!
