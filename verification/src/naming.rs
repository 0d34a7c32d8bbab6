//! Branch naming policy.
//!
//! A ghost branch is named `ghost/<work-item-id>/<creation-epoch-seconds>`.
//! The prefix `ghost/` is the only marker of "ghostness": every component
//! that creates or filters ghost branches goes through these functions.

use vstd::prelude::*;

verus! {

/// The reserved prefix `ghost/` that marks a branch name as a ghost branch.
pub open spec fn ghost_prefix() -> Seq<char> {
    seq!['g', 'h', 'o', 's', 't', '/']
}

/// The character rendering a single decimal digit value.
pub open spec fn digit_char(d: nat) -> char {
    if d == 0 {
        '0'
    } else if d == 1 {
        '1'
    } else if d == 2 {
        '2'
    } else if d == 3 {
        '3'
    } else if d == 4 {
        '4'
    } else if d == 5 {
        '5'
    } else if d == 6 {
        '6'
    } else if d == 7 {
        '7'
    } else if d == 8 {
        '8'
    } else {
        '9'
    }
}

/// Decimal digit sequence of a natural number, most significant digit first.
pub open spec fn dec_digits(n: nat) -> Seq<char>
    decreases n,
{
    if n < 10 {
        seq![digit_char(n)]
    } else {
        dec_digits(n / 10) + seq![digit_char(n % 10)]
    }
}

/// Decimal rendering of a signed number: a minus sign before the
/// magnitude for negative values, plain digits otherwise.
pub open spec fn dec_int(t: int) -> Seq<char> {
    if t >= 0 {
        dec_digits(t as nat)
    } else {
        seq!['-'] + dec_digits((-t) as nat)
    }
}

/// The ghost-branch name derived from a work-item identifier and a
/// creation timestamp (seconds since the epoch).
pub open spec fn ghost_name_seq(work_item_id: Seq<char>, created_at: int) -> Seq<char> {
    ghost_prefix() + work_item_id + seq!['/'] + dec_int(created_at)
}

/// A branch name is a ghost-branch name iff it begins with `ghost/`.
pub open spec fn is_ghost_name(s: Seq<char>) -> bool {
    &&& s.len() >= 6
    &&& s[0] == 'g'
    &&& s[1] == 'h'
    &&& s[2] == 'o'
    &&& s[3] == 's'
    &&& s[4] == 't'
    &&& s[5] == '/'
}

/// The one-character string for a decimal digit value.
fn digit_str(d: u64) -> (r: &'static str)
    requires
        d < 10,
    ensures
        r@ == seq![digit_char(d as nat)],
{
    let r: &'static str = if d == 0 {
        "0"
    } else if d == 1 {
        "1"
    } else if d == 2 {
        "2"
    } else if d == 3 {
        "3"
    } else if d == 4 {
        "4"
    } else if d == 5 {
        "5"
    } else if d == 6 {
        "6"
    } else if d == 7 {
        "7"
    } else if d == 8 {
        "8"
    } else {
        "9"
    };
    proof {
        reveal_strlit("0");
        reveal_strlit("1");
        reveal_strlit("2");
        reveal_strlit("3");
        reveal_strlit("4");
        reveal_strlit("5");
        reveal_strlit("6");
        reveal_strlit("7");
        reveal_strlit("8");
        reveal_strlit("9");
        assert(r@ =~= seq![digit_char(d as nat)]);
    }
    r
}

/// Renders an unsigned number in decimal.
fn format_u64(n: u64) -> (s: String)
    ensures
        s@ == dec_digits(n as nat),
    decreases n,
{
    if n < 10 {
        String::from_str(digit_str(n))
    } else {
        assert(n / 10 < n);
        let mut s = format_u64(n / 10);
        s.append(digit_str(n % 10));
        s
    }
}

/// Renders a signed timestamp in decimal.
pub fn format_timestamp(t: i64) -> (s: String)
    ensures
        s@ == dec_int(t as int),
{
    if t >= 0 {
        format_u64(t as u64)
    } else {
        let mag: u64 = if t == i64::MIN {
            9223372036854775808
        } else {
            (-t) as u64
        };
        assert(mag as nat == (-(t as int)) as nat);
        let mut s = String::from_str("-");
        proof {
            reveal_strlit("-");
            assert(s@ =~= seq!['-']);
        }
        let digits = format_u64(mag);
        s.append(digits.as_str());
        s
    }
}

/// Builds the ghost-branch name `ghost/<work_item_id>/<created_at>`.
pub fn make_ghost_name(work_item_id: &str, created_at: i64) -> (r: String)
    ensures
        r@ == ghost_name_seq(work_item_id@, created_at as int),
{
    let mut s = String::from_str("ghost/");
    proof {
        reveal_strlit("ghost/");
        assert(s@ =~= ghost_prefix());
    }
    s.append(work_item_id);
    s.append("/");
    proof {
        reveal_strlit("/");
        assert(s@ =~= ghost_prefix() + work_item_id@ + seq!['/']);
    }
    let ts = format_timestamp(created_at);
    s.append(ts.as_str());
    proof {
        assert(s@ =~= ghost_name_seq(work_item_id@, created_at as int));
    }
    s
}

/// True iff the branch name starts with the reserved prefix `ghost/`.
pub fn is_ghost(branch_name: &str) -> (r: bool)
    ensures
        r == is_ghost_name(branch_name@),
{
    let n = branch_name.unicode_len();
    if n < 6 {
        return false;
    }
    branch_name.get_char(0) == 'g' && branch_name.get_char(1) == 'h' && branch_name.get_char(2)
        == 'o' && branch_name.get_char(3) == 's' && branch_name.get_char(4) == 't'
        && branch_name.get_char(5) == '/'
}

/// Digit characters never collide: two digit values below ten with the
/// same character rendering are the same value.
proof fn lemma_digit_char_injective(a: nat, b: nat)
    requires
        a < 10,
        b < 10,
        digit_char(a) == digit_char(b),
    ensures
        a == b,
{
}

/// A decimal rendering is never empty, and has at least two digits for
/// values of ten or more.
proof fn lemma_dec_digits_len(n: nat)
    ensures
        dec_digits(n).len() >= 1,
        n >= 10 ==> dec_digits(n).len() >= 2,
    decreases n,
{
    if n >= 10 {
        lemma_dec_digits_len(n / 10);
    }
}

/// A decimal rendering never starts with a minus sign.
proof fn lemma_dec_digits_no_sign(n: nat)
    ensures
        dec_digits(n)[0] != '-',
    decreases n,
{
    if n >= 10 {
        lemma_dec_digits_no_sign(n / 10);
        lemma_dec_digits_len(n / 10);
    }
}

/// Decimal renderings of distinct naturals are distinct.
proof fn lemma_dec_digits_injective(a: nat, b: nat)
    requires
        dec_digits(a) == dec_digits(b),
    ensures
        a == b,
    decreases a,
{
    lemma_dec_digits_len(a);
    lemma_dec_digits_len(b);
    if a < 10 && b < 10 {
        assert(dec_digits(a)[0] == digit_char(a));
        assert(dec_digits(b)[0] == digit_char(b));
        lemma_digit_char_injective(a, b);
    } else if a < 10 || b < 10 {
        assert(false);
    } else {
        let da = dec_digits(a / 10);
        let db = dec_digits(b / 10);
        assert(dec_digits(a).last() == digit_char(a % 10));
        assert(dec_digits(b).last() == digit_char(b % 10));
        lemma_digit_char_injective(a % 10, b % 10);
        assert(da =~= dec_digits(a).drop_last());
        assert(db =~= dec_digits(b).drop_last());
        lemma_dec_digits_injective(a / 10, b / 10);
    }
}

/// Decimal renderings of distinct integers are distinct.
proof fn lemma_dec_int_injective(a: int, b: int)
    requires
        dec_int(a) == dec_int(b),
    ensures
        a == b,
{
    lemma_dec_digits_len(if a >= 0 { a as nat } else { (-a) as nat });
    lemma_dec_digits_len(if b >= 0 { b as nat } else { (-b) as nat });
    if a >= 0 && b >= 0 {
        lemma_dec_digits_injective(a as nat, b as nat);
    } else if a < 0 && b < 0 {
        let da = dec_digits((-a) as nat);
        let db = dec_digits((-b) as nat);
        assert(da =~= dec_int(a).subrange(1, dec_int(a).len() as int));
        assert(db =~= dec_int(b).subrange(1, dec_int(b).len() as int));
        lemma_dec_digits_injective((-a) as nat, (-b) as nat);
    } else if a >= 0 {
        lemma_dec_digits_no_sign(a as nat);
        assert(dec_int(b)[0] == '-');
        assert(false);
    } else {
        lemma_dec_digits_no_sign(b as nat);
        assert(dec_int(a)[0] == '-');
        assert(false);
    }
}

/// Appending different suffixes to one prefix gives different sequences.
proof fn lemma_concat_cancel_left(p: Seq<char>, d1: Seq<char>, d2: Seq<char>)
    requires
        p + d1 == p + d2,
    ensures
        d1 == d2,
{
    assert((p + d1).len() == p.len() + d1.len());
    assert((p + d2).len() == p.len() + d2.len());
    assert(d1.len() == d2.len());
    assert forall|i: int| 0 <= i < d1.len() implies d1[i] == d2[i] by {
        assert((p + d1)[p.len() + i] == d1[i]);
        assert((p + d2)[p.len() + i] == d2[i]);
    }
    assert(d1 =~= d2);
}

/// Law: for one work item, distinct creation timestamps always give
/// distinct ghost-branch names.
pub proof fn lemma_ghost_name_unique(w: Seq<char>, t1: int, t2: int)
    requires
        t1 != t2,
    ensures
        ghost_name_seq(w, t1) != ghost_name_seq(w, t2),
{
    if ghost_name_seq(w, t1) == ghost_name_seq(w, t2) {
        let p = ghost_prefix() + w + seq!['/'];
        assert(ghost_name_seq(w, t1) == p + dec_int(t1));
        assert(ghost_name_seq(w, t2) == p + dec_int(t2));
        lemma_concat_cancel_left(p, dec_int(t1), dec_int(t2));
        lemma_dec_int_injective(t1, t2);
    }
}

/// Law: every name the naming policy generates satisfies the ghost
/// predicate.
pub proof fn lemma_ghost_name_is_ghost(w: Seq<char>, t: int)
    ensures
        is_ghost_name(ghost_name_seq(w, t)),
{
    let s = ghost_name_seq(w, t);
    assert forall|i: int| 0 <= i < 6 implies s[i] == ghost_prefix()[i] by {}
}

} // verus!
