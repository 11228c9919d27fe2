use vstd::prelude::*;

verus! {

/// The character of a decimal digit (`d` below 10).
pub open spec fn digit_char(d: nat) -> char {
    seq!['0', '1', '2', '3', '4', '5', '6', '7', '8', '9'][d as int]
}

/// The decimal digits of `n`, most significant first, with no leading zero.
pub open spec fn decimal(n: nat) -> Seq<char>
    decreases n,
{
    if n < 10 {
        seq![digit_char(n)]
    } else {
        decimal(n / 10) + seq![digit_char(n % 10)]
    }
}

/// The decimal forms of `codes`, in order, with `;` between neighbours.
pub open spec fn join_codes(codes: Seq<nat>) -> Seq<char>
    decreases codes.len(),
{
    if codes.len() == 0 {
        Seq::empty()
    } else if codes.len() == 1 {
        decimal(codes[0])
    } else {
        join_codes(codes.drop_last()) + seq![';'] + decimal(codes.last())
    }
}

/// Joining two non-empty lists of codes puts one `;` between their joined forms.
pub proof fn lemma_join_concat(a: Seq<nat>, b: Seq<nat>)
    requires
        a.len() > 0,
        b.len() > 0,
    ensures
        join_codes(a + b) == join_codes(a) + seq![';'] + join_codes(b),
    decreases b.len(),
{
    let ab = a + b;
    if b.len() == 1 {
        assert(ab.drop_last() =~= a);
        assert(ab.last() == b[0]);
    } else {
        assert(ab.drop_last() =~= a + b.drop_last());
        assert(ab.last() == b.last());
        lemma_join_concat(a, b.drop_last());
        assert(join_codes(a + b) =~= join_codes(a) + seq![';'] + join_codes(b));
    }
}

/// The joined form is empty exactly when there is no code.
pub proof fn lemma_join_empty_iff(codes: Seq<nat>)
    ensures
        (join_codes(codes).len() == 0) == (codes.len() == 0),
{
    if codes.len() == 1 {
        assert(decimal(codes[0]).len() > 0);
    }
}

/// Joining the empty list with another leaves the other's joined form.
pub proof fn lemma_join_empty_left(b: Seq<nat>)
    ensures
        join_codes(Seq::<nat>::empty() + b) == join_codes(b),
{
    assert(Seq::<nat>::empty() + b =~= b);
}

fn digit_str(d: u8) -> (r: &'static str)
    requires
        d < 10,
    ensures
        r@ == seq![digit_char(d as nat)],
{
    proof {
        reveal_strlit("0");
        reveal_strlit("1");
        reveal_strlit("2");
        reveal_strlit("3");
        reveal_strlit("4");
        reveal_strlit("5");
        reveal_strlit("6");
        reveal_strlit("7");
        reveal_strlit("8");
        reveal_strlit("9");
    }
    match d {
        0 => "0",
        1 => "1",
        2 => "2",
        3 => "3",
        4 => "4",
        5 => "5",
        6 => "6",
        7 => "7",
        8 => "8",
        _ => "9",
    }
}

/// Appends the decimal digits of `n` to `out`.
pub fn push_decimal(out: &mut String, n: u8)
    ensures
        final(out)@ == old(out)@ + decimal(n as nat),
{
    let ghost start = out@;
    if n >= 100 {
        out.append(digit_str(n / 100));
    }
    if n >= 10 {
        out.append(digit_str((n / 10) % 10));
    }
    out.append(digit_str(n % 10));
    proof {
        let m = n as nat;
        if m >= 100 {
            assert(m / 10 >= 10);
            assert((m / 10) / 10 == m / 100);
            assert(decimal(m / 100) == seq![digit_char(m / 100)]);
            assert(decimal(m / 10) == decimal(m / 100) + seq![digit_char((m / 10) % 10)]);
        } else if m >= 10 {
            assert(decimal(m / 10) == seq![digit_char(m / 10)]);
        }
        assert(out@ =~= start + decimal(m));
    }
}

/// Appends `;` to `out`.
pub fn push_separator(out: &mut String)
    ensures
        final(out)@ == old(out)@ + seq![';'],
{
    proof {
        reveal_strlit(";");
    }
    out.append(";");
}

} // verus!
