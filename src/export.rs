use vstd::prelude::*;

verus! {

/// The character of a decimal digit.
pub open spec fn digit_char(d: nat) -> char {
    if d == 0 { '0' }
    else if d == 1 { '1' }
    else if d == 2 { '2' }
    else if d == 3 { '3' }
    else if d == 4 { '4' }
    else if d == 5 { '5' }
    else if d == 6 { '6' }
    else if d == 7 { '7' }
    else if d == 8 { '8' }
    else { '9' }
}

/// The decimal text of `n`, without sign or leading zeros.
pub open spec fn decimal(n: nat) -> Seq<char>
    decreases n,
{
    if n < 10 {
        seq![digit_char(n)]
    } else {
        decimal(n / 10).push(digit_char(n % 10))
    }
}

/// The identifier of a match between two named fighters: `fight-<a>-vs-<b>`.
pub open spec fn fight_identifier(a: Seq<char>, b: Seq<char>) -> Seq<char> {
    seq!['f', 'i', 'g', 'h', 't', '-'] + a + seq!['-', 'v', 's', '-'] + b
}

/// The path of an export file: `<root><identifier>-<millis>.txt`.
pub open spec fn export_path(root: Seq<char>, identifier: Seq<char>, millis: nat) -> Seq<char> {
    root + identifier + seq!['-'] + decimal(millis) + seq!['.', 't', 'x', 't']
}

fn digit_str(d: u64) -> (r: &'static str)
    requires
        d < 10,
    ensures
        r@ == seq![digit_char(d as nat)],
{
    proof {
        reveal_strlit("0");
        reveal_strlit("1");
        reveal_strlit("2");
        reveal_strlit("3");
        reveal_strlit("4");
        reveal_strlit("5");
        reveal_strlit("6");
        reveal_strlit("7");
        reveal_strlit("8");
        reveal_strlit("9");
    }
    let r = if d == 0 { "0" }
    else if d == 1 { "1" }
    else if d == 2 { "2" }
    else if d == 3 { "3" }
    else if d == 4 { "4" }
    else if d == 5 { "5" }
    else if d == 6 { "6" }
    else if d == 7 { "7" }
    else if d == 8 { "8" }
    else { "9" };
    assert(r@ =~= seq![digit_char(d as nat)]);
    r
}

/// Appends the decimal text of `n` to `out`.
pub fn push_decimal(out: &mut String, n: u64)
    ensures
        final(out)@ == old(out)@ + decimal(n as nat),
    decreases n,
{
    if n >= 10 {
        push_decimal(out, n / 10);
    }
    out.append(digit_str(n % 10));
    proof {
        if n >= 10 {
            assert(decimal(n as nat) == decimal((n / 10) as nat).push(digit_char((n % 10) as nat)));
        }
        assert(final(out)@ =~= old(out)@ + decimal(n as nat));
    }
}

/// The identifier of a match between the two named fighters.
pub fn fight_name(a: &str, b: &str) -> (r: String)
    ensures
        r@ == fight_identifier(a@, b@),
{
    proof {
        reveal_strlit("fight-");
        reveal_strlit("-vs-");
    }
    let mut r = String::from_str("fight-");
    r.append(a);
    r.append("-vs-");
    r.append(b);
    assert(r@ =~= fight_identifier(a@, b@));
    r
}

/// The path that one match's log is exported to.
pub fn export_file_path(root: &str, identifier: &str, millis: u64) -> (r: String)
    ensures
        r@ == export_path(root@, identifier@, millis as nat),
{
    proof {
        reveal_strlit("-");
        reveal_strlit(".txt");
    }
    let mut r = String::from_str(root);
    r.append(identifier);
    r.append("-");
    push_decimal(&mut r, millis);
    r.append(".txt");
    assert(r@ =~= export_path(root@, identifier@, millis as nat));
    r
}

} // verus!
