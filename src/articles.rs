use vstd::prelude::*;

verus! {

/// The highest index a fighter's article can have.
pub const MAX_ARTICLE: i32 = 37;

/// Whether the allow-list keeps article `article` of fighter kind `kind`.
pub open spec fn is_allowed(kind: i32, article: i32, allowlist: Seq<(i32, i32)>) -> bool {
    exists|i: int| 0 <= i < allowlist.len() && allowlist[i] == (kind, article)
}

/// The articles below index `n` that the allow-list does not keep, in
/// increasing order.
pub open spec fn articles_below(kind: i32, allowlist: Seq<(i32, i32)>, n: nat) -> Seq<i32>
    decreases n,
{
    if n == 0 {
        Seq::empty()
    } else {
        let a = (n - 1) as i32;
        let rest = articles_below(kind, allowlist, (n - 1) as nat);
        if is_allowed(kind, a, allowlist) { rest } else { rest.push(a) }
    }
}

fn allows(kind: i32, article: i32, allowlist: &Vec<(i32, i32)>) -> (r: bool)
    ensures
        r == is_allowed(kind, article, allowlist@),
{
    let mut i: usize = 0;
    while i < allowlist.len()
        invariant
            0 <= i <= allowlist.len(),
            forall|j: int| 0 <= j < i ==> allowlist@[j] != (kind, article),
        decreases allowlist.len() - i,
    {
        let (k, a) = allowlist[i];
        if k == kind && a == article {
            return true;
        }
        i = i + 1;
    }
    false
}

/// The article indices of a fighter of kind `fighter_kind` that are cleared
/// when its state is reset: all of `0..=MAX_ARTICLE` but those the
/// allow-list keeps for that kind, in increasing order.
pub fn articles_to_clear(fighter_kind: i32, allowlist: &Vec<(i32, i32)>) -> (r: Vec<i32>)
    ensures
        r@ == articles_below(fighter_kind, allowlist@, (MAX_ARTICLE + 1) as nat),
{
    let mut r: Vec<i32> = Vec::new();
    let mut a: i32 = 0;
    while a <= MAX_ARTICLE
        invariant
            0 <= a <= MAX_ARTICLE + 1,
            r@ == articles_below(fighter_kind, allowlist@, a as nat),
        decreases MAX_ARTICLE + 1 - a,
    {
        if !allows(fighter_kind, a, allowlist) {
            r.push(a);
        }
        a = a + 1;
    }
    r
}

} // verus!
