use vstd::prelude::*;

verus! {

/// `a` sorts before `b` when both are compared from position `i` on:
/// character by character, a proper prefix first.
pub open spec fn text_less_from(a: Seq<char>, b: Seq<char>, i: int) -> bool
    decreases a.len() - i,
{
    if i >= a.len() {
        i < b.len()
    } else if i >= b.len() {
        false
    } else if a[i] != b[i] {
        a[i] < b[i]
    } else {
        text_less_from(a, b, i + 1)
    }
}

/// `a` sorts strictly before `b`.
pub open spec fn text_less(a: Seq<char>, b: Seq<char>) -> bool {
    text_less_from(a, b, 0)
}

proof fn lemma_text_less_asymmetric(a: Seq<char>, b: Seq<char>, i: int)
    requires
        text_less_from(a, b, i),
    ensures
        !text_less_from(b, a, i),
    decreases a.len() - i,
{
    if i < a.len() && i < b.len() && a[i] == b[i] {
        lemma_text_less_asymmetric(a, b, i + 1);
    }
}

/// Whether bin identifier `a` sorts strictly before `b`.
pub fn bin_precedes(a: &str, b: &str) -> (r: bool)
    ensures
        r == text_less(a@, b@),
{
    let la = a.unicode_len();
    let lb = b.unicode_len();
    let mut i: usize = 0;
    while i < la && i < lb
        invariant
            la == a@.len(),
            lb == b@.len(),
            i <= la,
            i <= lb,
            text_less_from(a@, b@, i as int) == text_less_from(a@, b@, 0),
        decreases la - i,
    {
        let ca = a.get_char(i);
        let cb = b.get_char(i);
        if ca != cb {
            return ca < cb;
        }
        i = i + 1;
    }
    i < lb
}

/// The two bins of a transfer in ascending order, the lower identifier
/// first: the order in which the lock statement names them and returns
/// their rows. Both rows are locked by that one statement, so a transfer
/// never holds one of the two rows while it waits for the other.
pub fn lock_order(bin_from: &str, bin_to: &str) -> (r: (String, String))
    ensures
        text_less(bin_to@, bin_from@) ==> r.0@ == bin_to@ && r.1@ == bin_from@,
        !text_less(bin_to@, bin_from@) ==> r.0@ == bin_from@ && r.1@ == bin_to@,
        !text_less(r.1@, r.0@),
{
    if bin_precedes(bin_to, bin_from) {
        proof {
            lemma_text_less_asymmetric(bin_to@, bin_from@, 0);
        }
        (String::from_str(bin_to), String::from_str(bin_from))
    } else {
        (String::from_str(bin_from), String::from_str(bin_to))
    }
}

} // verus!
