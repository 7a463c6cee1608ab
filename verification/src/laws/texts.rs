//! What message texts say.

use crate::text::{decimal_digits, decimal_text, digit_char};
use vstd::prelude::*;

verus! {

/// The number that a sequence of digits stands for.
pub open spec fn value_of(digits: Seq<char>) -> int
    decreases digits.len(),
{
    if digits.len() == 0 {
        0
    } else {
        10 * value_of(digits.drop_last()) + (digits.last() as int - '0' as int)
    }
}

/// Whether every character is a digit, and the first one is no needless zero.
pub open spec fn plain_digits(digits: Seq<char>) -> bool {
    &&& digits.len() > 0
    &&& forall|i: int| 0 <= i < digits.len() ==> '0' <= #[trigger] digits[i] <= '9'
    &&& digits.len() > 1 ==> digits[0] != '0'
}

/// The digits of a number stand for it.
proof fn lemma_digits(n: nat)
    ensures
        value_of(decimal_digits(n)) == n,
        plain_digits(decimal_digits(n)),
        n > 0 ==> decimal_digits(n)[0] != '0',
    decreases n,
{
    reveal_with_fuel(value_of, 2);
    if n >= 10 {
        let rest = decimal_digits(n / 10);
        lemma_digits(n / 10);
        assert(decimal_digits(n).drop_last() =~= rest);
        assert(decimal_digits(n)[0] == rest[0]);
        assert forall|i: int| 0 <= i < decimal_digits(n).len() implies '0' <= #[trigger] decimal_digits(
            n,
        )[i] <= '9' by {
            if i < rest.len() {
                assert(decimal_digits(n)[i] == rest[i]);
            }
        }
    } else {
        assert(decimal_digits(n) =~= seq![digit_char(n as int)]);
        assert(decimal_digits(n).drop_last() =~= Seq::<char>::empty());
    }
}

/// The decimal text of a number reads back as that number: a minus sign exactly where it
/// is negative, and digits without needless zeros.
pub proof fn law_decimal_reads_back(n: i32, text: String)
    requires
        call_ensures(crate::text::decimal, (n,), text),
    ensures
        n >= 0 ==> plain_digits(text@) && value_of(text@) == n,
        n < 0 ==> text@.len() > 1 && text@[0] == '-' && plain_digits(text@.skip(1)) && value_of(
            text@.skip(1),
        ) == -n,
{
    if n >= 0 {
        lemma_digits(n as nat);
    } else {
        lemma_digits((-n) as nat);
        assert(decimal_text(n as int).skip(1) =~= decimal_digits((-n) as nat));
    }
}

/// A joined text holds the first piece and then the second one, and nothing else.
pub proof fn law_join_keeps_both(head: &str, tail: &str, text: String)
    requires
        call_ensures(crate::text::join, (head, tail), text),
    ensures
        text@.len() == head@.len() + tail@.len(),
        text@.take(head@.len() as int) == head@,
        text@.skip(head@.len() as int) == tail@,
{
    assert(text@.take(head@.len() as int) =~= head@);
    assert(text@.skip(head@.len() as int) =~= tail@);
}

/// A descriptor that is too large for a `select` is named in the text that refuses it.
pub proof fn law_refusal_names_descriptor(
    reader_fd: i32,
    abort_fd: i32,
    fd_setsize: i32,
    nfds: Result<i32, String>,
    larger: i32,
    named: String,
)
    requires
        call_ensures(crate::unix::select_nfds, (reader_fd, abort_fd, fd_setsize), nfds),
        larger == reader_fd || larger == abort_fd,
        larger >= reader_fd && larger >= abort_fd,
        larger >= fd_setsize,
        call_ensures(crate::text::decimal, (larger,), named),
    ensures
        nfds matches Err(text) && text@ == "cannot select on file descriptor "@ + named@
            + " which is larger than 1024"@,
{
}

} // verus!
