//! Names of per-epoch checkpoint entries, and the recovery of the last
//! completed epoch from a listing of such names.
//!
//! An entry is named `epoch-<N>`. When a listing is scanned, `<N>` is read as
//! an unsigned decimal number of machine width: an optional `+`, then one or
//! more ASCII digits, with any number of leading zeros, whose value fits a
//! `usize`. Every other name is passed over.

use vstd::prelude::*;
use vstd::string::*;

verus! {

/// Whether `c` is an ASCII decimal digit.
pub open spec fn is_digit(c: char) -> bool {
    '0' <= c && c <= '9'
}

/// The value of the digit `c`.
pub open spec fn digit_value(c: char) -> nat
    recommends
        is_digit(c),
{
    (c as u32 - '0' as u32) as nat
}

/// The character of the digit `d`.
pub open spec fn digit_char(d: nat) -> char
    recommends
        d < 10,
{
    ((d + '0' as u32) as u32) as char
}

/// Whether `s` is made of decimal digits only.
pub open spec fn all_digits(s: Seq<char>) -> bool {
    forall|i: int| 0 <= i < s.len() ==> is_digit(#[trigger] s[i])
}

/// The number that the digits of `s` denote, read in base ten.
pub open spec fn decimal_value(s: Seq<char>) -> nat
    decreases s.len(),
{
    if s.len() == 0 {
        0
    } else {
        decimal_value(s.drop_last()) * 10 + digit_value(s.last())
    }
}

/// The shortest decimal writing of `n`.
pub open spec fn decimal_digits(n: nat) -> Seq<char>
    decreases n,
{
    if n < 10 {
        seq![digit_char(n)]
    } else {
        decimal_digits(n / 10).push(digit_char(n % 10))
    }
}

/// The digits of a number written with an optional leading `+`.
pub open spec fn unsigned_part(s: Seq<char>) -> Seq<char> {
    if s.len() > 0 && s[0] == '+' {
        s.skip(1)
    } else {
        s
    }
}

/// The number that `s` denotes as an unsigned decimal of machine width, if it
/// denotes one.
pub open spec fn parsed_number(s: Seq<char>) -> Option<nat> {
    let digits = unsigned_part(s);
    if digits.len() > 0 && all_digits(digits) && decimal_value(digits) <= usize::MAX {
        Some(decimal_value(digits))
    } else {
        None
    }
}

/// The prefix that marks a checkpoint entry.
pub open spec fn epoch_prefix() -> Seq<char> {
    seq!['e', 'p', 'o', 'c', 'h', '-']
}

/// Whether `name` begins with the checkpoint prefix.
pub open spec fn has_epoch_prefix(name: Seq<char>) -> bool {
    name.len() >= 6 && name.subrange(0, 6) == epoch_prefix()
}

/// The epoch that an entry name records, if it is a checkpoint entry.
pub open spec fn epoch_of_name(name: Seq<char>) -> Option<nat> {
    if has_epoch_prefix(name) {
        parsed_number(name.skip(6))
    } else {
        None
    }
}

/// The name of the checkpoint entry of epoch `n`.
pub open spec fn name_of_epoch(n: nat) -> Seq<char> {
    epoch_prefix() + decimal_digits(n)
}

/// The views of a listing's names.
pub open spec fn names_of(entries: Seq<String>) -> Seq<Seq<char>> {
    Seq::new(entries.len(), |i: int| entries[i]@)
}

/// The greatest epoch recorded among `names`, or 0 where none records one.
pub open spec fn last_epoch_of(names: Seq<Seq<char>>) -> nat
    decreases names.len(),
{
    if names.len() == 0 {
        0
    } else {
        let before = last_epoch_of(names.drop_last());
        match epoch_of_name(names.last()) {
            Some(n) => if n > before {
                n
            } else {
                before
            },
            None => before,
        }
    }
}

/// A number read from more digits is no smaller than the one read from fewer.
pub proof fn lemma_decimal_value_grows(s: Seq<char>, k: int)
    requires
        0 <= k <= s.len(),
    ensures
        decimal_value(s.subrange(0, k)) <= decimal_value(s),
    decreases s.len(),
{
    if k == s.len() {
        assert(s.subrange(0, k) == s);
    } else {
        lemma_decimal_value_grows(s.drop_last(), k);
        assert(s.drop_last().subrange(0, k) == s.subrange(0, k));
    }
}

/// Reading the shortest writing of a number gives the number back.
pub proof fn lemma_decimal_digits_value(n: nat)
    ensures
        decimal_digits(n).len() > 0,
        all_digits(decimal_digits(n)),
        decimal_value(decimal_digits(n)) == n,
    decreases n,
{
    let s = decimal_digits(n);
    if n < 10 {
        assert(s.len() == 1);
        assert(s[0] == digit_char(n));
        assert(is_digit(digit_char(n)));
        assert(s.drop_last().len() == 0);
        assert(decimal_value(s.drop_last()) == 0);
        assert(digit_value(s.last()) == n);
    } else {
        lemma_decimal_digits_value(n / 10);
        let head = decimal_digits(n / 10);
        assert(s.drop_last() == head);
        assert(s.last() == digit_char(n % 10));
        assert(is_digit(digit_char(n % 10)));
        assert(digit_value(s.last()) == n % 10);
        assert forall|i: int| 0 <= i < s.len() implies is_digit(#[trigger] s[i]) by {
            if i < head.len() {
                assert(s[i] == head[i]);
            }
        }
    }
}

/// The entry name written for an epoch is read back as that epoch.
pub proof fn lemma_name_round_trip(n: nat)
    requires
        n <= usize::MAX,
    ensures
        epoch_of_name(name_of_epoch(n)) == Some(n),
{
    lemma_decimal_digits_value(n);
    let digits = decimal_digits(n);
    let name = name_of_epoch(n);
    assert(name.subrange(0, 6) == epoch_prefix());
    assert(name.skip(6) == digits);
    assert(is_digit(digits[0]));
    assert(unsigned_part(digits) == digits);
}

/// The recovered epoch is at least the epoch of every checkpoint entry, and
/// is either 0 or the epoch of one of them.
pub proof fn lemma_last_epoch_is_maximum(names: Seq<Seq<char>>)
    ensures
        forall|i: int|
            0 <= i < names.len() && epoch_of_name(#[trigger] names[i]) is Some ==> epoch_of_name(
                names[i],
            )->0 <= last_epoch_of(names),
        last_epoch_of(names) == 0 || exists|i: int|
            0 <= i < names.len() && epoch_of_name(#[trigger] names[i]) == Some(
                last_epoch_of(names),
            ),
    decreases names.len(),
{
    if names.len() > 0 {
        let init = names.drop_last();
        lemma_last_epoch_is_maximum(init);
        assert forall|i: int|
            0 <= i < names.len() && epoch_of_name(
                #[trigger] names[i],
            ) is Some implies epoch_of_name(names[i])->0 <= last_epoch_of(names) by {
            if i < init.len() {
                assert(init[i] == names[i]);
            }
        }
        if last_epoch_of(names) != 0 {
            if last_epoch_of(names) == last_epoch_of(init) {
                let i = choose|i: int|
                    0 <= i < init.len() && epoch_of_name(#[trigger] init[i]) == Some(
                        last_epoch_of(init),
                    );
                assert(names[i] == init[i]);
            } else {
                assert(epoch_of_name(names[names.len() - 1]) == Some(last_epoch_of(names)));
            }
        }
    }
}

/// Entries that are no checkpoint entries do not change what is recovered:
/// a listing none of whose names records an epoch recovers 0.
pub proof fn lemma_no_checkpoint_recovers_zero(names: Seq<Seq<char>>)
    requires
        forall|i: int| 0 <= i < names.len() ==> epoch_of_name(#[trigger] names[i]) is None,
    ensures
        last_epoch_of(names) == 0,
    decreases names.len(),
{
    if names.len() > 0 {
        let init = names.drop_last();
        assert forall|i: int| 0 <= i < init.len() implies epoch_of_name(
            #[trigger] init[i],
        ) is None by {
            assert(init[i] == names[i]);
        }
        lemma_no_checkpoint_recovers_zero(init);
        assert(epoch_of_name(names[names.len() - 1]) is None);
    }
}

/// The names of the checkpoint entries of epochs 1 to `k`, in this order.
pub open spec fn written_names(k: nat) -> Seq<Seq<char>> {
    Seq::new(k, |i: int| name_of_epoch((i + 1) as nat))
}

/// What is recovered from two listings joined is the greater of what is
/// recovered from each.
pub proof fn lemma_last_epoch_of_joined(a: Seq<Seq<char>>, b: Seq<Seq<char>>)
    ensures
        last_epoch_of(a + b) == if last_epoch_of(a) >= last_epoch_of(b) {
            last_epoch_of(a)
        } else {
            last_epoch_of(b)
        },
    decreases b.len(),
{
    if b.len() == 0 {
        assert(a + b == a);
    } else {
        lemma_last_epoch_of_joined(a, b.drop_last());
        assert((a + b).drop_last() == a + b.drop_last());
        assert((a + b).last() == b.last());
    }
}

/// From the entries of epochs 1 to `k`, epoch `k` is recovered.
pub proof fn lemma_written_entries_recover(k: nat)
    requires
        k <= usize::MAX,
    ensures
        last_epoch_of(written_names(k)) == k,
    decreases k,
{
    if k > 0 {
        lemma_written_entries_recover((k - 1) as nat);
        lemma_name_round_trip(k);
        assert(written_names(k).drop_last() == written_names((k - 1) as nat));
        assert(written_names(k).last() == name_of_epoch(k));
    }
}

/// Reads `text` from position `start` on as an unsigned decimal number of
/// machine width.
pub fn parse_number(text: &str, start: usize) -> (r: Option<usize>)
    requires
        start <= text@.len(),
    ensures
        match parsed_number(text@.skip(start as int)) {
            Some(n) => r == Some(n as usize),
            None => r is None,
        },
{
    let len = text.unicode_len();
    let ghost whole = text@.skip(start as int);
    let mut pos: usize = start;
    if pos < len && text.get_char(pos) == '+' {
        pos = pos + 1;
    }
    let ghost digits = unsigned_part(whole);
    proof {
        if start < len && text@[start as int] == '+' {
            assert(whole[0] == '+');
            assert(digits == text@.skip(pos as int));
        } else {
            if whole.len() > 0 {
                assert(whole[0] == text@[start as int]);
            }
            assert(digits == text@.skip(pos as int));
        }
    }
    if pos == len {
        return None;
    }
    let first: usize = pos;
    let mut value: usize = 0;
    while pos < len
        invariant
            first <= pos <= len,
            len == text@.len(),
            digits == text@.skip(first as int),
            digits == unsigned_part(text@.skip(start as int)),
            all_digits(digits.subrange(0, pos - first)),
            value == decimal_value(digits.subrange(0, pos - first)),
        decreases len - pos,
    {
        let c = text.get_char(pos);
        let ghost seen = digits.subrange(0, pos - first);
        let ghost next = digits.subrange(0, pos - first + 1);
        proof {
            assert(digits[pos - first] == c);
            assert(next.drop_last() == seen);
            assert(next.last() == c);
        }
        if !(c >= '0' && c <= '9') {
            proof {
                assert(!is_digit(digits[pos - first]));
            }
            return None;
        }
        let d: usize = (c as u32 - '0' as u32) as usize;
        if value > (usize::MAX - d) / 10 {
            proof {
                assert(decimal_value(next) > usize::MAX);
                if all_digits(digits) {
                    lemma_decimal_value_grows(digits, pos - first + 1);
                }
            }
            return None;
        }
        value = value * 10 + d;
        pos = pos + 1;
        proof {
            assert forall|i: int| 0 <= i < next.len() implies is_digit(#[trigger] next[i]) by {
                if i < seen.len() {
                    assert(next[i] == seen[i]);
                }
            }
        }
    }
    proof {
        assert(digits.subrange(0, pos - first) == digits);
    }
    Some(value)
}

/// The epoch that the entry name `name` records, if it is a checkpoint entry.
pub fn epoch_of_entry(name: &str) -> (r: Option<usize>)
    ensures
        match epoch_of_name(name@) {
            Some(n) => r == Some(n as usize),
            None => r is None,
        },
{
    let len = name.unicode_len();
    if len < 6 {
        return None;
    }
    let matches = name.get_char(0) == 'e' && name.get_char(1) == 'p' && name.get_char(2) == 'o'
        && name.get_char(3) == 'c' && name.get_char(4) == 'h' && name.get_char(5) == '-';
    proof {
        let head = name@.subrange(0, 6);
        if matches {
            assert(head == epoch_prefix());
        } else {
            assert(head[0] == name@[0] && head[1] == name@[1] && head[2] == name@[2] && head[3]
                == name@[3] && head[4] == name@[4] && head[5] == name@[5]);
            assert(epoch_prefix()[0] == 'e' && epoch_prefix()[1] == 'p' && epoch_prefix()[2] == 'o'
                && epoch_prefix()[3] == 'c' && epoch_prefix()[4] == 'h' && epoch_prefix()[5]
                == '-');
        }
    }
    if !matches {
        return None;
    }
    parse_number(name, 6)
}

/// The last completed epoch recorded in a listing of the training-history
/// directory: the greatest `N` among the entries named `epoch-<N>`, and 0
/// where there is none. Names of any other shape are passed over.
pub fn get_last_epoch(entries: &Vec<String>) -> (max_epoch: usize)
    ensures
        max_epoch == last_epoch_of(names_of(entries@)),
{
    let mut max_epoch: usize = 0;
    let mut i: usize = 0;
    while i < entries.len()
        invariant
            i <= entries.len(),
            max_epoch == last_epoch_of(names_of(entries@).subrange(0, i as int)),
        decreases entries.len() - i,
    {
        let ghost seen = names_of(entries@).subrange(0, i as int);
        let ghost next = names_of(entries@).subrange(0, i + 1);
        proof {
            assert(next.drop_last() == seen);
            assert(next.last() == entries@[i as int]@);
        }
        match epoch_of_entry(entries[i].as_str()) {
            Some(epoch) => {
                if epoch > max_epoch {
                    max_epoch = epoch;
                }
            },
            None => {},
        }
        i = i + 1;
    }
    proof {
        assert(names_of(entries@).subrange(0, i as int) == names_of(entries@));
    }
    max_epoch
}

} // verus!
