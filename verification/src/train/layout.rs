//! Where a run keeps its artifacts.
//!
//! Under the artifact directory `D` lie `D/config.json`, the configuration
//! record; `D/model`, the trained model; and `D/train/`, the training
//! history, with one entry `D/train/epoch-<N>` per completed epoch.

use crate::train::checkpoint::{decimal_digits, digit_char, name_of_epoch};
use vstd::prelude::*;
use vstd::string::*;

verus! {

/// The path of the configuration record under `dir`.
pub open spec fn config_path_of(dir: Seq<char>) -> Seq<char> {
    dir + "/config.json"@
}

/// The path of the trained model under `dir`.
pub open spec fn model_path_of(dir: Seq<char>) -> Seq<char> {
    dir + "/model"@
}

/// The path of the training-history directory under `dir`.
pub open spec fn history_path_of(dir: Seq<char>) -> Seq<char> {
    dir + "/train"@
}

/// The path of the checkpoint entry of epoch `n` under `dir`.
pub open spec fn checkpoint_path_of(dir: Seq<char>, n: nat) -> Seq<char> {
    dir + "/train/"@ + name_of_epoch(n)
}

/// The text of one decimal digit.
fn digit_text(d: usize) -> (text: &'static str)
    requires
        d < 10,
    ensures
        text@ == seq![digit_char(d as nat)],
{
    proof {
        reveal_strlit("0");
        reveal_strlit("1");
        reveal_strlit("2");
        reveal_strlit("3");
        reveal_strlit("4");
        reveal_strlit("5");
        reveal_strlit("6");
        reveal_strlit("7");
        reveal_strlit("8");
        reveal_strlit("9");
    }
    let text = if d == 0 {
        "0"
    } else if d == 1 {
        "1"
    } else if d == 2 {
        "2"
    } else if d == 3 {
        "3"
    } else if d == 4 {
        "4"
    } else if d == 5 {
        "5"
    } else if d == 6 {
        "6"
    } else if d == 7 {
        "7"
    } else if d == 8 {
        "8"
    } else {
        "9"
    };
    proof {
        assert(text@.len() == 1);
        assert(text@[0] == digit_char(d as nat));
        assert(text@ == seq![digit_char(d as nat)]);
    }
    text
}

/// Appends the shortest decimal writing of `n` to `text`.
fn append_decimal(text: &mut String, n: usize)
    ensures
        final(text)@ == old(text)@ + decimal_digits(n as nat),
    decreases n,
{
    if n < 10 {
        text.append(digit_text(n));
    } else {
        append_decimal(text, n / 10);
        text.append(digit_text(n % 10));
        proof {
            let head = decimal_digits((n / 10) as nat);
            let last = seq![digit_char((n % 10) as nat)];
            assert(decimal_digits(n as nat) == head + last);
            assert(old(text)@ + head + last == old(text)@ + (head + last));
        }
    }
}

/// The name of the checkpoint entry of epoch `n`: `epoch-<n>`.
pub fn epoch_name(n: usize) -> (name: String)
    ensures
        name@ == name_of_epoch(n as nat),
{
    proof {
        reveal_strlit("epoch-");
    }
    let mut name = String::from_str("epoch-");
    proof {
        assert(name@ == crate::train::checkpoint::epoch_prefix());
    }
    append_decimal(&mut name, n);
    name
}

/// The path of the configuration record under `dir`.
pub fn config_path(dir: &str) -> (path: String)
    ensures
        path@ == config_path_of(dir@),
{
    let mut path = String::from_str(dir);
    path.append("/config.json");
    path
}

/// The path of the trained model under `dir`.
pub fn model_path(dir: &str) -> (path: String)
    ensures
        path@ == model_path_of(dir@),
{
    let mut path = String::from_str(dir);
    path.append("/model");
    path
}

/// The path of the training-history directory under `dir`.
pub fn history_path(dir: &str) -> (path: String)
    ensures
        path@ == history_path_of(dir@),
{
    let mut path = String::from_str(dir);
    path.append("/train");
    path
}

/// The path of the checkpoint entry of epoch `n` under `dir`.
pub fn checkpoint_path(dir: &str, n: usize) -> (path: String)
    ensures
        path@ == checkpoint_path_of(dir@, n as nat),
{
    proof {
        reveal_strlit("epoch-");
    }
    let mut path = String::from_str(dir);
    path.append("/train/");
    path.append("epoch-");
    proof {
        assert("epoch-"@ == crate::train::checkpoint::epoch_prefix());
    }
    append_decimal(&mut path, n);
    proof {
        assert(path@ == dir@ + "/train/"@ + (crate::train::checkpoint::epoch_prefix()
            + decimal_digits(n as nat)));
    }
    path
}

} // verus!
