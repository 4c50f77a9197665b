//! Where the clip of a symbol lives: one file per index, named by the index
//! in decimal, padded with a zero to two digits.

use vstd::prelude::*;
use vstd::string::StringExecFns;
use crate::error::AudioError;
use crate::symbols::{get_zhuyin_index, resolve};

verus! {

/// Directory of the clips that are played.
pub const AUDIO_DIR: &'static str = "assets/audio";

/// Directory that keeps the first version of each clip that was replaced.
pub const ORIGINALS_DIR: &'static str = "assets/audio_originals";

/// Extension of a clip's file name, with its dot.
pub const AUDIO_EXTENSION: &'static str = ".mp3";

/// The character of the decimal digit `d`.
pub open spec fn digit(d: nat) -> char
    recommends
        d < 10,
{
    ('0' as nat + d) as char
}

/// `n` in decimal, without leading zeros.
pub open spec fn decimal(n: nat) -> Seq<char>
    decreases n,
{
    if n < 10 {
        seq![digit(n)]
    } else {
        decimal(n / 10).push(digit(n % 10))
    }
}

/// `index` in decimal, with a leading zero where it has one digit only.
pub open spec fn two_digits(index: nat) -> Seq<char> {
    if index < 10 {
        seq!['0'] + decimal(index)
    } else {
        decimal(index)
    }
}

/// Name of the clip file of `index`.
pub open spec fn file_name(index: nat) -> Seq<char> {
    two_digits(index) + AUDIO_EXTENSION@
}

/// Location of the file of `index` inside the directory `dir`.
pub open spec fn location_in(dir: Seq<char>, index: nat) -> Seq<char> {
    dir + seq!['/'] + file_name(index)
}

fn digit_str(d: usize) -> (s: &'static str)
    requires
        d < 10,
    ensures
        s@ == seq![digit(d as nat)],
{
    proof {
        reveal_strlit("0");
        reveal_strlit("1");
        reveal_strlit("2");
        reveal_strlit("3");
        reveal_strlit("4");
        reveal_strlit("5");
        reveal_strlit("6");
        reveal_strlit("7");
        reveal_strlit("8");
        reveal_strlit("9");
    }
    let s = match d {
        0 => "0",
        1 => "1",
        2 => "2",
        3 => "3",
        4 => "4",
        5 => "5",
        6 => "6",
        7 => "7",
        8 => "8",
        _ => "9",
    };
    assert(s@ =~= seq![digit(d as nat)]);
    s
}

/// Name of the clip file of `index`: `01.mp3` for 1, `37.mp3` for 37.
pub fn asset_file_name(index: usize) -> (name: String)
    ensures
        name@ == file_name(index as nat),
{
    let mut digits = String::from_str(digit_str(index % 10));
    let mut rest: usize = index / 10;
    while rest > 0
        invariant
            rest > 0 ==> decimal(index as nat) == decimal(rest as nat) + digits@,
            rest == 0 ==> decimal(index as nat) == digits@,
        decreases rest,
    {
        let d: usize = rest % 10;
        let ghost before = digits@;
        digits = String::from_str(digit_str(d)).concat(digits.as_str());
        proof {
            assert(digits@ == seq![digit(d as nat)] + before);
            if rest < 10 {
                assert(decimal(rest as nat) == seq![digit(d as nat)]);
            } else {
                assert(decimal(rest as nat) == decimal((rest / 10) as nat).push(digit(d as nat)));
                assert(decimal(index as nat) =~= decimal((rest / 10) as nat) + digits@);
            }
        }
        rest = rest / 10;
    }
    let mut name = String::new();
    if index < 10 {
        proof {
            reveal_strlit("0");
        }
        name.append("0");
    }
    name.append(digits.as_str());
    name.append(AUDIO_EXTENSION);
    assert(name@ =~= file_name(index as nat));
    name
}

/// Location of the clip of `index` among the clips that are played.
pub fn asset_location(index: usize) -> (location: String)
    ensures
        location@ == location_in(AUDIO_DIR@, index as nat),
{
    let mut location = String::from_str(AUDIO_DIR);
    proof {
        reveal_strlit("/");
    }
    location.append("/");
    location.append(asset_file_name(index).as_str());
    assert(location@ =~= location_in(AUDIO_DIR@, index as nat));
    location
}

/// Location at which the first version of the clip of `index` is kept.
pub fn backup_location(index: usize) -> (location: String)
    ensures
        location@ == location_in(ORIGINALS_DIR@, index as nat),
{
    let mut location = String::from_str(ORIGINALS_DIR);
    proof {
        reveal_strlit("/");
    }
    location.append("/");
    location.append(asset_file_name(index).as_str());
    assert(location@ =~= location_in(ORIGINALS_DIR@, index as nat));
    location
}

/// The two places that the clip of one symbol takes up on disk.
#[derive(Debug, PartialEq, Eq)]
pub struct ClipSlot {
    /// Where the clip that is played lives.
    pub target: String,
    /// Where the first version of the clip is kept once it was replaced.
    pub backup: String,
}

/// The places of the clip of `symbol`; a token outside the alphabet has none.
pub fn clip_slot(symbol: &str) -> (slot: Result<ClipSlot, AudioError>)
    ensures
        match resolve(symbol@) {
            Some(index) => slot matches Ok(places) && places.target@ == location_in(AUDIO_DIR@, index)
                && places.backup@ == location_in(ORIGINALS_DIR@, index),
            None => slot == Err::<ClipSlot, AudioError>(AudioError::InvalidSymbol),
        },
{
    match get_zhuyin_index(symbol) {
        Some(index) => Ok(
            ClipSlot { target: asset_location(index), backup: backup_location(index) },
        ),
        None => Err(AudioError::InvalidSymbol),
    }
}

/// Whether the clip in place is to be copied to the originals before a new
/// one takes its place: it is the first version exactly when a clip is in
/// place and none was kept yet.
pub fn backup_needed(target_exists: bool, backup_exists: bool) -> (needed: bool)
    ensures
        needed == (target_exists && !backup_exists),
{
    target_exists && !backup_exists
}

/// The number that a sequence of decimal digits writes.
spec fn decimal_value(digits: Seq<char>) -> nat
    decreases digits.len(),
{
    if digits.len() == 0 {
        0
    } else {
        (decimal_value(digits.drop_last()) * 10 + (digits.last() as nat - '0' as nat)) as nat
    }
}

proof fn lemma_decimal_value(n: nat)
    ensures
        decimal_value(decimal(n)) == n,
        decimal_value(two_digits(n)) == n,
    decreases n,
{
    if n < 10 {
        let empty = Seq::<char>::empty();
        assert(decimal_value(empty) == 0);
        assert(decimal(n).drop_last() =~= empty);
        assert(seq!['0'].drop_last() =~= empty);
        assert(decimal_value(seq!['0']) == 0);
        assert((seq!['0'] + decimal(n)).drop_last() =~= seq!['0']);
    } else {
        lemma_decimal_value(n / 10);
        assert(decimal(n).drop_last() =~= decimal(n / 10));
    }
}

/// Every index has a file name of its own: two different indices never share
/// a clip file.
pub proof fn lemma_file_names_differ(first: nat, second: nat)
    requires
        first != second,
    ensures
        file_name(first) != file_name(second),
        forall|dir: Seq<char>| location_in(dir, first) != location_in(dir, second),
{
    lemma_decimal_value(first);
    lemma_decimal_value(second);
    let a = two_digits(first);
    let b = two_digits(second);
    let extension = AUDIO_EXTENSION@;
    if file_name(first) == file_name(second) {
        assert(a.len() == b.len());
        assert(a =~= file_name(first).subrange(0, a.len() as int));
        assert(b =~= file_name(second).subrange(0, b.len() as int));
    }
    assert forall|dir: Seq<char>| location_in(dir, first) != location_in(dir, second) by {
        let prefix = dir + seq!['/'];
        if location_in(dir, first) == location_in(dir, second) {
            let whole = location_in(dir, first);
            assert(file_name(first) =~= whole.subrange(prefix.len() as int, whole.len() as int));
            assert(file_name(second) =~= whole.subrange(prefix.len() as int, whole.len() as int));
        }
    }
}

} // verus!
