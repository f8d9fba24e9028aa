//! Version numbers, and what a look at the latest release means.  Fetching
//! the latest version and running the installer is the caller's part.

use vstd::prelude::*;
use vstd::string::StringExecFns;
use crate::text::chars_of;

verus! {

/// What a look at the latest release found.
#[derive(Debug, PartialEq, Eq)]
pub struct UpdateInfo {
    pub current_version: String,
    pub latest_version: String,
    pub has_update: bool,
    pub download_url: Option<String>,
}

/// What came of installing an update.
#[derive(Debug, PartialEq, Eq)]
pub struct UpdateResult {
    pub success: bool,
    pub message: String,
}

/// The version of this application.
pub fn get_current_version() -> (version: Result<String, String>)
    ensures
        version is Ok,
        version->Ok_0@ == "1.0.2"@,
{
    Ok(String::from_str("1.0.2"))
}

/// Whether a character is a decimal digit.
pub open spec fn is_digit(c: char) -> bool {
    '0' <= c <= '9'
}

/// The number that a run of decimal digits writes.
pub open spec fn digits_value(digits: Seq<char>) -> nat
    decreases digits.len(),
{
    if digits.len() == 0 {
        0
    } else {
        digits_value(digits.drop_last()) * 10 + (digits.last() as nat - '0' as nat) as nat
    }
}

/// A segment without the plus sign that may lead it.
pub open spec fn unsigned_part(segment: Seq<char>) -> Seq<char> {
    if segment.len() > 0 && segment[0] == '+' {
        segment.drop_first()
    } else {
        segment
    }
}

/// The number that a segment of a version writes: the segment is one or more
/// decimal digits, with or without a plus sign before them, and the number
/// fits in 32 bits.  Any other segment writes none.
pub open spec fn segment_number(segment: Seq<char>) -> Option<u32> {
    let digits = unsigned_part(segment);
    if digits.len() > 0 && (forall|i: int| 0 <= i < digits.len() ==> is_digit(#[trigger] digits[i]))
        && digits_value(digits) <= u32::MAX {
        Some(digits_value(digits) as u32)
    } else {
        None
    }
}

/// The segments of a text, which are what the dots part.  A text without a
/// dot is one segment.
pub open spec fn segments(text: Seq<char>) -> Seq<Seq<char>>
    decreases text.len(),
{
    if text.len() == 0 {
        seq![Seq::<char>::empty()]
    } else {
        let before = segments(text.drop_last());
        if text.last() == '.' {
            before.push(Seq::<char>::empty())
        } else {
            before.drop_last().push(before.last().push(text.last()))
        }
    }
}

/// The numbers that the given segments write, in order; a segment that
/// writes none is passed over.
pub open spec fn numbers_of(segments: Seq<Seq<char>>) -> Seq<u32>
    decreases segments.len(),
{
    if segments.len() == 0 {
        Seq::<u32>::empty()
    } else {
        match segment_number(segments.last()) {
            Some(number) => numbers_of(segments.drop_last()).push(number),
            None => numbers_of(segments.drop_last()),
        }
    }
}

/// The parts of a version: the numbers that its segments write.
pub open spec fn version_parts(version: Seq<char>) -> Seq<u32> {
    numbers_of(segments(version))
}

/// The part of a version at place `i`; a version counts as zero wherever it
/// has no part.
pub open spec fn part_at(parts: Seq<u32>, i: int) -> u32 {
    if 0 <= i < parts.len() {
        parts[i]
    } else {
        0
    }
}

/// Two lists of parts agree at every place below `n`.
pub open spec fn agree_below(a: Seq<u32>, b: Seq<u32>, n: int) -> bool {
    forall|i: int| 0 <= i < n ==> part_at(a, i) == part_at(b, i)
}

/// How `a` stands to `b`, part by part from the front: -1 if the first part
/// in which they differ is smaller in `a`, 1 if it is greater, 0 if they
/// differ in none.
pub open spec fn parts_order(a: Seq<u32>, b: Seq<u32>) -> int {
    if exists|i: int| 0 <= i && part_at(a, i) != part_at(b, i) {
        let first = choose|i: int|
            0 <= i && part_at(a, i) != part_at(b, i) && agree_below(a, b, i);
        if part_at(a, first) < part_at(b, first) {
            -1
        } else {
            1
        }
    } else {
        0
    }
}

/// A run of digits that gets longer writes no smaller a number.
proof fn lemma_digits_value_grows(digits: Seq<char>, c: char)
    ensures
        digits_value(digits.push(c)) >= digits_value(digits) * 10,
        is_digit(c) ==> digits_value(digits.push(c)) == digits_value(digits) * 10 + (c as nat
            - '0' as nat),
{
    assert(digits.push(c).drop_last() =~= digits);
}

/// The numbers that a version's segments write.
pub fn parse_version(version: &str) -> (parts: Vec<u32>)
    ensures
        parts@ == version_parts(version@),
{
    let text = chars_of(version);
    let mut parts: Vec<u32> = Vec::new();
    // the segment under way: whether a plus sign leads it, whether anything
    // follows the sign, whether all of that is digits, and their value
    let mut signed = false;
    let mut some = false;
    let mut clean = true;
    let mut fits = true;
    let mut value: u64 = 0;
    let ghost mut done: Seq<Seq<char>> = Seq::empty();
    let ghost mut current: Seq<char> = Seq::empty();
    let mut i: usize = 0;
    assert(text@.take(0) =~= Seq::<char>::empty());
    while i < text.len()
        invariant
            0 <= i <= text@.len(),
            segments(text@.take(i as int)) == done.push(current),
            parts@ == numbers_of(done),
            signed == (current.len() > 0 && current[0] == '+'),
            some == (unsigned_part(current).len() > 0),
            clean == (forall|j: int|
                0 <= j < unsigned_part(current).len() ==> is_digit(
                    #[trigger] unsigned_part(current)[j],
                )),
            clean ==> fits == (digits_value(unsigned_part(current)) <= u32::MAX),
            clean && fits ==> value == digits_value(unsigned_part(current)),
            value <= u32::MAX,
        decreases text@.len() - i,
    {
        let c = text[i];
        let ghost before = text@.take(i as int);
        let ghost digits = unsigned_part(current);
        proof {
            assert(text@.take(i + 1).drop_last() =~= before);
            assert(text@.take(i + 1).last() == c);
            assert(done.push(current).drop_last() =~= done);
            assert(done.push(current).last() == current);
        }
        if c == '.' {
            if some && clean && fits {
                parts.push(value as u32);
            }
            proof {
                assert(done.push(current).drop_last() =~= done);
                done = done.push(current);
                current = Seq::empty();
            }
            signed = false;
            some = false;
            clean = true;
            fits = true;
            value = 0;
        } else if !signed && !some && c == '+' {
            proof {
                assert(current.len() == 0);
                current = current.push(c);
                assert(unsigned_part(current) =~= Seq::<char>::empty());
            }
            signed = true;
        } else {
            proof {
                lemma_digits_value_grows(digits, c);
                let longer = current.push(c);
                assert(unsigned_part(longer) =~= digits.push(c));
                assert(forall|j: int|
                    0 <= j < digits.len() ==> digits.push(c)[j] == digits[j]);
                assert(digits.push(c)[digits.len() as int] == c);
                current = longer;
            }
            let digit = c >= '0' && c <= '9';
            if clean && digit {
                if fits {
                    let next: u64 = value * 10 + (c as u64 - '0' as u64);
                    if next <= u32::MAX as u64 {
                        value = next;
                    } else {
                        fits = false;
                    }
                }
            } else {
                clean = false;
            }
            some = true;
        }
        i = i + 1;
    }
    assert(text@.take(i as int) =~= text@);
    if some && clean && fits {
        parts.push(value as u32);
    }
    proof {
        assert(done.push(current).drop_last() =~= done);
    }
    parts
}

/// How the version `current` stands to the version `latest`: -1 if it is
/// older, 1 if it is newer, 0 if they are the same, going by their parts
/// from the front.
pub fn compare_versions(current: &str, latest: &str) -> (order: i32)
    ensures
        order == parts_order(version_parts(current@), version_parts(latest@)),
{
    let current_parts = parse_version(current);
    let latest_parts = parse_version(latest);
    let max_len = if current_parts.len() >= latest_parts.len() {
        current_parts.len()
    } else {
        latest_parts.len()
    };
    let ghost a = current_parts@;
    let ghost b = latest_parts@;
    let mut i: usize = 0;
    while i < max_len
        invariant
            0 <= i <= max_len,
            max_len >= a.len(),
            max_len >= b.len(),
            a == current_parts@,
            b == latest_parts@,
            a == version_parts(current@),
            b == version_parts(latest@),
            agree_below(a, b, i as int),
        decreases max_len - i,
    {
        let current_part = if i < current_parts.len() {
            current_parts[i]
        } else {
            0
        };
        let latest_part = if i < latest_parts.len() {
            latest_parts[i]
        } else {
            0
        };
        if current_part != latest_part {
            proof {
                assert(current_part == part_at(a, i as int));
                assert(latest_part == part_at(b, i as int));
                lemma_first_difference_decides(a, b, i as int);
            }
            if current_part < latest_part {
                return -1;
            } else {
                return 1;
            }
        }
        i = i + 1;
    }
    proof {
        assert forall|j: int| 0 <= j implies part_at(a, j) == part_at(b, j) by {
            if j >= max_len {
                assert(part_at(a, j) == 0 && part_at(b, j) == 0);
            }
        }
    }
    0
}

/// The first place in which two versions differ decides their order.
pub proof fn lemma_first_difference_decides(a: Seq<u32>, b: Seq<u32>, first: int)
    requires
        0 <= first,
        part_at(a, first) != part_at(b, first),
        agree_below(a, b, first),
    ensures
        parts_order(a, b) == if part_at(a, first) < part_at(b, first) {
            -1int
        } else {
            1int
        },
{
    let chosen = choose|i: int| 0 <= i && part_at(a, i) != part_at(b, i) && agree_below(a, b, i);
    // `first` is such a place, so the chosen one is one too, and two such
    // places cannot lie apart
    if chosen < first {
        assert(part_at(a, chosen) == part_at(b, chosen));
    } else if first < chosen {
        assert(part_at(a, first) == part_at(b, first));
    }
}

/// The address from which a release is downloaded.
pub open spec fn download_address(version: Seq<char>) -> Seq<char> {
    "https://github.com/xptea/VWisper3/releases/download/"@ + version + "/vwisper_"@ + version
        + "_x64-setup.exe"@
}

/// What the latest version means for this application: there is an update
/// if this version is older, and then it is downloaded from the release of
/// the latest version.
pub fn update_info(current_version: &str, latest_version: &str) -> (info: UpdateInfo)
    ensures
        info.current_version@ == current_version@,
        info.latest_version@ == latest_version@,
        info.has_update == (parts_order(
            version_parts(current_version@),
            version_parts(latest_version@),
        ) < 0),
        info.has_update ==> info.download_url is Some && info.download_url->0@
            == download_address(latest_version@),
        !info.has_update ==> info.download_url is None,
{
    let has_update = compare_versions(current_version, latest_version) < 0;
    let download_url = if has_update {
        let mut url = String::from_str("https://github.com/xptea/VWisper3/releases/download/");
        url.append(latest_version);
        url.append("/vwisper_");
        url.append(latest_version);
        url.append("_x64-setup.exe");
        Some(url)
    } else {
        None
    };
    UpdateInfo {
        current_version: String::from_str(current_version),
        latest_version: String::from_str(latest_version),
        has_update,
        download_url,
    }
}

/// Looks at what was fetched as the latest version: a version leads to the
/// update information for this application, a failure to fetch is handed on.
pub fn check_for_updates(fetched: Result<String, String>) -> (info: Result<UpdateInfo, String>)
    ensures
        fetched is Err ==> info is Err && info->Err_0@ == fetched->Err_0@,
        fetched is Ok ==> info is Ok && info->Ok_0.current_version@ == "1.0.2"@
            && info->Ok_0.latest_version@ == fetched->Ok_0@ && info->Ok_0.has_update == (
        parts_order(version_parts("1.0.2"@), version_parts(fetched->Ok_0@)) < 0) && (
        info->Ok_0.has_update ==> info->Ok_0.download_url is Some
            && info->Ok_0.download_url->0@ == download_address(fetched->Ok_0@)) && (
        !info->Ok_0.has_update ==> info->Ok_0.download_url is None),
{
    match fetched {
        Ok(latest_version) => Ok(update_info("1.0.2", latest_version.as_str())),
        Err(reason) => Err(reason),
    }
}

/// What is reported once the installer runs.
pub fn installer_started() -> (result: UpdateResult)
    ensures
        result.success,
        result.message@
            == "Update installer started successfully. The application will close and the installer will handle the update."@,
{
    UpdateResult {
        success: true,
        message: String::from_str(
            "Update installer started successfully. The application will close and the installer will handle the update.",
        ),
    }
}

/// No version is older or newer than itself, and turning two versions round
/// turns their order round.
pub proof fn lemma_order_is_antisymmetric(a: Seq<u32>, b: Seq<u32>)
    ensures
        parts_order(a, a) == 0,
        parts_order(a, b) == -parts_order(b, a),
{
    if exists|i: int| 0 <= i && part_at(a, i) != part_at(b, i) {
        let witness = choose|i: int| 0 <= i && part_at(a, i) != part_at(b, i);
        let first = lemma_first_difference_exists(a, b, witness);
        lemma_first_difference_decides(a, b, first);
        assert(agree_below(b, a, first));
        lemma_first_difference_decides(b, a, first);
    } else {
        assert(!exists|i: int| 0 <= i && part_at(b, i) != part_at(a, i)) by {
            if exists|i: int| 0 <= i && part_at(b, i) != part_at(a, i) {
                let j = choose|i: int| 0 <= i && part_at(b, i) != part_at(a, i);
                assert(part_at(a, j) != part_at(b, j));
            }
        }
    }
}

/// Where two versions differ at all, there is a first place in which they
/// do.
proof fn lemma_first_difference_exists(a: Seq<u32>, b: Seq<u32>, witness: int) -> (first: int)
    requires
        0 <= witness,
        part_at(a, witness) != part_at(b, witness),
    ensures
        0 <= first <= witness,
        part_at(a, first) != part_at(b, first),
        agree_below(a, b, first),
    decreases witness,
{
    if agree_below(a, b, witness) {
        witness
    } else {
        let earlier = choose|i: int| 0 <= i < witness && part_at(a, i) != part_at(b, i);
        lemma_first_difference_exists(a, b, earlier)
    }
}

} // verus!
