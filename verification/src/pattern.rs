//! Finding a window by its title.

use crate::error::CaptureError;
use regex::Regex;
use vstd::prelude::*;

verus! {

/// A compiled regex.
#[verifier::external_type_specification]
#[verifier::external_body]
pub struct ExRegex(regex::Regex);

/// The texts that a compiled regex matches somewhere.
pub uninterp spec fn regex_language(re: regex::Regex) -> Set<Seq<char>>;

/// The texts that the regex written as `pattern` matches somewhere.
pub uninterp spec fn pattern_language(pattern: Seq<char>) -> Set<Seq<char>>;

/// Whether `pattern` is a regex: whether it compiles but for the limit on its compiled size.
pub uninterp spec fn is_regex(pattern: Seq<char>) -> bool;

/// Whether an error says that a compiled regex would exceed the limit on its size.
pub uninterp spec fn exceeds_limit(e: regex::Error) -> bool;

/// `regex::Regex::new` compiles a pattern. Only a regex compiles, and what it compiles to matches
/// the texts that belong to the pattern. A regex that does not compile is one whose compiled form
/// would exceed a limit on its size in memory. Not said is which regexes those are: how much
/// memory one takes differs between machines.
pub assume_specification[ regex::Regex::new ](re: &str) -> (compiled: Result<Regex, regex::Error>)
    ensures
        compiled is Ok ==> is_regex(re@) && regex_language(compiled->Ok_0) == pattern_language(re@),
        compiled is Err ==> !is_regex(re@) || exceeds_limit(compiled->Err_0),
;

/// `regex::Regex::is_match` says whether there is a match for the regex anywhere in the text.
pub assume_specification[ regex::Regex::is_match ](re: &Regex, haystack: &str) -> (matched: bool)
    ensures
        matched == regex_language(*re).contains(haystack@),
;

/// `String::from_utf16_lossy` of std decodes UTF-16, with U+FFFD in place of every surrogate that
/// is not part of a pair.
pub assume_specification[ String::from_utf16_lossy ](v: &[u16]) -> (text: String)
    ensures
        text@ == utf16_text(v@),
;

/// The text that UTF-16 code units stand for, with U+FFFD in place of unpaired surrogates.
pub open spec fn utf16_text(units: Seq<u16>) -> Seq<char>
    decreases units.len(),
{
    if units.len() == 0 {
        Seq::empty()
    } else if units[0] < 0xD800 || units[0] > 0xDFFF {
        seq![units[0] as char] + utf16_text(units.skip(1))
    } else if units[0] < 0xDC00 && units.len() > 1 && 0xDC00 <= units[1] <= 0xDFFF {
        seq![(0x10000 + (units[0] - 0xD800) * 0x400 + (units[1] - 0xDC00)) as char] + utf16_text(
            units.skip(2),
        )
    } else {
        seq!['\u{FFFD}'] + utf16_text(units.skip(1))
    }
}

/// Whether an error is one that compiling `pattern` can give: the pattern is no regex, or it
/// compiles to more than the limit allows.
pub open spec fn refuses(e: CaptureError, pattern: Seq<char>) -> bool {
    e is BadWindowRegex && (!is_regex(pattern) || exceeds_limit(e->BadWindowRegex_0))
}

/// Compile the regex that a window's title has to match.
pub fn compile(pattern: &str) -> (compiled: Result<Regex, CaptureError>)
    ensures
        match compiled {
            Ok(re) => is_regex(pattern@) && regex_language(re) == pattern_language(pattern@),
            Err(e) => refuses(e, pattern@),
        },
{
    match Regex::new(pattern) {
        Ok(re) => Ok(re),
        Err(e) => Err(CaptureError::BadWindowRegex(e)),
    }
}

/// The position of the first flag that is set.
pub open spec fn first_set(flags: Seq<bool>) -> Option<int>
    decreases flags.len(),
{
    if flags.len() == 0 {
        None
    } else {
        match first_set(flags.drop_last()) {
            Some(i) => Some(i),
            None => if flags.last() {
                Some(flags.len() - 1)
            } else {
                None
            },
        }
    }
}

/// The first flag that is set is set, and no flag before it is; without one none is set.
pub proof fn law_first_set(flags: Seq<bool>)
    ensures
        match first_set(flags) {
            Some(i) => {
                &&& 0 <= i < flags.len()
                &&& flags[i]
                &&& forall|j: int| 0 <= j < i ==> !(#[trigger] flags[j])
            },
            None => forall|j: int| 0 <= j < flags.len() ==> !(#[trigger] flags[j]),
        },
    decreases flags.len(),
{
    if flags.len() > 0 {
        let front = flags.drop_last();
        law_first_set(front);
        assert forall|j: int| 0 <= j < front.len() implies front[j] == #[trigger] flags[j] by {}
    }
}

/// The position of the first flag that is set.
pub fn first_flagged(flags: &Vec<bool>) -> (first: Option<usize>)
    ensures
        match first_set(flags@) {
            Some(i) => first is Some && first->0 == i,
            None => first is None,
        },
        first is Some ==> first->0 < flags@.len(),
{
    let mut i: usize = 0;
    while i < flags.len()
        invariant
            i <= flags@.len(),
            forall|j: int| 0 <= j < i ==> !(#[trigger] flags@[j]),
        decreases flags@.len() - i,
    {
        if flags[i] {
            proof {
                law_first_set(flags@);
            }
            return Some(i);
        }
        i = i + 1;
    }
    proof {
        law_first_set(flags@);
    }
    None
}

/// The position of the first flag: it is set, none before it is, and without one none is set at all.
pub proof fn law_first_flag(flags: &Vec<bool>, first: Option<usize>)
    requires
        call_ensures(first_flagged, (flags,), first),
    ensures
        first is Some ==> first->0 < flags@.len() && flags@[first->0 as int],
        forall|j: int|
            0 <= j < flags@.len() && (first is Some ==> j < first->0) ==> !(#[trigger] flags@[j]),
{
    law_first_set(flags@);
}

/// Compiling gives a regex that matches what the pattern stands for, and fails only for a pattern
/// that is no regex or that compiles to too much.
pub proof fn law_compiled_patterns(pattern: &str, compiled: Result<Regex, CaptureError>)
    requires
        call_ensures(compile, (pattern,), compiled),
    ensures
        compiled is Ok ==> is_regex(pattern@) && regex_language(compiled->Ok_0) == pattern_language(
            pattern@,
        ),
        compiled is Err ==> compiled->Err_0 is BadWindowRegex && (!is_regex(pattern@)
            || exceeds_limit(compiled->Err_0->BadWindowRegex_0)),
{
}

/// Units that are no surrogates are characters by themselves, and none of them is lost.
pub proof fn law_text_of_plain_units(units: Seq<u16>)
    requires
        forall|i: int|
            0 <= i < units.len() ==> (#[trigger] units[i]) < 0xD800 || units[i] > 0xDFFF,
    ensures
        utf16_text(units).len() == units.len(),
        forall|i: int|
            0 <= i < units.len() ==> (#[trigger] utf16_text(units)[i]) as int == units[i],
    decreases units.len(),
{
    if units.len() > 0 {
        let rest = units.skip(1);
        assert(units[0] < 0xD800 || units[0] > 0xDFFF);
        assert forall|i: int| 0 <= i < rest.len() implies (#[trigger] rest[i]) < 0xD800 || rest[i]
            > 0xDFFF by {
            assert(rest[i] == units[i + 1]);
        }
        law_text_of_plain_units(rest);
        assert forall|i: int| 0 <= i < units.len() implies (
        #[trigger] utf16_text(units)[i]) as int == units[i] by {
            if i > 0 {
                assert(utf16_text(units)[i] == utf16_text(rest)[i - 1]);
                assert(rest[i - 1] == units[i]);
            }
        }
    }
}

/// A surrogate pair is one character, above those that a single unit can say; a surrogate by itself
/// is the replacement character.
pub proof fn law_text_of_surrogates(high: u16, low: u16, lone: u16)
    requires
        0xD800 <= high < 0xDC00,
        0xDC00 <= low <= 0xDFFF,
        0xD800 <= lone <= 0xDFFF,
    ensures
        utf16_text(seq![high, low]).len() == 1,
        utf16_text(seq![high, low])[0] as int == 0x10000 + (high - 0xD800) * 0x400 + (low - 0xDC00),
        utf16_text(seq![lone]) == seq!['\u{FFFD}'],
{
    reveal_with_fuel(utf16_text, 2);
    assert(seq![high, low].skip(2) =~= Seq::<u16>::empty());
    assert(seq![lone].skip(1) =~= Seq::<u16>::empty());
}

/// The text of units is that of their parts, one after the other, unless a pair is parted.
pub proof fn law_texts_join(a: Seq<u16>, b: Seq<u16>)
    requires
        a.len() > 0 && b.len() > 0 ==> !(0xD800 <= a.last() < 0xDC00 && 0xDC00 <= b[0] <= 0xDFFF),
    ensures
        utf16_text(a + b) == utf16_text(a) + utf16_text(b),
    decreases a.len(),
{
    if a.len() == 0 {
        assert(a + b =~= b);
        assert(utf16_text(a) + utf16_text(b) =~= utf16_text(b));
    } else {
        let n = if 0xD800 <= a[0] < 0xDC00 && a.len() > 1 && 0xDC00 <= a[1] <= 0xDFFF {
            2int
        } else {
            1int
        };
        let rest = a.skip(n);
        assert((a + b).skip(n) =~= rest + b);
        if rest.len() > 0 {
            assert(rest.last() == a.last());
        }
        law_texts_join(rest, b);
        assert(utf16_text(a + b) =~= utf16_text(a) + utf16_text(b));
    }
}

} // verus!
