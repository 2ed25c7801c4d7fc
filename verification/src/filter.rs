//! Word filters applied to extracted words before they enter the word
//! store: unicode transformations through outside crates, case mapping, and
//! selection by character class.

use vstd::prelude::*;
use vstd::string::StrSliceExecFns;

verus! {

/// Relies on char::is_numeric: whether a character has a Unicode numeric
/// property, a function of the character alone.
pub uninterp spec fn is_numeric_char(c: char) -> bool;

/// Relies on char::is_lowercase: whether a character is Unicode lowercase,
/// a function of the character alone.
pub uninterp spec fn is_lowercase_char(c: char) -> bool;

/// Relies on char::is_uppercase: whether a character is Unicode uppercase,
/// a function of the character alone.
pub uninterp spec fn is_uppercase_char(c: char) -> bool;

/// Whether a character lies in the ASCII range.
pub open spec fn is_ascii_char(c: char) -> bool {
    c as u32 <= 127
}

pub assume_specification[ char::is_numeric ](c: char) -> (r: bool)
    ensures
        r == is_numeric_char(c),
;

pub assume_specification[ char::is_lowercase ](c: char) -> (r: bool)
    ensures
        r == is_lowercase_char(c),
;

pub assume_specification[ char::is_uppercase ](c: char) -> (r: bool)
    ensures
        r == is_uppercase_char(c),
;

pub assume_specification[ char::is_ascii ](c: &char) -> (r: bool)
    ensures
        r == is_ascii_char(*c),
;

/// Relies on str::to_lowercase: the Unicode lowercase mapping of a string,
/// a function of its characters alone.
pub uninterp spec fn lower_of(s: Seq<char>) -> Seq<char>;

/// Relies on str::to_uppercase: the Unicode uppercase mapping of a string,
/// a function of its characters alone.
pub uninterp spec fn upper_of(s: Seq<char>) -> Seq<char>;

pub assume_specification[ str::to_lowercase ](s: &str) -> (r: String)
    ensures
        r@ == lower_of(s@),
;

pub assume_specification[ str::to_uppercase ](s: &str) -> (r: String)
    ensures
        r@ == upper_of(s@),
;

/// Relies on deunicode::deunicode: the ASCII transliteration of a string, a
/// function of its characters alone.
pub uninterp spec fn deunicoded(s: Seq<char>) -> Seq<char>;

/// Relies on deunicode::deunicode (see `deunicoded`).
#[verifier::external_body]
fn deunicode_str(s: &str) -> (r: String)
    ensures
        r@ == deunicoded(s@),
{
    deunicode::deunicode(s)
}

/// Relies on decancer::cure with default options: the cured form of a
/// string, or None where the text is malformed beyond curing, a function of
/// its characters alone.
pub uninterp spec fn cured(s: Seq<char>) -> Option<Seq<char>>;

/// Relies on decancer::cure (see `cured`).
#[verifier::external_body]
fn cure_str(s: &str) -> (r: Option<String>)
    ensures
        match r {
            Some(o) => cured(s@) == Some(o@),
            None => cured(s@) is None,
        },
{
    match decancer::cure(s, decancer::Options::default()) {
        Ok(o) => Some(o.to_string()),
        Err(_) => None,
    }
}

/// Whether every character of the string is numeric; true of the empty
/// string.
pub open spec fn all_numeric(s: Seq<char>) -> bool {
    forall|i: int| 0 <= i < s.len() ==> is_numeric_char(#[trigger] s[i])
}

/// Whether some character of the string is numeric.
pub open spec fn any_numeric(s: Seq<char>) -> bool {
    exists|i: int| 0 <= i < s.len() && is_numeric_char(#[trigger] s[i])
}

/// Whether every character of the string is ASCII; true of the empty
/// string.
pub open spec fn all_ascii(s: Seq<char>) -> bool {
    forall|i: int| 0 <= i < s.len() ==> is_ascii_char(#[trigger] s[i])
}

/// Whether some character of the string is ASCII.
pub open spec fn any_ascii(s: Seq<char>) -> bool {
    exists|i: int| 0 <= i < s.len() && is_ascii_char(#[trigger] s[i])
}

/// Whether every character of the string is lowercase; true of the empty
/// string.
pub open spec fn all_lowercase(s: Seq<char>) -> bool {
    forall|i: int| 0 <= i < s.len() ==> is_lowercase_char(#[trigger] s[i])
}

/// Whether some character of the string is lowercase.
pub open spec fn any_lowercase(s: Seq<char>) -> bool {
    exists|i: int| 0 <= i < s.len() && is_lowercase_char(#[trigger] s[i])
}

/// Whether every character of the string is uppercase; true of the empty
/// string.
pub open spec fn all_uppercase(s: Seq<char>) -> bool {
    forall|i: int| 0 <= i < s.len() ==> is_uppercase_char(#[trigger] s[i])
}

/// Whether some character of the string is uppercase.
pub open spec fn any_uppercase(s: Seq<char>) -> bool {
    exists|i: int| 0 <= i < s.len() && is_uppercase_char(#[trigger] s[i])
}

/// Whether the vector holds the given value.
fn vec_bool_has(v: &Vec<bool>, target: bool) -> (r: bool)
    ensures
        r == v@.contains(target),
{
    let n = v.len();
    let mut i: usize = 0;
    while i < n
        invariant
            n == v@.len(),
            i <= n,
            forall|j: int| 0 <= j < i ==> v@[j] != target,
        decreases n - i,
    {
        if v[i] == target {
            return true;
        }
        i += 1;
    }
    proof {
        if v@.contains(target) {
            let j = choose|j: int| 0 <= j < n && v@[j] == target;
        }
    }
    false
}

/// One flag per character of the string, true where the character is
/// numeric.
pub fn flag_numeric_chars(s: &String) -> (r: Vec<bool>)
    ensures
        r@ == s@.map_values(|c: char| is_numeric_char(c)),
{
    let n = s.as_str().unicode_len();
    let mut out: Vec<bool> = Vec::new();
    let mut i: usize = 0;
    while i < n
        invariant
            n == s@.len(),
            i <= n,
            out@.len() == i,
            forall|j: int| 0 <= j < i ==> out@[j] == is_numeric_char(s@[j]),
        decreases n - i,
    {
        out.push(s.as_str().get_char(i).is_numeric());
        i += 1;
    }
    proof {
        assert(out@ =~= s@.map_values(|c: char| is_numeric_char(c)));
    }
    out
}

/// One flag per character of the string, true where the character is ASCII.
pub fn flag_ascii_chars(s: &String) -> (r: Vec<bool>)
    ensures
        r@ == s@.map_values(|c: char| is_ascii_char(c)),
{
    let n = s.as_str().unicode_len();
    let mut out: Vec<bool> = Vec::new();
    let mut i: usize = 0;
    while i < n
        invariant
            n == s@.len(),
            i <= n,
            out@.len() == i,
            forall|j: int| 0 <= j < i ==> out@[j] == is_ascii_char(s@[j]),
        decreases n - i,
    {
        out.push(s.as_str().get_char(i).is_ascii());
        i += 1;
    }
    proof {
        assert(out@ =~= s@.map_values(|c: char| is_ascii_char(c)));
    }
    out
}

/// One flag per character of the string, true where the character is
/// lowercase.
pub fn flag_lowercase_chars(s: &String) -> (r: Vec<bool>)
    ensures
        r@ == s@.map_values(|c: char| is_lowercase_char(c)),
{
    let n = s.as_str().unicode_len();
    let mut out: Vec<bool> = Vec::new();
    let mut i: usize = 0;
    while i < n
        invariant
            n == s@.len(),
            i <= n,
            out@.len() == i,
            forall|j: int| 0 <= j < i ==> out@[j] == is_lowercase_char(s@[j]),
        decreases n - i,
    {
        out.push(s.as_str().get_char(i).is_lowercase());
        i += 1;
    }
    proof {
        assert(out@ =~= s@.map_values(|c: char| is_lowercase_char(c)));
    }
    out
}

/// One flag per character of the string, true where the character is
/// uppercase.
pub fn flag_uppercase_chars(s: &String) -> (r: Vec<bool>)
    ensures
        r@ == s@.map_values(|c: char| is_uppercase_char(c)),
{
    let n = s.as_str().unicode_len();
    let mut out: Vec<bool> = Vec::new();
    let mut i: usize = 0;
    while i < n
        invariant
            n == s@.len(),
            i <= n,
            out@.len() == i,
            forall|j: int| 0 <= j < i ==> out@[j] == is_uppercase_char(s@[j]),
        decreases n - i,
    {
        out.push(s.as_str().get_char(i).is_uppercase());
        i += 1;
    }
    proof {
        assert(out@ =~= s@.map_values(|c: char| is_uppercase_char(c)));
    }
    out
}


/// Clears the word if it consists only of numbers.
pub fn ignore_all_numeric(s: &mut String)
    ensures
        final(s)@ == (if all_numeric(old(s)@) {
            Seq::<char>::empty()
        } else {
            old(s)@
        }),
{
    let flags = flag_numeric_chars(s);
    proof {
        if flags@.contains(false) {
            let j = choose|j: int| 0 <= j < flags@.len() && flags@[j] == false;
            assert(flags@[j] == is_numeric_char(s@[j]));
        }
        if !all_numeric(s@) {
            let j = choose|j: int| 0 <= j < s@.len() && !is_numeric_char(s@[j]);
            assert(flags@[j] == is_numeric_char(s@[j]));
        }
        if flags@.contains(true) {
            let j = choose|j: int| 0 <= j < flags@.len() && flags@[j] == true;
            assert(flags@[j] == is_numeric_char(s@[j]));
        }
        if any_numeric(s@) {
            let j = choose|j: int| 0 <= j < s@.len() && is_numeric_char(s@[j]);
            assert(flags@[j] == is_numeric_char(s@[j]));
        }
    }
    if !vec_bool_has(&flags, false) {
        *s = String::new();
    }
}

/// Clears the word if it contains any numbers character.
pub fn ignore_any_numeric(s: &mut String)
    ensures
        final(s)@ == (if any_numeric(old(s)@) {
            Seq::<char>::empty()
        } else {
            old(s)@
        }),
{
    let flags = flag_numeric_chars(s);
    proof {
        if flags@.contains(false) {
            let j = choose|j: int| 0 <= j < flags@.len() && flags@[j] == false;
            assert(flags@[j] == is_numeric_char(s@[j]));
        }
        if !all_numeric(s@) {
            let j = choose|j: int| 0 <= j < s@.len() && !is_numeric_char(s@[j]);
            assert(flags@[j] == is_numeric_char(s@[j]));
        }
        if flags@.contains(true) {
            let j = choose|j: int| 0 <= j < flags@.len() && flags@[j] == true;
            assert(flags@[j] == is_numeric_char(s@[j]));
        }
        if any_numeric(s@) {
            let j = choose|j: int| 0 <= j < s@.len() && is_numeric_char(s@[j]);
            assert(flags@[j] == is_numeric_char(s@[j]));
        }
    }
    if vec_bool_has(&flags, true) {
        *s = String::new();
    }
}

/// Clears the word if it contains no numbers character.
pub fn ignore_no_numeric(s: &mut String)
    ensures
        final(s)@ == (if !any_numeric(old(s)@) {
            Seq::<char>::empty()
        } else {
            old(s)@
        }),
{
    let flags = flag_numeric_chars(s);
    proof {
        if flags@.contains(false) {
            let j = choose|j: int| 0 <= j < flags@.len() && flags@[j] == false;
            assert(flags@[j] == is_numeric_char(s@[j]));
        }
        if !all_numeric(s@) {
            let j = choose|j: int| 0 <= j < s@.len() && !is_numeric_char(s@[j]);
            assert(flags@[j] == is_numeric_char(s@[j]));
        }
        if flags@.contains(true) {
            let j = choose|j: int| 0 <= j < flags@.len() && flags@[j] == true;
            assert(flags@[j] == is_numeric_char(s@[j]));
        }
        if any_numeric(s@) {
            let j = choose|j: int| 0 <= j < s@.len() && is_numeric_char(s@[j]);
            assert(flags@[j] == is_numeric_char(s@[j]));
        }
    }
    if !vec_bool_has(&flags, true) {
        *s = String::new();
    }
}

/// Keeps the word only if it consists exclusively of numbers.
pub fn keep_only_numeric(s: &mut String)
    ensures
        final(s)@ == (if all_numeric(old(s)@) {
            old(s)@
        } else {
            Seq::<char>::empty()
        }),
{
    let flags = flag_numeric_chars(s);
    proof {
        if flags@.contains(false) {
            let j = choose|j: int| 0 <= j < flags@.len() && flags@[j] == false;
            assert(flags@[j] == is_numeric_char(s@[j]));
        }
        if !all_numeric(s@) {
            let j = choose|j: int| 0 <= j < s@.len() && !is_numeric_char(s@[j]);
            assert(flags@[j] == is_numeric_char(s@[j]));
        }
        if flags@.contains(true) {
            let j = choose|j: int| 0 <= j < flags@.len() && flags@[j] == true;
            assert(flags@[j] == is_numeric_char(s@[j]));
        }
        if any_numeric(s@) {
            let j = choose|j: int| 0 <= j < s@.len() && is_numeric_char(s@[j]);
            assert(flags@[j] == is_numeric_char(s@[j]));
        }
    }
    if vec_bool_has(&flags, false) {
        *s = String::new();
    }
}

/// Clears the word if it consists only of ascii characters.
pub fn ignore_all_ascii(s: &mut String)
    ensures
        final(s)@ == (if all_ascii(old(s)@) {
            Seq::<char>::empty()
        } else {
            old(s)@
        }),
{
    let flags = flag_ascii_chars(s);
    proof {
        if flags@.contains(false) {
            let j = choose|j: int| 0 <= j < flags@.len() && flags@[j] == false;
            assert(flags@[j] == is_ascii_char(s@[j]));
        }
        if !all_ascii(s@) {
            let j = choose|j: int| 0 <= j < s@.len() && !is_ascii_char(s@[j]);
            assert(flags@[j] == is_ascii_char(s@[j]));
        }
        if flags@.contains(true) {
            let j = choose|j: int| 0 <= j < flags@.len() && flags@[j] == true;
            assert(flags@[j] == is_ascii_char(s@[j]));
        }
        if any_ascii(s@) {
            let j = choose|j: int| 0 <= j < s@.len() && is_ascii_char(s@[j]);
            assert(flags@[j] == is_ascii_char(s@[j]));
        }
    }
    if !vec_bool_has(&flags, false) {
        *s = String::new();
    }
}

/// Clears the word if it contains any ascii character.
pub fn ignore_any_ascii(s: &mut String)
    ensures
        final(s)@ == (if any_ascii(old(s)@) {
            Seq::<char>::empty()
        } else {
            old(s)@
        }),
{
    let flags = flag_ascii_chars(s);
    proof {
        if flags@.contains(false) {
            let j = choose|j: int| 0 <= j < flags@.len() && flags@[j] == false;
            assert(flags@[j] == is_ascii_char(s@[j]));
        }
        if !all_ascii(s@) {
            let j = choose|j: int| 0 <= j < s@.len() && !is_ascii_char(s@[j]);
            assert(flags@[j] == is_ascii_char(s@[j]));
        }
        if flags@.contains(true) {
            let j = choose|j: int| 0 <= j < flags@.len() && flags@[j] == true;
            assert(flags@[j] == is_ascii_char(s@[j]));
        }
        if any_ascii(s@) {
            let j = choose|j: int| 0 <= j < s@.len() && is_ascii_char(s@[j]);
            assert(flags@[j] == is_ascii_char(s@[j]));
        }
    }
    if vec_bool_has(&flags, true) {
        *s = String::new();
    }
}

/// Clears the word if it contains no ascii character.
pub fn ignore_no_ascii(s: &mut String)
    ensures
        final(s)@ == (if !any_ascii(old(s)@) {
            Seq::<char>::empty()
        } else {
            old(s)@
        }),
{
    let flags = flag_ascii_chars(s);
    proof {
        if flags@.contains(false) {
            let j = choose|j: int| 0 <= j < flags@.len() && flags@[j] == false;
            assert(flags@[j] == is_ascii_char(s@[j]));
        }
        if !all_ascii(s@) {
            let j = choose|j: int| 0 <= j < s@.len() && !is_ascii_char(s@[j]);
            assert(flags@[j] == is_ascii_char(s@[j]));
        }
        if flags@.contains(true) {
            let j = choose|j: int| 0 <= j < flags@.len() && flags@[j] == true;
            assert(flags@[j] == is_ascii_char(s@[j]));
        }
        if any_ascii(s@) {
            let j = choose|j: int| 0 <= j < s@.len() && is_ascii_char(s@[j]);
            assert(flags@[j] == is_ascii_char(s@[j]));
        }
    }
    if !vec_bool_has(&flags, true) {
        *s = String::new();
    }
}

/// Keeps the word only if it consists exclusively of ascii characters.
pub fn keep_only_ascii(s: &mut String)
    ensures
        final(s)@ == (if all_ascii(old(s)@) {
            old(s)@
        } else {
            Seq::<char>::empty()
        }),
{
    let flags = flag_ascii_chars(s);
    proof {
        if flags@.contains(false) {
            let j = choose|j: int| 0 <= j < flags@.len() && flags@[j] == false;
            assert(flags@[j] == is_ascii_char(s@[j]));
        }
        if !all_ascii(s@) {
            let j = choose|j: int| 0 <= j < s@.len() && !is_ascii_char(s@[j]);
            assert(flags@[j] == is_ascii_char(s@[j]));
        }
        if flags@.contains(true) {
            let j = choose|j: int| 0 <= j < flags@.len() && flags@[j] == true;
            assert(flags@[j] == is_ascii_char(s@[j]));
        }
        if any_ascii(s@) {
            let j = choose|j: int| 0 <= j < s@.len() && is_ascii_char(s@[j]);
            assert(flags@[j] == is_ascii_char(s@[j]));
        }
    }
    if vec_bool_has(&flags, false) {
        *s = String::new();
    }
}

/// Clears the word if it consists only of lowercase characters.
pub fn ignore_all_lowercase(s: &mut String)
    ensures
        final(s)@ == (if all_lowercase(old(s)@) {
            Seq::<char>::empty()
        } else {
            old(s)@
        }),
{
    let flags = flag_lowercase_chars(s);
    proof {
        if flags@.contains(false) {
            let j = choose|j: int| 0 <= j < flags@.len() && flags@[j] == false;
            assert(flags@[j] == is_lowercase_char(s@[j]));
        }
        if !all_lowercase(s@) {
            let j = choose|j: int| 0 <= j < s@.len() && !is_lowercase_char(s@[j]);
            assert(flags@[j] == is_lowercase_char(s@[j]));
        }
        if flags@.contains(true) {
            let j = choose|j: int| 0 <= j < flags@.len() && flags@[j] == true;
            assert(flags@[j] == is_lowercase_char(s@[j]));
        }
        if any_lowercase(s@) {
            let j = choose|j: int| 0 <= j < s@.len() && is_lowercase_char(s@[j]);
            assert(flags@[j] == is_lowercase_char(s@[j]));
        }
    }
    if !vec_bool_has(&flags, false) {
        *s = String::new();
    }
}

/// Clears the word if it contains any lowercase character.
pub fn ignore_any_lowercase(s: &mut String)
    ensures
        final(s)@ == (if any_lowercase(old(s)@) {
            Seq::<char>::empty()
        } else {
            old(s)@
        }),
{
    let flags = flag_lowercase_chars(s);
    proof {
        if flags@.contains(false) {
            let j = choose|j: int| 0 <= j < flags@.len() && flags@[j] == false;
            assert(flags@[j] == is_lowercase_char(s@[j]));
        }
        if !all_lowercase(s@) {
            let j = choose|j: int| 0 <= j < s@.len() && !is_lowercase_char(s@[j]);
            assert(flags@[j] == is_lowercase_char(s@[j]));
        }
        if flags@.contains(true) {
            let j = choose|j: int| 0 <= j < flags@.len() && flags@[j] == true;
            assert(flags@[j] == is_lowercase_char(s@[j]));
        }
        if any_lowercase(s@) {
            let j = choose|j: int| 0 <= j < s@.len() && is_lowercase_char(s@[j]);
            assert(flags@[j] == is_lowercase_char(s@[j]));
        }
    }
    if vec_bool_has(&flags, true) {
        *s = String::new();
    }
}

/// Clears the word if it contains no lowercase character.
pub fn ignore_no_lowercase(s: &mut String)
    ensures
        final(s)@ == (if !any_lowercase(old(s)@) {
            Seq::<char>::empty()
        } else {
            old(s)@
        }),
{
    let flags = flag_lowercase_chars(s);
    proof {
        if flags@.contains(false) {
            let j = choose|j: int| 0 <= j < flags@.len() && flags@[j] == false;
            assert(flags@[j] == is_lowercase_char(s@[j]));
        }
        if !all_lowercase(s@) {
            let j = choose|j: int| 0 <= j < s@.len() && !is_lowercase_char(s@[j]);
            assert(flags@[j] == is_lowercase_char(s@[j]));
        }
        if flags@.contains(true) {
            let j = choose|j: int| 0 <= j < flags@.len() && flags@[j] == true;
            assert(flags@[j] == is_lowercase_char(s@[j]));
        }
        if any_lowercase(s@) {
            let j = choose|j: int| 0 <= j < s@.len() && is_lowercase_char(s@[j]);
            assert(flags@[j] == is_lowercase_char(s@[j]));
        }
    }
    if !vec_bool_has(&flags, true) {
        *s = String::new();
    }
}

/// Keeps the word only if it consists exclusively of lowercase characters.
pub fn keep_only_lowercase(s: &mut String)
    ensures
        final(s)@ == (if all_lowercase(old(s)@) {
            old(s)@
        } else {
            Seq::<char>::empty()
        }),
{
    let flags = flag_lowercase_chars(s);
    proof {
        if flags@.contains(false) {
            let j = choose|j: int| 0 <= j < flags@.len() && flags@[j] == false;
            assert(flags@[j] == is_lowercase_char(s@[j]));
        }
        if !all_lowercase(s@) {
            let j = choose|j: int| 0 <= j < s@.len() && !is_lowercase_char(s@[j]);
            assert(flags@[j] == is_lowercase_char(s@[j]));
        }
        if flags@.contains(true) {
            let j = choose|j: int| 0 <= j < flags@.len() && flags@[j] == true;
            assert(flags@[j] == is_lowercase_char(s@[j]));
        }
        if any_lowercase(s@) {
            let j = choose|j: int| 0 <= j < s@.len() && is_lowercase_char(s@[j]);
            assert(flags@[j] == is_lowercase_char(s@[j]));
        }
    }
    if vec_bool_has(&flags, false) {
        *s = String::new();
    }
}

/// Clears the word if it consists only of uppercase characters.
pub fn ignore_all_uppercase(s: &mut String)
    ensures
        final(s)@ == (if all_uppercase(old(s)@) {
            Seq::<char>::empty()
        } else {
            old(s)@
        }),
{
    let flags = flag_uppercase_chars(s);
    proof {
        if flags@.contains(false) {
            let j = choose|j: int| 0 <= j < flags@.len() && flags@[j] == false;
            assert(flags@[j] == is_uppercase_char(s@[j]));
        }
        if !all_uppercase(s@) {
            let j = choose|j: int| 0 <= j < s@.len() && !is_uppercase_char(s@[j]);
            assert(flags@[j] == is_uppercase_char(s@[j]));
        }
        if flags@.contains(true) {
            let j = choose|j: int| 0 <= j < flags@.len() && flags@[j] == true;
            assert(flags@[j] == is_uppercase_char(s@[j]));
        }
        if any_uppercase(s@) {
            let j = choose|j: int| 0 <= j < s@.len() && is_uppercase_char(s@[j]);
            assert(flags@[j] == is_uppercase_char(s@[j]));
        }
    }
    if !vec_bool_has(&flags, false) {
        *s = String::new();
    }
}

/// Clears the word if it contains any uppercase character.
pub fn ignore_any_uppercase(s: &mut String)
    ensures
        final(s)@ == (if any_uppercase(old(s)@) {
            Seq::<char>::empty()
        } else {
            old(s)@
        }),
{
    let flags = flag_uppercase_chars(s);
    proof {
        if flags@.contains(false) {
            let j = choose|j: int| 0 <= j < flags@.len() && flags@[j] == false;
            assert(flags@[j] == is_uppercase_char(s@[j]));
        }
        if !all_uppercase(s@) {
            let j = choose|j: int| 0 <= j < s@.len() && !is_uppercase_char(s@[j]);
            assert(flags@[j] == is_uppercase_char(s@[j]));
        }
        if flags@.contains(true) {
            let j = choose|j: int| 0 <= j < flags@.len() && flags@[j] == true;
            assert(flags@[j] == is_uppercase_char(s@[j]));
        }
        if any_uppercase(s@) {
            let j = choose|j: int| 0 <= j < s@.len() && is_uppercase_char(s@[j]);
            assert(flags@[j] == is_uppercase_char(s@[j]));
        }
    }
    if vec_bool_has(&flags, true) {
        *s = String::new();
    }
}

/// Clears the word if it contains no uppercase character.
pub fn ignore_no_uppercase(s: &mut String)
    ensures
        final(s)@ == (if !any_uppercase(old(s)@) {
            Seq::<char>::empty()
        } else {
            old(s)@
        }),
{
    let flags = flag_uppercase_chars(s);
    proof {
        if flags@.contains(false) {
            let j = choose|j: int| 0 <= j < flags@.len() && flags@[j] == false;
            assert(flags@[j] == is_uppercase_char(s@[j]));
        }
        if !all_uppercase(s@) {
            let j = choose|j: int| 0 <= j < s@.len() && !is_uppercase_char(s@[j]);
            assert(flags@[j] == is_uppercase_char(s@[j]));
        }
        if flags@.contains(true) {
            let j = choose|j: int| 0 <= j < flags@.len() && flags@[j] == true;
            assert(flags@[j] == is_uppercase_char(s@[j]));
        }
        if any_uppercase(s@) {
            let j = choose|j: int| 0 <= j < s@.len() && is_uppercase_char(s@[j]);
            assert(flags@[j] == is_uppercase_char(s@[j]));
        }
    }
    if !vec_bool_has(&flags, true) {
        *s = String::new();
    }
}

/// Keeps the word only if it consists exclusively of uppercase characters.
pub fn keep_only_uppercase(s: &mut String)
    ensures
        final(s)@ == (if all_uppercase(old(s)@) {
            old(s)@
        } else {
            Seq::<char>::empty()
        }),
{
    let flags = flag_uppercase_chars(s);
    proof {
        if flags@.contains(false) {
            let j = choose|j: int| 0 <= j < flags@.len() && flags@[j] == false;
            assert(flags@[j] == is_uppercase_char(s@[j]));
        }
        if !all_uppercase(s@) {
            let j = choose|j: int| 0 <= j < s@.len() && !is_uppercase_char(s@[j]);
            assert(flags@[j] == is_uppercase_char(s@[j]));
        }
        if flags@.contains(true) {
            let j = choose|j: int| 0 <= j < flags@.len() && flags@[j] == true;
            assert(flags@[j] == is_uppercase_char(s@[j]));
        }
        if any_uppercase(s@) {
            let j = choose|j: int| 0 <= j < s@.len() && is_uppercase_char(s@[j]);
            assert(flags@[j] == is_uppercase_char(s@[j]));
        }
    }
    if vec_bool_has(&flags, false) {
        *s = String::new();
    }
}


/// Transforms the word to ASCII by transliteration.
pub fn filter_deunicode(s: &mut String)
    ensures
        final(s)@ == deunicoded(old(s)@),
{
    let t = deunicode_str(s.as_str());
    *s = t;
}

/// Cures the word of confusable characters; a word that cannot be cured is
/// cleared.
pub fn filter_decancer(s: &mut String)
    ensures
        final(s)@ == (match cured(old(s)@) {
            Some(o) => o,
            None => Seq::<char>::empty(),
        }),
{
    match cure_str(s.as_str()) {
        Some(o) => {
            *s = o;
        },
        None => {
            *s = String::new();
        },
    }
}

/// Transforms the word to lowercase.
pub fn filter_to_lower(s: &mut String)
    ensures
        final(s)@ == lower_of(old(s)@),
{
    let t = s.as_str().to_lowercase();
    *s = t;
}

/// Transforms the word to uppercase.
pub fn filter_to_upper(s: &mut String)
    ensures
        final(s)@ == upper_of(old(s)@),
{
    let t = s.as_str().to_uppercase();
    *s = t;
}

/// Keeps the word only if not all of its characters are numeric; otherwise
/// returns the empty string.
pub fn filter_all_numeric(s: &str) -> (r: String)
    ensures
        r@ == (if all_numeric(s@) {
            Seq::<char>::empty()
        } else {
            s@
        }),
{
    let mut tmp = s.to_owned();
    ignore_all_numeric(&mut tmp);
    tmp
}

/// Keeps the word only if none of its characters is numeric; otherwise
/// returns the empty string.
pub fn filter_any_numeric(s: &str) -> (r: String)
    ensures
        r@ == (if any_numeric(s@) {
            Seq::<char>::empty()
        } else {
            s@
        }),
{
    let mut tmp = s.to_owned();
    ignore_any_numeric(&mut tmp);
    tmp
}

/// Defines a way to filter strings when building wordlists.
#[derive(Copy, Clone, Debug, PartialEq, Eq, Structural)]
pub enum FilterMode {
    /// Transform unicode to ASCII by transliteration.
    Deunicode,
    /// Cure unicode of confusable characters.
    Decancer,
    /// Ignore words that consist of all numbers.
    AllNumbers,
    /// Ignore words that contain any number.
    AnyNumbers,
    /// Ignore words that contain no numbers.
    NoNumbers,
    /// Keep only words that exclusively contain numbers.
    OnlyNumbers,
    /// Ignore words that consist of all ascii characters.
    AllAscii,
    /// Ignore words that contain any ascii character.
    AnyAscii,
    /// Ignore words that contain no ascii characters.
    NoAscii,
    /// Keep only words that exclusively contain ascii characters.
    OnlyAscii,
    /// Transform words to lowercase.
    ToLower,
    /// Ignore words that consist of all lowercase characters.
    AllLower,
    /// Ignore words that contain any lowercase character.
    AnyLower,
    /// Ignore words that contain no lowercase characters.
    NoLower,
    /// Keep only words that exclusively contain lowercase characters.
    OnlyLower,
    /// Transform words to uppercase.
    ToUpper,
    /// Ignore words that consist of all uppercase characters.
    AllUpper,
    /// Ignore words that contain any uppercase character.
    AnyUpper,
    /// Ignore words that contain no uppercase characters.
    NoUpper,
    /// Keep only words that exclusively contain uppercase characters.
    OnlyUpper,
    /// Leave the word as-is.
    AsIs,
}

/// What each filter mode does to a word.
pub open spec fn filtered(mode: FilterMode, s: Seq<char>) -> Seq<char> {
    match mode {
        FilterMode::Deunicode => deunicoded(s),
        FilterMode::Decancer => match cured(s) {
            Some(o) => o,
            None => Seq::<char>::empty(),
        },
        FilterMode::AllNumbers => if all_numeric(s) {
            Seq::<char>::empty()
        } else {
            s
        },
        FilterMode::AnyNumbers => if any_numeric(s) {
            Seq::<char>::empty()
        } else {
            s
        },
        FilterMode::NoNumbers => if !any_numeric(s) {
            Seq::<char>::empty()
        } else {
            s
        },
        FilterMode::OnlyNumbers => if all_numeric(s) {
            s
        } else {
            Seq::<char>::empty()
        },
        FilterMode::AllAscii => if all_ascii(s) {
            Seq::<char>::empty()
        } else {
            s
        },
        FilterMode::AnyAscii => if any_ascii(s) {
            Seq::<char>::empty()
        } else {
            s
        },
        FilterMode::NoAscii => if !any_ascii(s) {
            Seq::<char>::empty()
        } else {
            s
        },
        FilterMode::OnlyAscii => if all_ascii(s) {
            s
        } else {
            Seq::<char>::empty()
        },
        FilterMode::ToLower => lower_of(s),
        FilterMode::AllLower => if all_lowercase(s) {
            Seq::<char>::empty()
        } else {
            s
        },
        FilterMode::AnyLower => if any_lowercase(s) {
            Seq::<char>::empty()
        } else {
            s
        },
        FilterMode::NoLower => if !any_lowercase(s) {
            Seq::<char>::empty()
        } else {
            s
        },
        FilterMode::OnlyLower => if all_lowercase(s) {
            s
        } else {
            Seq::<char>::empty()
        },
        FilterMode::ToUpper => upper_of(s),
        FilterMode::AllUpper => if all_uppercase(s) {
            Seq::<char>::empty()
        } else {
            s
        },
        FilterMode::AnyUpper => if any_uppercase(s) {
            Seq::<char>::empty()
        } else {
            s
        },
        FilterMode::NoUpper => if !any_uppercase(s) {
            Seq::<char>::empty()
        } else {
            s
        },
        FilterMode::OnlyUpper => if all_uppercase(s) {
            s
        } else {
            Seq::<char>::empty()
        },
        FilterMode::AsIs => s,
    }
}

/// The name each filter mode is written as.
pub open spec fn filter_mode_name(mode: FilterMode) -> Seq<char> {
    match mode {
        FilterMode::Deunicode => "deunicode"@,
        FilterMode::Decancer => "decancer"@,
        FilterMode::AllNumbers => "all-numbers"@,
        FilterMode::AnyNumbers => "any-numbers"@,
        FilterMode::NoNumbers => "no-numbers"@,
        FilterMode::OnlyNumbers => "only-numbers"@,
        FilterMode::AllAscii => "all-ascii"@,
        FilterMode::AnyAscii => "any-ascii"@,
        FilterMode::NoAscii => "no-ascii"@,
        FilterMode::OnlyAscii => "only-ascii"@,
        FilterMode::ToLower => "to-lower"@,
        FilterMode::AllLower => "all-lower"@,
        FilterMode::AnyLower => "any-lower"@,
        FilterMode::NoLower => "no-lower"@,
        FilterMode::OnlyLower => "only-lower"@,
        FilterMode::ToUpper => "to-upper"@,
        FilterMode::AllUpper => "all-upper"@,
        FilterMode::AnyUpper => "any-upper"@,
        FilterMode::NoUpper => "no-upper"@,
        FilterMode::OnlyUpper => "only-upper"@,
        FilterMode::AsIs => "none"@,
    }
}

impl FilterMode {
    /// The name this mode is written as.
    pub fn as_str(&self) -> (r: &str)
        ensures
            r@ == filter_mode_name(*self),
    {
        match self {
            FilterMode::Deunicode => "deunicode",
            FilterMode::Decancer => "decancer",
            FilterMode::AllNumbers => "all-numbers",
            FilterMode::AnyNumbers => "any-numbers",
            FilterMode::NoNumbers => "no-numbers",
            FilterMode::OnlyNumbers => "only-numbers",
            FilterMode::AllAscii => "all-ascii",
            FilterMode::AnyAscii => "any-ascii",
            FilterMode::NoAscii => "no-ascii",
            FilterMode::OnlyAscii => "only-ascii",
            FilterMode::ToLower => "to-lower",
            FilterMode::AllLower => "all-lower",
            FilterMode::AnyLower => "any-lower",
            FilterMode::NoLower => "no-lower",
            FilterMode::OnlyLower => "only-lower",
            FilterMode::ToUpper => "to-upper",
            FilterMode::AllUpper => "all-upper",
            FilterMode::AnyUpper => "any-upper",
            FilterMode::NoUpper => "no-upper",
            FilterMode::OnlyUpper => "only-upper",
            FilterMode::AsIs => "none",
        }
    }

    /// Filter the input string with the given mode.
    pub fn filter_str(&self, s: &mut String)
        ensures
            final(s)@ == filtered(*self, old(s)@),
    {
        match self {
            FilterMode::Deunicode => filter_deunicode(s),
            FilterMode::Decancer => filter_decancer(s),
            FilterMode::AllNumbers => ignore_all_numeric(s),
            FilterMode::AnyNumbers => ignore_any_numeric(s),
            FilterMode::NoNumbers => ignore_no_numeric(s),
            FilterMode::OnlyNumbers => keep_only_numeric(s),
            FilterMode::AllAscii => ignore_all_ascii(s),
            FilterMode::AnyAscii => ignore_any_ascii(s),
            FilterMode::NoAscii => ignore_no_ascii(s),
            FilterMode::OnlyAscii => keep_only_ascii(s),
            FilterMode::ToLower => filter_to_lower(s),
            FilterMode::AllLower => ignore_all_lowercase(s),
            FilterMode::AnyLower => ignore_any_lowercase(s),
            FilterMode::NoLower => ignore_no_lowercase(s),
            FilterMode::OnlyLower => keep_only_lowercase(s),
            FilterMode::ToUpper => filter_to_upper(s),
            FilterMode::AllUpper => ignore_all_uppercase(s),
            FilterMode::AnyUpper => ignore_any_uppercase(s),
            FilterMode::NoUpper => ignore_no_uppercase(s),
            FilterMode::OnlyUpper => keep_only_uppercase(s),
            FilterMode::AsIs => {},
        }
    }
}

} // verus!
