//! Small helpers shared by the project and build logic.
use vstd::prelude::*;
use crate::text::{ascii_upper, ascii_upper_char, chars_of, concat, opt_view, string_of};
use crate::outside::{char_to_uppercase, char_upper};

verus! {

/// The upper case of a character's first letter as `capitalize_first` gives
/// it: exact ASCII upper case for an ASCII character, the Unicode upper-case
/// mapping otherwise (which may be several characters).
pub open spec fn first_upper(c: char) -> Seq<char> {
    if (c as u32) < 128 {
        seq![ascii_upper(c)]
    } else {
        char_upper(c)
    }
}

/// What `capitalize_first` returns: the text with its first character in upper
/// case and the rest kept; empty for the empty text.
pub open spec fn capitalized(s: Seq<char>) -> Seq<char> {
    if s.len() > 0 {
        first_upper(s[0]) + s.drop_first()
    } else {
        Seq::empty()
    }
}

/// Capitalizes the first letter in a string: its first character goes to upper
/// case and the rest is kept.
pub fn capitalize_first(s: &str) -> (r: String)
    ensures
        r@ == capitalized(s@),
{
    let v = chars_of(s);
    if v.len() == 0 {
        return String::new();
    }
    let mut out: Vec<char> = if (v[0] as u32) < 128 {
        let mut one: Vec<char> = Vec::new();
        one.push(ascii_upper_char(v[0]));
        assert(one@ =~= seq![ascii_upper(v@[0])]);
        one
    } else {
        chars_of(char_to_uppercase(v[0]).as_str())
    };
    let ghost head = out@;
    assert(head == first_upper(v@[0]));
    let mut i: usize = 1;
    while i < v.len()
        invariant
            1 <= i <= v.len(),
            out@ == head + v@.subrange(1, i as int),
        decreases v.len() - i,
    {
        out.push(v[i]);
        i += 1;
        assert(out@ =~= head + v@.subrange(1, i as int));
    }
    assert(v@.subrange(1, v.len() as int) =~= v@.drop_first());
    string_of(&out)
}

/// Why the user's home directory could not be determined.
#[derive(Debug, Clone, PartialEq, Eq)]
pub enum HomeError {
    /// Neither `SUDO_USER` nor `HOME` holds a value.
    HomeNotSet,
}

/// The home directory of the user who runs the program: `/Users/<sudo_user>`
/// when it runs under sudo, else `$HOME`.
pub open spec fn user_home(sudo_user: Option<Seq<char>>, home: Option<Seq<char>>) -> Result<Seq<char>, HomeError> {
    match sudo_user {
        Some(u) => Ok("/Users/"@ + u),
        None => match home {
            Some(h) => Ok(h),
            None => Err(HomeError::HomeNotSet),
        },
    }
}

/// Determines the user's home directory from the values of the environment
/// variables `SUDO_USER` and `HOME` (`None` where a variable is unset).
pub fn get_user_home(sudo_user: Option<String>, home: Option<String>) -> (r: Result<String, HomeError>)
    ensures
        r matches Ok(h) ==> user_home(opt_view(sudo_user), opt_view(home)) == Ok::<Seq<char>, HomeError>(h@),
        r matches Err(e) ==> user_home(opt_view(sudo_user), opt_view(home)) == Err::<Seq<char>, HomeError>(e),
{
    match sudo_user {
        Some(u) => Ok(concat("/Users/", u.as_str())),
        None => match home {
            Some(h) => Ok(h),
            None => Err(HomeError::HomeNotSet),
        },
    }
}

} // verus!
