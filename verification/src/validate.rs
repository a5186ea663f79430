//! Structural validation of a raw registration payload: required fields and
//! the shape of the e-mail address, checked before anything reaches the store.

use vstd::prelude::*;

verus! {

/// Reason a registration payload is rejected before it reaches the store.
#[derive(Clone, Copy, Debug, PartialEq, Eq, Structural)]
pub enum ValidationError {
    /// The `email` field is absent or empty.
    MissingEmail,
    /// The `email` field does not have the `local@domain.tld` shape.
    InvalidEmail,
    /// The `password` field is absent or empty.
    MissingPassword,
}

/// Raw registration payload as received from a caller; every field may be absent.
pub struct Payload {
    pub email: Option<String>,
    pub name: Option<String>,
    pub password: Option<String>,
}

/// Mathematical image of a payload: each field as an optional character sequence.
pub struct PayloadView {
    pub email: Option<Seq<char>>,
    pub name: Option<Seq<char>>,
    pub password: Option<Seq<char>>,
}

impl View for Payload {
    type V = PayloadView;

    open spec fn view(&self) -> PayloadView {
        PayloadView {
            email: opt_view(self.email),
            name: opt_view(self.name),
            password: opt_view(self.password),
        }
    }
}

/// The view of an optional string: its character sequence, if present.
pub open spec fn opt_view(o: Option<String>) -> Option<Seq<char>> {
    match o {
        Some(s) => Some(s@),
        None => None,
    }
}

/// The characters the e-mail rule counts as whitespace.
pub open spec fn is_space_char(c: char) -> bool {
    c == ' ' || c == '\t' || c == '\n' || c == '\r' || c == '\u{b}' || c == '\u{c}'
}

/// No character of `s` is whitespace.
pub open spec fn has_no_space(s: Seq<char>) -> bool {
    forall|k: int| 0 <= k < s.len() ==> !is_space_char(#[trigger] s[k])
}

/// Positions `i` and `j` split `s` as `local@domain.tld`: an `@` preceded by
/// at least one character, a `.` after at least one further character, and at
/// least one character after the `.`.
pub open spec fn email_split_at(s: Seq<char>, i: int, j: int) -> bool {
    &&& 1 <= i
    &&& i + 2 <= j
    &&& j + 2 <= s.len()
    &&& s[i] == '@'
    &&& s[j] == '.'
}

/// `s` matches `<non-whitespace>+ @ <non-whitespace>+ . <non-whitespace>+`.
pub open spec fn valid_email(s: Seq<char>) -> bool {
    has_no_space(s) && exists|i: int, j: int| email_split_at(s, i, j)
}

/// The outcome the validator owes a payload: the first rule it breaks, if any.
/// Rules in order: `email` present and non-empty, `email` well shaped,
/// `password` present and non-empty.
pub open spec fn spec_validate(p: PayloadView) -> Option<ValidationError> {
    match p.email {
        None => Some(ValidationError::MissingEmail),
        Some(e) => {
            if e.len() == 0 {
                Some(ValidationError::MissingEmail)
            } else if !valid_email(e) {
                Some(ValidationError::InvalidEmail)
            } else {
                match p.password {
                    None => Some(ValidationError::MissingPassword),
                    Some(w) => {
                        if w.len() == 0 {
                            Some(ValidationError::MissingPassword)
                        } else {
                            None
                        }
                    },
                }
            }
        },
    }
}

fn is_space(c: char) -> (r: bool)
    ensures
        r == is_space_char(c),
{
    c == ' ' || c == '\t' || c == '\n' || c == '\r' || c == '\u{b}' || c == '\u{c}'
}

/// Whether `s` holds any whitespace character.
fn contains_space(s: &str) -> (r: bool)
    ensures
        r == !has_no_space(s@),
{
    let n = s.unicode_len();
    let mut k: usize = 0;
    while k < n
        invariant
            n == s@.len(),
            k <= n,
            forall|m: int| 0 <= m < k ==> !is_space_char(#[trigger] s@[m]),
        decreases n - k,
    {
        if is_space(s.get_char(k)) {
            return true;
        }
        k += 1;
    }
    false
}

/// The least position `i >= 1` with `s[i] == '@'`, if any.
fn first_at_sign(s: &str) -> (r: Option<usize>)
    ensures
        match r {
            Some(i) => 1 <= i < s@.len() && s@[i as int] == '@' && (forall|m: int|
                1 <= m < i ==> s@[m] != '@'),
            None => forall|m: int| 1 <= m < s@.len() ==> s@[m] != '@',
        },
{
    let n = s.unicode_len();
    let mut i: usize = 1;
    while i < n
        invariant
            n == s@.len(),
            1 <= i,
            forall|m: int| 1 <= m < i ==> s@[m] != '@',
        decreases n - i,
    {
        if s.get_char(i) == '@' {
            return Some(i);
        }
        i += 1;
    }
    None
}

/// Whether some position `j` with `lo <= j` and `j + 2 <= s@.len()` holds `'.'`.
fn has_dot_from(s: &str, lo: usize) -> (r: bool)
    ensures
        r == exists|j: int| lo <= j && j + 2 <= s@.len() && s@[j] == '.',
{
    let n = s.unicode_len();
    if n < 2 {
        return false;
    }
    let limit = n - 2;
    let mut j: usize = lo;
    while j <= limit
        invariant
            n == s@.len(),
            limit == n - 2,
            lo <= j,
            forall|m: int| lo <= m < j ==> s@[m] != '.',
        decreases limit + 1 - j,
    {
        if s.get_char(j) == '.' {
            return true;
        }
        j += 1;
    }
    false
}

/// Whether `s` has the `local@domain.tld` shape demanded of an e-mail address.
pub fn email_matches(s: &str) -> (r: bool)
    ensures
        r == valid_email(s@),
{
    if contains_space(s) {
        return false;
    }
    let n = s.unicode_len();
    match first_at_sign(s) {
        None => {
            assert(forall|i: int, j: int| !email_split_at(s@, i, j));
            false
        },
        Some(i) => {
            let r = if n >= 2 && i <= n - 2 {
                has_dot_from(s, i + 2)
            } else {
                false
            };
            proof {
                if r {
                    let j = choose|j: int| i + 2 <= j && j + 2 <= s@.len() && s@[j] == '.';
                    assert(email_split_at(s@, i as int, j));
                } else {
                    assert forall|a: int, b: int| !email_split_at(s@, a, b) by {
                        if email_split_at(s@, a, b) {
                            assert(a >= i);
                            assert(i + 2 <= b && b + 2 <= s@.len() && s@[b] == '.');
                        }
                    }
                }
            }
            r
        },
    }
}

/// Checks a payload against the registration rules, first failure first:
/// `email` present and non-empty, `email` well shaped, `password` present
/// and non-empty.
pub fn validate(p: &Payload) -> (r: Result<(), ValidationError>)
    ensures
        match r {
            Ok(_) => spec_validate(p@) is None,
            Err(e) => spec_validate(p@) == Some(e),
        },
{
    match &p.email {
        None => Err(ValidationError::MissingEmail),
        Some(e) => {
            if e.as_str().is_empty() {
                Err(ValidationError::MissingEmail)
            } else if !email_matches(e.as_str()) {
                Err(ValidationError::InvalidEmail)
            } else {
                match &p.password {
                    None => Err(ValidationError::MissingPassword),
                    Some(w) => {
                        if w.as_str().is_empty() {
                            Err(ValidationError::MissingPassword)
                        } else {
                            Ok(())
                        }
                    },
                }
            }
        },
    }
}

} // verus!
