//! Email addresses that have passed a syntactic check.
//!
//! An address is accepted when it holds no white space and exactly one `'@'`
//! with at least one character on each side of it. [`SubscriberEmail::parse`]
//! is the only way to obtain a [`SubscriberEmail`], so a value of that type
//! never needs to be checked again.

use vstd::prelude::*;

verus! {

/// Whether `c` is white space, that is, a character with the Unicode property
/// `White_Space`.
pub open spec fn whitespace(c: char) -> bool {
    let n = c as u32;
    ||| 0x09 <= n <= 0x0d
    ||| n == 0x20
    ||| n == 0x85
    ||| n == 0xa0
    ||| n == 0x1680
    ||| 0x2000 <= n <= 0x200a
    ||| n == 0x2028
    ||| n == 0x2029
    ||| n == 0x202f
    ||| n == 0x205f
    ||| n == 0x3000
}

/// Whether some character of `s` is white space.
pub open spec fn has_whitespace(s: Seq<char>) -> bool {
    exists|i: int| 0 <= i < s.len() && whitespace(#[trigger] s[i])
}

/// Whether `'@'` stands at two different positions of `s`.
pub open spec fn has_two_at_signs(s: Seq<char>) -> bool {
    exists|i: int, j: int| 0 <= i < j < s.len() && #[trigger] s[i] == '@' && #[trigger] s[j] == '@'
}

/// Whether `k` is the position of the only `'@'` of `s`, with at least one
/// character before it and one after it.
pub open spec fn splits_at(s: Seq<char>, k: int) -> bool {
    &&& 0 < k < s.len() - 1
    &&& forall|j: int| 0 <= j < s.len() ==> (#[trigger] s[j] == '@' <==> j == k)
}

/// Whether `s` is an acceptable address: no white space, a single `'@'`, and
/// a local part and a domain that are not empty.
pub open spec fn is_valid_address(s: Seq<char>) -> bool {
    &&& !has_whitespace(s)
    &&& exists|k: int| #[trigger] splits_at(s, k)
}

/// Why a string is not an acceptable address.
#[derive(Clone, Copy, Debug, PartialEq, Eq, Structural)]
pub enum AddressError {
    /// The string holds white space.
    Whitespace,
    /// The string holds no `'@'`.
    MissingAt,
    /// The string holds more than one `'@'`.
    MultipleAt,
    /// Nothing stands before the `'@'`.
    EmptyLocalPart,
    /// Nothing stands after the `'@'`.
    EmptyDomain,
}

/// The first defect of `s`, in the order in which [`SubscriberEmail::parse`]
/// reports them, or `None` where `s` has none.
pub open spec fn address_defect(s: Seq<char>) -> Option<AddressError> {
    if has_whitespace(s) {
        Some(AddressError::Whitespace)
    } else if !s.contains('@') {
        Some(AddressError::MissingAt)
    } else if has_two_at_signs(s) {
        Some(AddressError::MultipleAt)
    } else if s.first() == '@' {
        Some(AddressError::EmptyLocalPart)
    } else if s.last() == '@' {
        Some(AddressError::EmptyDomain)
    } else {
        None
    }
}

/// A string has no defect exactly when it is an acceptable address.
pub proof fn lemma_no_defect_iff_valid(s: Seq<char>)
    ensures
        address_defect(s) is None <==> is_valid_address(s),
{
    if address_defect(s) is None {
        let k = choose|k: int| 0 <= k < s.len() && s[k] == '@';
        assert forall|j: int| 0 <= j < s.len() implies (#[trigger] s[j] == '@' <==> j == k) by {
            if s[j] == '@' && j != k {
                if j < k {
                    assert(s[j] == '@' && s[k] == '@');
                } else {
                    assert(s[k] == '@' && s[j] == '@');
                }
            }
        }
        assert(splits_at(s, k));
    }
    if is_valid_address(s) {
        let k = choose|k: int| splits_at(s, k);
        assert(s[k] == '@');
        assert(s.contains('@'));
        assert(s[0] != '@');
        assert(s[s.len() - 1] != '@');
        if has_two_at_signs(s) {
            let (i, j) = choose|i: int, j: int|
                0 <= i < j < s.len() && #[trigger] s[i] == '@' && #[trigger] s[j] == '@';
            assert(i == k && j == k);
        }
    }
}

/// Tells whether `c` is white space.
pub fn is_whitespace(c: char) -> (b: bool)
    ensures
        b == whitespace(c),
{
    let n: u32 = c as u32;
    (0x09 <= n && n <= 0x0d) || n == 0x20 || n == 0x85 || n == 0xa0 || n == 0x1680 || (0x2000 <= n
        && n <= 0x200a) || n == 0x2028 || n == 0x2029 || n == 0x202f || n == 0x205f || n == 0x3000
}

/// What one more character adds to the facts that `parse` gathers.
proof fn lemma_extend(p: Seq<char>, c: char)
    ensures
        has_whitespace(p.push(c)) == (has_whitespace(p) || whitespace(c)),
        p.push(c).contains('@') == (p.contains('@') || c == '@'),
        has_two_at_signs(p.push(c)) == (has_two_at_signs(p) || (p.contains('@') && c == '@')),
        p.push(c).first() == (if p.len() == 0 { c } else { p.first() }),
        p.push(c).last() == c,
{
    let q = p.push(c);
    let n = p.len() as int;
    assert(q[n] == c);
    assert forall|i: int| 0 <= i < n implies q[i] == p[i] by {}
    if has_whitespace(p) {
        let i = choose|i: int| 0 <= i < p.len() && whitespace(#[trigger] p[i]);
        assert(whitespace(q[i]));
    }
    if whitespace(c) {
        assert(whitespace(q[n]));
    }
    if has_whitespace(q) {
        let i = choose|i: int| 0 <= i < q.len() && whitespace(#[trigger] q[i]);
        if i < n {
            assert(whitespace(p[i]));
        }
    }
    if p.contains('@') {
        let i = choose|i: int| 0 <= i < p.len() && p[i] == '@';
        assert(q[i] == '@');
        if c == '@' {
            assert(q[i] == '@' && q[n] == '@');
        }
    }
    if q.contains('@') {
        let i = choose|i: int| 0 <= i < q.len() && q[i] == '@';
        if i < n {
            assert(p[i] == '@');
        }
    }
    if has_two_at_signs(p) {
        let (i, j) = choose|i: int, j: int|
            0 <= i < j < p.len() && #[trigger] p[i] == '@' && #[trigger] p[j] == '@';
        assert(q[i] == '@' && q[j] == '@');
    }
    if has_two_at_signs(q) {
        let (i, j) = choose|i: int, j: int|
            0 <= i < j < q.len() && #[trigger] q[i] == '@' && #[trigger] q[j] == '@';
        assert(p[i] == '@');
        if j < n {
            assert(p[i] == '@' && p[j] == '@');
        }
    }
}

/// An email address that is known to be acceptable.
#[derive(Debug)]
pub struct SubscriberEmail(String);

impl View for SubscriberEmail {
    type V = Seq<char>;

    closed spec fn view(&self) -> Seq<char> {
        self.0@
    }
}

impl SubscriberEmail {
    #[verifier::type_invariant]
    spec fn well_formed(self) -> bool {
        is_valid_address(self.0@)
    }

    /// Checks `s` and keeps it, unchanged, when it is an acceptable address.
    /// Otherwise the error names the first defect found: white space anywhere
    /// comes first, then a missing `'@'`, a repeated one, an empty local part
    /// and an empty domain.
    pub fn parse(s: String) -> (r: Result<SubscriberEmail, AddressError>)
        ensures
            r is Ok <==> is_valid_address(s@),
            r matches Ok(email) ==> email@ == s@,
            r matches Err(e) ==> address_defect(s@) == Some(e),
    {
        let mut blank = false;
        let mut at_signs: u8 = 0;
        let mut starts_with_at = false;
        let mut ends_with_at = false;
        let mut empty = true;
        for c in it: s.as_str().chars()
            invariant
                it.seq() == s@,
                blank == has_whitespace(s@.take(it.index())),
                at_signs <= 2,
                at_signs == 0 <==> !s@.take(it.index()).contains('@'),
                at_signs == 2 <==> has_two_at_signs(s@.take(it.index())),
                empty <==> it.index() == 0,
                !empty ==> starts_with_at == (s@.take(it.index()).first() == '@'),
                !empty ==> ends_with_at == (s@.take(it.index()).last() == '@'),
        {
            proof {
                let i = it.index();
                lemma_extend(s@.take(i), c);
                assert(s@.take(i + 1) =~= s@.take(i).push(c));
            }
            if is_whitespace(c) {
                blank = true;
            }
            if empty {
                starts_with_at = c == '@';
                empty = false;
            }
            ends_with_at = c == '@';
            if c == '@' && at_signs < 2 {
                at_signs = at_signs + 1;
            }
        }
        proof {
            assert(s@.take(s@.len() as int) =~= s@);
            lemma_no_defect_iff_valid(s@);
        }
        if blank {
            Err(AddressError::Whitespace)
        } else if at_signs == 0 {
            Err(AddressError::MissingAt)
        } else if at_signs == 2 {
            Err(AddressError::MultipleAt)
        } else if starts_with_at {
            Err(AddressError::EmptyLocalPart)
        } else if ends_with_at {
            Err(AddressError::EmptyDomain)
        } else {
            Ok(SubscriberEmail(s))
        }
    }

    /// The address as it was given to [`SubscriberEmail::parse`].
    pub fn as_str(&self) -> (s: &str)
        ensures
            s@ == self@,
            is_valid_address(s@),
    {
        proof {
            use_type_invariant(self);
        }
        self.0.as_str()
    }
}

impl AsRef<str> for SubscriberEmail {
    fn as_ref(&self) -> (s: &str)
        ensures
            s@ == self@,
            is_valid_address(s@),
    {
        self.as_str()
    }
}

impl Clone for SubscriberEmail {
    fn clone(&self) -> (copy: Self)
        ensures
            copy@ == self@,
    {
        proof {
            use_type_invariant(self);
        }
        SubscriberEmail(self.0.clone())
    }
}

} // verus!
