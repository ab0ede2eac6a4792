//! Opaque wrapper that keeps secrets out of rendered text.
//!
//! Use [`Secret`] for API tokens, passwords, keys and anything else that
//! must not end up in logs. The wrapped value is only reachable through
//! [`Secret::expose`] and [`Secret::into_inner`]; every rendering shows a
//! placeholder in its place.

use vstd::prelude::*;
use vstd::string::*;

verus! {

/// Wrapper that masks its inner value in rendered output.
pub struct Secret<T>(T);

impl<T> View for Secret<T> {
    type V = T;

    closed spec fn view(&self) -> T {
        self.0
    }
}

impl<T> Secret<T> {
    /// Wrap a value as a secret.
    pub fn new(value: T) -> (r: Secret<T>)
        ensures
            r@ == value,
    {
        Secret(value)
    }

    /// Borrow the inner value.
    pub fn expose(&self) -> (r: &T)
        ensures
            *r == self@,
    {
        &self.0
    }

    /// Consume the wrapper and return the inner value.
    pub fn into_inner(self) -> (r: T)
        ensures
            r == self@,
    {
        self.0
    }

    /// The text shown for debugging. It is the same for every secret.
    pub fn debug_text(&self) -> (r: String)
        ensures
            r@ == "Secret([REDACTED])"@,
    {
        "Secret([REDACTED])".to_string()
    }

    /// The text shown to users. It is the same for every secret.
    pub fn display_text(&self) -> (r: String)
        ensures
            r@ == "[REDACTED]"@,
    {
        "[REDACTED]".to_string()
    }
}

impl<T> From<T> for Secret<T> {
    fn from(value: T) -> (r: Secret<T>) {
        Secret(value)
    }
}

impl<T> vstd::std_specs::convert::FromSpecImpl<T> for Secret<T> {
    open spec fn obeys_from_spec() -> bool {
        true
    }

    closed spec fn from_spec(value: T) -> Secret<T> {
        Secret(value)
    }
}

impl<T: Clone> Clone for Secret<T> {
    fn clone(&self) -> (r: Secret<T>)
        ensures
            cloned(self@, r@),
    {
        Secret(self.0.clone())
    }
}

/// Wrapping a value by conversion makes the secret that holds it.
pub proof fn conversion_wraps_the_value<T>(value: T)
    ensures
        <Secret<T> as vstd::std_specs::convert::FromSpec<T>>::from_spec(value)@ == value,
{
}

/// Values that secrets can be compared by.
pub trait SecretBytes {
    /// The bytes of the value.
    spec fn secret_bytes(&self) -> Seq<u8>;

    /// Borrow the bytes of the value.
    fn as_secret_bytes(&self) -> (r: &[u8])
        ensures
            r@ == self.secret_bytes(),
    ;
}

impl SecretBytes for Vec<u8> {
    open spec fn secret_bytes(&self) -> Seq<u8> {
        self@
    }

    fn as_secret_bytes(&self) -> (r: &[u8]) {
        self.as_slice()
    }
}

impl<const N: usize> SecretBytes for [u8; N] {
    open spec fn secret_bytes(&self) -> Seq<u8> {
        self@
    }

    fn as_secret_bytes(&self) -> (r: &[u8]) {
        self.as_slice()
    }
}

impl SecretBytes for String {
    open spec fn secret_bytes(&self) -> Seq<u8> {
        vstd::utf8::encode_utf8(self@)
    }

    fn as_secret_bytes(&self) -> (r: &[u8]) {
        self.as_str().as_bytes()
    }
}

impl<'a> SecretBytes for &'a str {
    open spec fn secret_bytes(&self) -> Seq<u8> {
        vstd::utf8::encode_utf8(self@)
    }

    fn as_secret_bytes(&self) -> (r: &[u8]) {
        self.as_bytes()
    }
}

impl<'a> SecretBytes for &'a [u8] {
    open spec fn secret_bytes(&self) -> Seq<u8> {
        self@
    }

    fn as_secret_bytes(&self) -> (r: &[u8]) {
        *self
    }
}

impl<T: SecretBytes> Secret<T> {
    /// Whether two secrets hold the same bytes.
    ///
    /// The lengths are not considered secret: secrets of different lengths
    /// differ at once. Where they match, every byte is looked at, wherever
    /// the first difference is.
    pub fn ct_eq(&self, other: &Secret<T>) -> (r: bool)
        ensures
            r == (self@.secret_bytes() == other@.secret_bytes()),
    {
        constant_time_eq(self.0.as_secret_bytes(), other.0.as_secret_bytes())
    }
}

/// Compare by accumulating differences; never stops at a mismatch.
pub fn constant_time_eq(a: &[u8], b: &[u8]) -> (r: bool)
    ensures
        r == (a@ == b@),
{
    if a.len() != b.len() {
        return false;
    }
    let mut diff: u8 = 0;
    let mut i: usize = 0;
    while i < a.len()
        invariant
            0 <= i <= a@.len(),
            a@.len() == b@.len(),
            diff == 0 <==> (forall|j: int| 0 <= j < i ==> a@[j] == b@[j]),
        decreases a@.len() - i,
    {
        let x: u8 = a[i];
        let y: u8 = b[i];
        let before: u8 = diff;
        assert(before | (x ^ y) == 0 <==> before == 0 && x == y) by (bit_vector);
        diff = diff | (x ^ y);
        i += 1;
    }
    assert(diff == 0 ==> a@ =~= b@);
    diff == 0
}

/// A secret gives back what it was made of, and renders alike whatever that
/// is.
pub proof fn secrets_are_kept_and_hidden<T>(
    value: T,
    secret: Secret<T>,
    exposed: &T,
    inner: T,
    debug: String,
    display: String,
)
    requires
        call_ensures(Secret::<T>::new, (value,), secret),
        call_ensures(Secret::<T>::expose, (&secret,), exposed),
        call_ensures(Secret::<T>::into_inner, (secret,), inner),
        call_ensures(Secret::<T>::debug_text, (&secret,), debug),
        call_ensures(Secret::<T>::display_text, (&secret,), display),
    ensures
        *exposed == value,
        inner == value,
        debug@ == "Secret([REDACTED])"@,
        display@ == "[REDACTED]"@,
{
}

/// Byte strings compare equal exactly where they are as long as each other
/// and agree in every byte.
pub proof fn equal_byte_strings_agree_everywhere(a: &[u8], b: &[u8], r: bool)
    requires
        call_ensures(constant_time_eq, (a, b), r),
    ensures
        r <==> a@.len() == b@.len() && forall|i: int| 0 <= i < a@.len() ==> a@[i] == b@[i],
{
    if a@.len() == b@.len() && forall|i: int| 0 <= i < a@.len() ==> a@[i] == b@[i] {
        assert(a@ =~= b@);
    }
}

/// Secrets compare equal exactly where their bytes do.
pub proof fn equal_secrets_hold_equal_bytes(
    a: &Secret<Vec<u8>>,
    b: &Secret<Vec<u8>>,
    r: bool,
    c: &Secret<String>,
    d: &Secret<String>,
    s: bool,
)
    requires
        call_ensures(Secret::<Vec<u8>>::ct_eq, (a, b), r),
        call_ensures(Secret::<String>::ct_eq, (c, d), s),
    ensures
        r <==> a@@ == b@@,
        s <==> vstd::utf8::encode_utf8(c@@) == vstd::utf8::encode_utf8(d@@),
{
}

/// Secrets of any kind compare by the bytes of what they hold: byte strings by
/// themselves, texts by their encoding.
pub proof fn secrets_compare_by_their_bytes<T: SecretBytes>(
    a: &Secret<T>,
    b: &Secret<T>,
    r: bool,
    bytes: Vec<u8>,
    slice: &[u8],
    array: [u8; 4],
    text: String,
    str: &str,
)
    requires
        call_ensures(Secret::<T>::ct_eq, (a, b), r),
    ensures
        r <==> a@.secret_bytes().len() == b@.secret_bytes().len() && forall|i: int|
            0 <= i < a@.secret_bytes().len() ==> #[trigger] a@.secret_bytes()[i]
                == b@.secret_bytes()[i],
        bytes.secret_bytes() == bytes@,
        slice.secret_bytes() == slice@,
        array.secret_bytes() == array@,
        text.secret_bytes() == vstd::utf8::encode_utf8(text@),
        str.secret_bytes() == vstd::utf8::encode_utf8(str@),
{
    if a@.secret_bytes().len() == b@.secret_bytes().len() && forall|i: int|
        0 <= i < a@.secret_bytes().len() ==> #[trigger] a@.secret_bytes()[i]
            == b@.secret_bytes()[i] {
        assert(a@.secret_bytes() =~= b@.secret_bytes());
    }
}

/// A copy of a secret holds a copy of what the secret holds.
pub proof fn copied_secrets_hold_copies<T: Clone>(secret: &Secret<T>, r: Secret<T>)
    requires
        call_ensures(<Secret<T> as Clone>::clone, (secret,), r),
    ensures
        cloned(secret@, r@),
{
}

} // verus!
