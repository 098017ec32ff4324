use vstd::prelude::*;
use vstd::string::*;

verus! {

/// Why the breaker's persisted state could not be had.
#[derive(Debug, Clone, Copy, PartialEq, Eq, Structural)]
pub enum StoreError {
    /// The store could not be reached, or did not answer in time.
    Unavailable,
    /// The stored value is neither of the two accepted encodings.
    InvalidState,
    /// A stored amount is not a decimal text of whole cents that fits.
    InvalidAmount,
}

/// The text stored for the breaker: `"true"` when OPEN, `"false"` when CLOSED.
pub open spec fn encoded_state(tripped: bool) -> Seq<char> {
    if tripped {
        seq!['t', 'r', 'u', 'e']
    } else {
        seq!['f', 'a', 'l', 's', 'e']
    }
}

/// What a stored text means: one of the two encodings, or a decoding failure.
pub open spec fn decoded_state(raw: Seq<char>) -> Result<bool, StoreError> {
    if raw == encoded_state(true) {
        Ok(true)
    } else if raw == encoded_state(false) {
        Ok(false)
    } else {
        Err(StoreError::InvalidState)
    }
}

/// The breaker state that a store read gives: a key that was never written is
/// the initial CLOSED state.
pub open spec fn read_state(stored: Option<Seq<char>>) -> Result<bool, StoreError> {
    match stored {
        Some(raw) => decoded_state(raw),
        None => Ok(false),
    }
}

/// The text to store for a breaker state.
pub fn encode_breaker_state(tripped: bool) -> (r: &'static str)
    ensures
        r@ == encoded_state(tripped),
{
    if tripped {
        let s = "true";
        proof {
            reveal_strlit("true");
        }
        assert(s@ =~= encoded_state(true));
        s
    } else {
        let s = "false";
        proof {
            reveal_strlit("false");
        }
        assert(s@ =~= encoded_state(false));
        s
    }
}

/// Whether two texts hold the same characters.
fn same_text(s: &str, t: &str) -> (r: bool)
    ensures
        r == (s@ == t@),
{
    let n = s.unicode_len();
    if n != t.unicode_len() {
        return false;
    }
    let mut i: usize = 0;
    while i < n
        invariant
            n == s@.len(),
            n == t@.len(),
            i <= n,
            forall|j: int| 0 <= j < i ==> s@[j] == t@[j],
        decreases n - i,
    {
        if s.get_char(i) != t.get_char(i) {
            return false;
        }
        i += 1;
    }
    assert(s@ =~= t@);
    true
}

/// Decodes a stored breaker text; anything but the two encodings is refused
/// rather than read as a default.
pub fn decode_breaker_state(raw: &str) -> (r: Result<bool, StoreError>)
    ensures
        r == decoded_state(raw@),
{
    if same_text(raw, encode_breaker_state(true)) {
        Ok(true)
    } else if same_text(raw, encode_breaker_state(false)) {
        Ok(false)
    } else {
        Err(StoreError::InvalidState)
    }
}

/// The breaker state that a store read gives; `None` is a key never written.
pub fn read_breaker_state(stored: Option<&str>) -> (r: Result<bool, StoreError>)
    ensures
        r == read_state(
            match stored {
                Some(s) => Some(s@),
                None => None,
            },
        ),
{
    match stored {
        Some(raw) => decode_breaker_state(raw),
        None => Ok(false),
    }
}

} // verus!
