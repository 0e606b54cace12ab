//! Shared-secret bearer authentication for the ingress handler.

use vstd::prelude::*;

verus! {

/// The bytes of the `Bearer ` scheme prefix that the authorization header
/// must carry before the shared secret.
pub open spec fn bearer_prefix() -> Seq<u8> {
    seq![66u8, 101u8, 97u8, 114u8, 101u8, 114u8, 32u8]
}

/// The bytes of an optional header value, when one is present.
pub open spec fn header_view(auth_header: Option<&[u8]>) -> Option<Seq<u8>> {
    match auth_header {
        Some(h) => Some(h@),
        None => None,
    }
}

/// A request is authorized exactly when it carries an authorization header
/// whose bytes are `Bearer ` followed by the shared secret, byte for byte.
pub open spec fn authorized(auth_header: Option<Seq<u8>>, secret: Seq<u8>) -> bool {
    &&& auth_header is Some
    &&& auth_header->0 == bearer_prefix() + secret
}

/// `Bearer <token>` authorizes exactly when the token equals the secret;
/// for every other token — a prefix or suffix of the secret, the empty
/// string, anything else — the header it forms is denied.
pub proof fn lemma_bearer_token_exact(token: Seq<u8>, secret: Seq<u8>)
    ensures
        authorized(Some(bearer_prefix() + token), secret) <==> token == secret,
{
    if authorized(Some(bearer_prefix() + token), secret) {
        assert(bearer_prefix() + token == bearer_prefix() + secret);
        assert(token.len() == secret.len());
        assert(token =~= secret) by {
            assert forall|i: int| 0 <= i < token.len() implies token[i] == secret[i] by {
                assert(token[i] == (bearer_prefix() + token)[7 + i]);
                assert(secret[i] == (bearer_prefix() + secret)[7 + i]);
            }
        }
    }
}

/// A request without the `Bearer ` scheme in front of its header bytes is
/// never authorized, whatever the secret.
pub proof fn lemma_wrong_scheme_denied(header: Seq<u8>, secret: Seq<u8>)
    requires
        header.len() < 7 || header.subrange(0, 7) != bearer_prefix(),
    ensures
        !authorized(Some(header), secret),
{
    if header == bearer_prefix() + secret {
        assert(header.subrange(0, 7) =~= bearer_prefix());
    }
}

/// Compares two byte strings for equality in constant time for a given pair
/// of lengths: after the length check it inspects every byte, folding
/// differences into an accumulator with XOR/OR instead of returning at the
/// first mismatch, so the comparison's timing leaks nothing about where the
/// inputs differ.
pub fn constant_time_eq(a: &[u8], b: &[u8]) -> (r: bool)
    ensures
        r == (a@ == b@),
{
    if a.len() != b.len() {
        return false;
    }
    let n: usize = a.len();
    let mut diff: u8 = 0;
    let mut i: usize = 0;
    while i < n
        invariant
            n == a@.len() && n == b@.len(),
            i <= n,
            (diff == 0) <==> (forall|j: int| 0 <= j < i ==> a@[j] == b@[j]),
        decreases n - i,
    {
        let ai: u8 = a[i];
        let bi: u8 = b[i];
        let x: u8 = ai ^ bi;
        assert((x == 0) <==> (ai == bi)) by (bit_vector)
            requires
                x == ai ^ bi,
        ;
        let folded: u8 = diff | x;
        assert((folded == 0) <==> (diff == 0 && x == 0)) by (bit_vector)
            requires
                folded == diff | x,
        ;
        diff = folded;
        i += 1;
    }
    if diff == 0 {
        assert(a@ =~= b@);
        true
    } else {
        assert(a@ != b@) by {
            if a@ == b@ {
                assert(forall|j: int| 0 <= j < n ==> a@[j] == b@[j]);
            }
        }
        false
    }
}

/// Decides whether a request's optional authorization header authorizes it
/// against the shared secret: the header must be present, start with the
/// `Bearer ` scheme, and carry a token equal to the secret under the
/// constant-time comparison.
pub fn is_authorized(auth_header: Option<&[u8]>, secret: &[u8]) -> (r: bool)
    ensures
        r == authorized(header_view(auth_header), secret@),
{
    match auth_header {
        None => false,
        Some(h) => {
            if h.len() < 7 {
                assert(!authorized(header_view(auth_header), secret@)) by {
                    assert(bearer_prefix().len() == 7);
                }
                return false;
            }
            let scheme_ok = h[0] == 66 && h[1] == 101 && h[2] == 97 && h[3] == 114 && h[4] == 101
                && h[5] == 114 && h[6] == 32;
            if !scheme_ok {
                assert(!authorized(header_view(auth_header), secret@)) by {
                    if h@ == bearer_prefix() + secret@ {
                        assert(forall|j: int| 0 <= j < 7 ==> h@[j] == bearer_prefix()[j]);
                    }
                }
                return false;
            }
            let token: &[u8] = &h[7..h.len()];
            let eq = constant_time_eq(token, secret);
            proof {
                assert(token@ == h@.subrange(7, h@.len() as int));
                if eq {
                    assert(h@ =~= bearer_prefix() + secret@);
                } else {
                    if h@ == bearer_prefix() + secret@ {
                        assert(h@.subrange(7, h@.len() as int) =~= secret@);
                    }
                }
            }
            eq
        },
    }
}

} // verus!
