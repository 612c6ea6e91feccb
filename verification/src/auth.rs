//! The authentication middleware: a request goes on only with a `user`
//! header, whose text becomes the request's user.

use vstd::prelude::*;
use crate::text::push_char;

verus! {

/// Whether a header byte is visible ASCII (or a tab), which is what a header
/// value must hold to be read as text.
pub open spec fn is_visible_ascii(b: u8) -> bool {
    (32 <= b && b < 127) || b == 9
}

/// The text of header bytes that are all visible ASCII.
pub open spec fn ascii_text(bytes: Seq<u8>) -> Seq<char> {
    bytes.map_values(|b: u8| b as char)
}

/// The name of the header that carries the user.
pub open spec fn user_header_name() -> Seq<char> {
    "user"@
}

/// The middleware factory.
#[derive(Debug, Clone, Copy)]
pub struct ToadAuthMiddleware;

/// The middleware wrapped round the next service.
#[derive(Debug)]
pub struct AuthMiddlewareService<S> {
    pub service: S,
}

impl ToadAuthMiddleware {
    /// Wraps the middleware round `service`.
    pub fn new_transform<S>(&self, service: S) -> (r: AuthMiddlewareService<S>)
        ensures
            r.service == service,
    {
        AuthMiddlewareService { service }
    }
}

/// The name of the header that carries the user.
pub fn user_header() -> (r: &'static str)
    ensures
        r@ == user_header_name(),
{
    "user"
}

/// `r` is the user of a request with the `user` header value `header`:
/// none when the header is missing, else the header's text.
pub open spec fn authorizes(header: Option<&[u8]>, r: Option<String>) -> bool {
    &&& (header is None <==> r is None)
    &&& header matches Some(h) ==> r matches Some(u) && u@ == ascii_text(h@)
}

/// The user that a request with the given `user` header value is made
/// for: `None` (the request is refused as unauthorised) when the header is
/// missing, else the header's text.
pub fn authorized_user(header: Option<&[u8]>) -> (r: Option<String>)
    requires
        header matches Some(h) ==> forall|i: int| 0 <= i < h@.len() ==> is_visible_ascii(#[trigger] h@[i]),
    ensures
        authorizes(header, r),
{
    match header {
        None => None,
        Some(h) => {
            let mut user = String::new();
            let mut i: usize = 0;
            while i < h.len()
                invariant
                    i <= h@.len(),
                    user@ == ascii_text(h@.subrange(0, i as int)),
                decreases h@.len() - i,
            {
                push_char(&mut user, h[i] as char);
                proof {
                    assert(h@.subrange(0, i + 1) =~= h@.subrange(0, i as int).push(h@[i as int]));
                }
                i = i + 1;
                proof {
                    assert(user@ =~= ascii_text(h@.subrange(0, i as int)));
                }
            }
            assert(h@.subrange(0, h@.len() as int) =~= h@);
            Some(user)
        },
    }
}

} // verus!
