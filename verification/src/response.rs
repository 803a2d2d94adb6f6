//! The response that a page renders.

use vstd::prelude::*;
use crate::cookie::{jar_text, set_cookie, CookieJar, CookieView};

verus! {

/// What a page answers: a status, headers in order (a name may occur more than
/// once), a body, and the cookies still to be folded into the headers.
pub struct AppResponse {
    pub status_code: u16,
    pub headers: Vec<(String, String)>,
    pub body: Vec<u8>,
    pub cookies: CookieJar,
}

/// What an [`AppResponse`] holds, as plain mathematical values.
pub ghost struct ResponseView {
    pub status_code: u16,
    pub headers: Seq<(Seq<char>, Seq<char>)>,
    pub body: Seq<u8>,
    pub cookies: Seq<CookieView>,
}

/// A header list as pairs of texts.
pub open spec fn headers_view(headers: Seq<(String, String)>) -> Seq<(Seq<char>, Seq<char>)> {
    headers.map_values(|header: (String, String)| (header.0@, header.1@))
}

/// The answer to a request that no handler accepts: status 404 and nothing else.
pub open spec fn not_found() -> ResponseView {
    ResponseView {
        status_code: 404,
        headers: Seq::empty(),
        body: Seq::empty(),
        cookies: Seq::empty(),
    }
}

impl View for AppResponse {
    type V = ResponseView;

    open spec fn view(&self) -> ResponseView {
        ResponseView {
            status_code: self.status_code,
            headers: headers_view(self.headers@),
            body: self.body@,
            cookies: self.cookies@,
        }
    }
}

impl AppResponse {
    /// A response with the given status, headers and body, and no cookies.
    pub fn new(status_code: u16, headers: Vec<(String, String)>, body: Vec<u8>) -> (response: Self)
        ensures
            response@ == (ResponseView {
                status_code,
                headers: headers_view(headers@),
                body: body@,
                cookies: Seq::empty(),
            }),
    {
        AppResponse { status_code, headers, body, cookies: CookieJar::default() }
    }

    /// Folds the cookies into the headers: appends the one `Set-Cookie` header
    /// that the jar gives. The headers already there keep their places; status,
    /// body and the jar itself stay as they are.
    pub fn eat_cookies(&mut self)
        ensures
            final(self)@ == (ResponseView {
                headers: old(self)@.headers.push((set_cookie(), jar_text(old(self)@.cookies))),
                ..old(self)@
            }),
    {
        let header = self.cookies.eat_cookies();
        self.headers.push(header);
        assert(headers_view(self.headers@) =~= headers_view(old(self).headers@).push(
            (set_cookie(), jar_text(old(self)@.cookies)),
        ));
    }
}

} // verus!
