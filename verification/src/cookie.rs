//! Cookies, and the one header that a jar of them folds into.

use vstd::prelude::*;
use vstd::string::StringExecFns;

verus! {

/// One cookie to be set by a response.
#[derive(Debug)]
pub struct Cookie {
    pub name: String,
    pub value: String,
    pub secure: bool,
    pub httponly: bool,
}

/// What a [`Cookie`] holds, as plain mathematical values.
pub ghost struct CookieView {
    pub name: Seq<char>,
    pub value: Seq<char>,
    pub secure: bool,
    pub httponly: bool,
}

impl View for Cookie {
    type V = CookieView;

    open spec fn view(&self) -> CookieView {
        CookieView {
            name: self.name@,
            value: self.value@,
            secure: self.secure,
            httponly: self.httponly,
        }
    }
}

/// The text of one cookie: `name=value`, then `; Secure` and `; HttpOnly`, in
/// that order, for the flags that are set.
pub open spec fn cookie_text(cookie: CookieView) -> Seq<char> {
    cookie.name + "="@ + cookie.value + (if cookie.secure {
        "; Secure"@
    } else {
        Seq::empty()
    }) + (if cookie.httponly {
        "; HttpOnly"@
    } else {
        Seq::empty()
    })
}

/// The texts of all cookies, in order, joined by `"; "`.
pub open spec fn jar_text(cookies: Seq<CookieView>) -> Seq<char>
    decreases cookies.len(),
{
    if cookies.len() == 0 {
        Seq::empty()
    } else if cookies.len() == 1 {
        cookie_text(cookies[0])
    } else {
        jar_text(cookies.drop_last()) + "; "@ + cookie_text(cookies.last())
    }
}

/// The name of the header that carries a jar's cookies.
pub open spec fn set_cookie() -> Seq<char> {
    "Set-Cookie"@
}

/// Cookies in the order they were added.
pub struct CookieJar {
    cookies: Vec<Cookie>,
}

impl View for CookieJar {
    type V = Seq<CookieView>;

    closed spec fn view(&self) -> Seq<CookieView> {
        self.cookies@.map_values(|cookie: Cookie| cookie@)
    }
}

impl Default for CookieJar {
    fn default() -> (jar: Self)
        ensures
            jar@ == Seq::<CookieView>::empty(),
    {
        let jar = CookieJar { cookies: Vec::new() };
        assert(jar@ =~= Seq::<CookieView>::empty());
        jar
    }
}

impl CookieJar {
    /// Appends a cookie; the cookies already in the jar keep their places.
    pub fn add_cookie(&mut self, name: &str, value: &str, secure: bool, httponly: bool)
        ensures
            final(self)@ == old(self)@.push(
                (CookieView { name: name@, value: value@, secure, httponly }),
            ),
    {
        let cookie = Cookie { name: name.to_string(), value: value.to_string(), secure, httponly };
        self.cookies.push(cookie);
        assert(self@ =~= old(self)@.push(cookie@));
    }

    /// Folds the jar into a single header: the name `Set-Cookie` and, as its
    /// value, the texts of all cookies joined by `"; "`.
    pub fn eat_cookies(&self) -> (header: (String, String))
        ensures
            header.0@ == set_cookie(),
            header.1@ == jar_text(self@),
    {
        let mut header = String::new();
        let n = self.cookies.len();
        let mut i: usize = 0;
        while i < n
            invariant
                n == self.cookies@.len(),
                i <= n,
                header@ == jar_text(self@.take(i as int)),
            decreases n - i,
        {
            let cookie = &self.cookies[i];
            let ghost before = self@.take(i as int);
            let ghost now = self@.take(i + 1);
            assert(now.drop_last() =~= before);
            if i > 0 {
                header.append("; ");
            }
            header.append(cookie.name.as_str());
            header.append("=");
            header.append(cookie.value.as_str());
            if cookie.secure {
                header.append("; Secure");
            }
            if cookie.httponly {
                header.append("; HttpOnly");
            }
            i += 1;
        }
        assert(self@.take(n as int) =~= self@);
        ("Set-Cookie".to_string(), header)
    }

    /// The jar as text: the header's name, `=`, and the header's value.
    pub fn to_string(&self) -> (text: String)
        ensures
            text@ == set_cookie() + "="@ + jar_text(self@),
    {
        let (name, value) = self.eat_cookies();
        let mut text = name;
        text.append("=");
        text.append(value.as_str());
        text
    }
}

} // verus!
