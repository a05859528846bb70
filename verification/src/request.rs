//! What identity extraction reads of an inbound request: its cookies.

use vstd::prelude::*;
use crate::text::str_eq;

verus! {

/// One cookie of a request, after any decoding of the header.
#[derive(Debug, Clone, PartialEq, Eq)]
pub struct Cookie {
    pub name: String,
    pub value: String,
}

/// The cookies of an inbound request, in the order in which they were sent.
#[derive(Debug, Clone, PartialEq, Eq)]
pub struct Request {
    pub cookies: Vec<Cookie>,
}

/// The value of the first cookie among `cookies` that is named `name`;
/// `None` where none is.
pub open spec fn first_value(cookies: Seq<Cookie>, name: Seq<char>) -> Option<Seq<char>>
    decreases cookies.len(),
{
    if cookies.len() == 0 {
        None
    } else if cookies[0].name@ == name {
        Some(cookies[0].value@)
    } else {
        first_value(cookies.drop_first(), name)
    }
}

impl Request {
    /// The value of the cookie named `name`, if the request has one.
    pub open spec fn cookie_value(&self, name: Seq<char>) -> Option<Seq<char>> {
        first_value(self.cookies@, name)
    }

    /// A request with the given cookies.
    pub fn new(cookies: Vec<Cookie>) -> (r: Request)
        ensures
            r.cookies == cookies,
    {
        Request { cookies }
    }

    /// Looks up the cookie named `name`. Names are compared letter for
    /// letter; where several cookies bear the name, the first one counts.
    pub fn cookie(&self, name: &str) -> (r: Option<&str>)
        ensures
            match r {
                Some(value) => self.cookie_value(name@) == Some(value@),
                None => self.cookie_value(name@) is None,
            },
    {
        let mut i: usize = 0;
        assert(self.cookies@.skip(0) =~= self.cookies@);
        while i < self.cookies.len()
            invariant
                i <= self.cookies.len(),
                first_value(self.cookies@, name@) == first_value(
                    self.cookies@.skip(i as int),
                    name@,
                ),
            decreases self.cookies.len() - i,
        {
            let ghost rest = self.cookies@.skip(i as int);
            assert(rest[0] == self.cookies@[i as int]);
            assert(rest.drop_first() =~= self.cookies@.skip(i + 1));
            if str_eq(self.cookies[i].name.as_str(), name) {
                return Some(self.cookies[i].value.as_str());
            }
            i += 1;
        }
        None
    }
}

} // verus!
