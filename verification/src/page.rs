//! Raw pages and the continuation cursor carried in their headers.

use vstd::prelude::*;

verus! {

/// Network-level failure reported by the transport collaborator.
/// The library never produces one itself; the caller that performs
/// the HTTP request hands it in as the outcome of a pending operation.
#[derive(Debug, Clone, PartialEq, Eq)]
pub struct TransportError {
    pub message: String,
}

/// One resolved HTTP response: status, headers and body, as plain values.
/// The continuation cursor, if any, sits among the headers.
#[derive(Debug, Clone, PartialEq, Eq)]
pub struct RawPage {
    pub status: u16,
    pub headers: Vec<(String, String)>,
    pub body: Vec<u8>,
}

/// Name of the response header that carries the continuation cursor.
pub open spec fn cursor_header() -> Seq<char> {
    "cb-after"@
}

/// The cursor carried by a header list: the value of the first header
/// named `cb-after`, if any.
pub open spec fn cursor_in(headers: Seq<(String, String)>) -> Option<Seq<char>>
    decreases headers.len(),
{
    if headers.len() == 0 {
        None
    } else if headers[0].0@ == cursor_header() {
        Some(headers[0].1@)
    } else {
        cursor_in(headers.drop_first())
    }
}

/// The continuation cursor of a page, read from its headers.
pub open spec fn cursor_of(page: RawPage) -> Option<Seq<char>> {
    cursor_in(page.headers@)
}

impl RawPage {
    /// Extracts the continuation cursor from the response headers,
    /// as a pure function of the header list.
    pub fn extract_cursor(&self) -> (r: Option<String>)
        ensures
            match r {
                Some(c) => cursor_of(*self) == Some(c@),
                None => cursor_of(*self) is None,
            },
    {
        let name: String = String::from_str("cb-after");
        let n = self.headers.len();
        proof {
            assert(self.headers@.skip(0) =~= self.headers@);
        }
        for i in 0..n
            invariant
                n == self.headers@.len(),
                name@ == cursor_header(),
                cursor_in(self.headers@.skip(i as int)) == cursor_of(*self),
        {
            proof {
                assert(self.headers@.skip(i as int)[0] == self.headers@[i as int]);
            }
            if self.headers[i].0 == name {
                return Some(self.headers[i].1.clone());
            }
            proof {
                assert(self.headers@.skip(i as int).drop_first() =~= self.headers@.skip(
                    i + 1,
                ));
            }
        }
        proof {
            assert(self.headers@.skip(n as int) =~= Seq::<(String, String)>::empty());
        }
        None
    }
}

} // verus!
