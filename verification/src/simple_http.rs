//! The decisions of the `simple_http` client that do not need the network:
//! the credentials in a cookie file, and the checks on a fee estimate.

use vstd::prelude::*;
use vstd::string::StrSliceExecFns;
use std::path::PathBuf;

use crate::error::Error;

verus! {

/// `std::path::PathBuf`, the path of a cookie file.
#[verifier::external_type_specification]
#[verifier::external_body]
pub struct ExPathBuf(PathBuf);

/// `<PathBuf as Clone>::clone`: a copy of the path.
pub assume_specification[ <std::path::PathBuf as Clone>::clone ](p: &PathBuf) -> (r: PathBuf)
    ensures
        r == *p,
;

/// The way of authenticating to the JSON-RPC server.
#[derive(Debug)]
pub enum Auth {
    /// User and password
    UserPass(String, String),
    /// Path to cookie file
    CookieFile(PathBuf),
}

impl Clone for Auth {
    fn clone(&self) -> (a: Self)
        ensures
            a == *self,
    {
        match self {
            Auth::UserPass(user, pass) => Auth::UserPass(user.clone(), pass.clone()),
            Auth::CookieFile(path) => Auth::CookieFile(path.clone()),
        }
    }
}

/// `c` is the position of the first `:` in `line`.
pub open spec fn first_colon_at(line: Seq<char>, c: int) -> bool {
    &&& 0 <= c < line.len()
    &&& line[c] == ':'
    &&& forall|j: int| 0 <= j < c ==> line[j] != ':'
}

/// The position of the first `:` in `line`.
pub open spec fn first_colon(line: Seq<char>) -> int {
    choose|c: int| first_colon_at(line, c)
}

/// The user and password in the first line of a cookie file: the text before
/// the first `:` and the text after it.
///
/// A cookie file without a first line, or whose first line holds no `:`, is
/// an [`Error::InvalidCookieFile`].
pub fn cookie_user_pass(first_line: Option<&str>) -> (r: Result<(String, String), Error>)
    ensures
        (match first_line {
            None => r matches Err(Error::InvalidCookieFile),
            Some(line) => if line@.contains(':') {
                match r {
                    Ok((user, pass)) => {
                        let c = first_colon(line@);
                        &&& first_colon_at(line@, c)
                        &&& user@ == line@.take(c)
                        &&& pass@ == line@.skip(c + 1)
                    },
                    Err(_) => false,
                }
            } else {
                r matches Err(Error::InvalidCookieFile)
            },
        }),
{
    if first_line.is_none() {
        return Err(Error::InvalidCookieFile);
    }
    let line = first_line.unwrap();
    let n = line.unicode_len();
    let mut c: usize = 0;
    while c < n
        invariant
            first_line == Some(line),
            n == line@.len(),
            c <= n,
            forall|j: int| 0 <= j < c ==> line@[j] != ':',
        decreases n - c,
    {
        if line.get_char(c) == ':' {
            proof {
                assert(line@[c as int] == ':');
                assert(line@.contains(':'));
                assert(first_colon_at(line@, c as int));
                let c2 = first_colon(line@);
                assert(first_colon_at(line@, c2));
                if c2 < c {
                    assert(line@[c2] != ':');
                } else if c2 > c {
                    assert(line@[c as int] != ':');
                }
                assert(first_colon(line@) == c);
            }
            let user = line.substring_char(0, c).to_owned();
            let pass = line.substring_char(c + 1, n).to_owned();
            assert(line@.take(c as int) =~= line@.subrange(0, c as int));
            assert(line@.skip(c + 1) =~= line@.subrange(c + 1, n as int));
            assert(user@ == line@.take(c as int));
            assert(pass@ == line@.skip(c + 1));
            return Ok((user, pass));
        }
        c += 1;
    }
    assert(!line@.contains(':'));
    Err(Error::InvalidCookieFile)
}

/// The message of the error for an estimate without a fee rate.
pub open spec fn no_fee_rate_message() -> Seq<char> {
    "estimatesmartfee returned no fee_rate"@
}

/// The checks on the reply to `estimatesmartfee` that come before its fee rate
/// is read: the first error the node reports, if any, is returned; else a
/// reply without a fee rate is an error.
pub fn check_fee_estimate(errors: &Option<Vec<String>>, has_fee_rate: bool) -> (r: Result<(), Error>)
    ensures
        (match errors {
            Some(v) if v@.len() > 0 => match r {
                Err(Error::Returned(e)) => e == v@[0],
                _ => false,
            },
            _ => if has_fee_rate {
                r is Ok
            } else {
                match r {
                    Err(Error::Returned(e)) => e@ == no_fee_rate_message(),
                    _ => false,
                }
            },
        }),
{
    if let Some(v) = errors {
        if v.len() > 0 {
            return Err(Error::Returned(v[0].clone()));
        }
    }
    if !has_fee_rate {
        return Err(Error::Returned("estimatesmartfee returned no fee_rate".to_owned()));
    }
    Ok(())
}

} // verus!
