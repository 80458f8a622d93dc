//! The choice of the secret that signs client tokens.
use vstd::prelude::*;
use vstd::string::StrSliceExecFns;
use vstd::utf8::encode_utf8;

verus! {

/// No secret was given where one is required.
#[derive(Debug, PartialEq, Clone)]
pub enum SecretError {
    /// Neither the command line nor the environment gives a secret, and the
    /// server listens on more than the loopback interface.
    Missing,
}

pub open spec fn str_option_view(o: Option<&str>) -> Option<Seq<char>> {
    match o {
        Some(s) => Some(s@),
        None => None,
    }
}

/// The secret that is used when none is given and none is required.
pub open spec fn default_secret() -> Seq<char> {
    "jwt_secret"@
}

/// The secret given: the command line's before the environment's.
pub open spec fn given_secret(cli: Option<Seq<char>>, env: Option<Seq<char>>) -> Option<Seq<char>> {
    match cli {
        Some(s) => Some(s),
        None => env,
    }
}

/// Chooses the token secret: the one given on the command line, else the
/// one in the environment, else an error where one is `required`, else a
/// fixed development secret. The result is the secret's UTF-8 bytes.
pub fn jwt_secret(cli: Option<&str>, env: Option<&str>, required: bool) -> (r: Result<Vec<u8>, SecretError>)
    ensures
        match given_secret(str_option_view(cli), str_option_view(env)) {
            Some(s) => r matches Ok(v) && v@ == encode_utf8(s),
            None => if required {
                r == Err::<Vec<u8>, SecretError>(SecretError::Missing)
            } else {
                r matches Ok(v) && v@ == encode_utf8(default_secret())
            },
        },
{
    match cli {
        Some(s) => Ok(s.as_bytes_vec()),
        None => match env {
            Some(s) => Ok(s.as_bytes_vec()),
            None => if required {
                Err(SecretError::Missing)
            } else {
                Ok("jwt_secret".as_bytes_vec())
            },
        },
    }
}

} // verus!
