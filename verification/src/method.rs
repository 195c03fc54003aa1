//! The commands of the upload client.
use vstd::prelude::*;

verus! {

/// A command of the upload client, numbered from 0 in this order.
#[derive(Clone, Copy, Debug, PartialEq, Eq, Structural)]
pub enum Method {
    Help,
    Balance,
    Withdraw,
    Upload,
    UploadDir,
    Fund,
    Price,
}

impl Method {
    /// The command's number.
    pub open spec fn spec_code(&self) -> u8 {
        match self {
            Method::Help => 0,
            Method::Balance => 1,
            Method::Withdraw => 2,
            Method::Upload => 3,
            Method::UploadDir => 4,
            Method::Fund => 5,
            Method::Price => 6,
        }
    }

    /// The command's number.
    pub fn code(&self) -> (c: u8)
        ensures
            c == self.spec_code(),
    {
        match self {
            Method::Help => 0,
            Method::Balance => 1,
            Method::Withdraw => 2,
            Method::Upload => 3,
            Method::UploadDir => 4,
            Method::Fund => 5,
            Method::Price => 6,
        }
    }
}

/// Different commands have different numbers.
pub proof fn method_codes_distinct(a: Method, b: Method)
    ensures
        a.spec_code() == b.spec_code() <==> a == b,
{
}

} // verus!
