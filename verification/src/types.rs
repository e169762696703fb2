use vstd::prelude::*;

verus! {

/// Common error type.
#[derive(Debug, Clone, PartialEq, Eq, Hash)]
pub enum Error {
    Alloc,
    Fluid(String),
    Path,
}

/// The text describing an error.
pub open spec fn spec_error_message(e: Error) -> Seq<char> {
    match e {
        Error::Alloc => "Allocation error"@,
        Error::Fluid(s) => "Fluidlite error: "@ + s@,
        Error::Path => "Invalid path"@,
    }
}

impl Error {
    /// The text describing the error.
    pub fn message(&self) -> (r: String)
        ensures
            r@ == spec_error_message(*self),
    {
        match self {
            Error::Alloc => String::from_str("Allocation error"),
            Error::Fluid(e) => {
                let mut s = String::from_str("Fluidlite error: ");
                s.append(e.as_str());
                s
            },
            Error::Path => String::from_str("Invalid path"),
        }
    }
}

/// The result of an allocation at address `addr`: an error when the
/// address is null (zero).
pub fn result_from_ptr(addr: usize) -> (r: Result<usize, Error>)
    ensures
        addr == 0 ==> r == Err::<usize, Error>(Error::Alloc),
        addr != 0 ==> r == Ok::<usize, Error>(addr),
{
    if addr == 0 {
        Err(Error::Alloc)
    } else {
        Ok(addr)
    }
}

/// The address `addr`, or none when it is null (zero).
pub fn option_from_ptr(addr: usize) -> (r: Option<usize>)
    ensures
        addr == 0 ==> r is None,
        addr != 0 ==> r == Some(addr),
{
    if addr == 0 {
        None
    } else {
        Some(addr)
    }
}

} // verus!
