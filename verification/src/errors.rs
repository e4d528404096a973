use vstd::prelude::*;

verus! {

/// Errors surfaced by the operation processor.
///
/// `Kernel` carries the magnitude of a negative completion code as a
/// standard OS errno. `Resolution` reports that no candidate address was
/// available for a connect. `Conversion` reports an address family mismatch,
/// a malformed kernel address buffer, or a representation the canonical
/// address type cannot hold.
#[derive(Clone, Copy, Debug, PartialEq, Eq, Structural)]
pub enum OpError {
    Kernel { errno: i64 },
    Resolution,
    Conversion,
}

/// Decodes one signed completion code for a transfer operation: a
/// non-negative value is the number of bytes moved (a short transfer is a
/// legal outcome and is not retried here), a negative value encodes a
/// kernel errno.
pub fn decode_completion(code: i32) -> (r: Result<usize, OpError>)
    ensures
        code >= 0 ==> r == Ok::<usize, OpError>(code as usize),
        code < 0 ==> (r matches Err(e) && e == (OpError::Kernel { errno: (-(code as i64)) as i64 })),
{
    if code >= 0 {
        Ok(code as usize)
    } else {
        Err(OpError::Kernel { errno: -(code as i64) })
    }
}

/// Decodes one signed completion code for an accept operation: a
/// non-negative value is the raw descriptor of the newly created
/// connection, a negative value encodes a kernel errno.
pub fn decode_completion_fd(code: i32) -> (r: Result<i32, OpError>)
    ensures
        code >= 0 ==> r == Ok::<i32, OpError>(code),
        code < 0 ==> (r matches Err(e) && e == (OpError::Kernel { errno: (-(code as i64)) as i64 })),
{
    if code >= 0 {
        Ok(code)
    } else {
        Err(OpError::Kernel { errno: -(code as i64) })
    }
}

} // verus!
