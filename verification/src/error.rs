use vstd::prelude::*;

verus! {

/// The errors that the library reports.
#[derive(Debug)]
pub enum AWSError {
    XmlParse(String),
    NoCredentials,
    ProtocolError(String),
}

/// The result of a request to AWS.
pub type AWSResult<T> = Result<T, AWSError>;

impl AWSError {
    /// A protocol error that carries `msg` as its message.
    pub fn protocol_error(msg: &str) -> (err: AWSError)
        ensures
            err matches AWSError::ProtocolError(m) && m@ == msg@,
    {
        AWSError::ProtocolError(msg.to_owned())
    }
}

} // verus!
