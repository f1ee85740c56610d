//! What ends the serving of a connection early.

use vstd::prelude::*;
use vstd::string::StringExecFns;

verus! {

/// An error of the protocol, of making the service, or of the service.
#[derive(Debug)]
pub enum Error<P, M, S> {
    /// The connection failed.
    Protocol(P),
    /// No service could be made for the connection.
    MakeService(M),
    /// The service failed on a request.
    Service(S),
}

impl<P, M, S> Error<P, M, S> {
    /// The words before the cause in the message of an error.
    pub open spec fn prefix(&self) -> Seq<char> {
        match self {
            Error::Protocol(_) => "HTTP/3: "@,
            Error::MakeService(_) => "MakService: "@,
            Error::Service(_) => "App: "@,
        }
    }

    /// The name of the kind of error.
    pub fn name(&self) -> (out: &'static str)
        ensures
            out@ == match self {
                Error::Protocol(_) => "Protocol"@,
                Error::MakeService(_) => "MakeService"@,
                Error::Service(_) => "Service"@,
            },
    {
        match self {
            Error::Protocol(_) => "Protocol",
            Error::MakeService(_) => "MakeService",
            Error::Service(_) => "Service",
        }
    }

    /// The message of an error, given that of its cause.
    pub fn message(&self, cause: &str) -> (out: String)
        ensures
            out@ == self.prefix() + cause@,
    {
        let words = match self {
            Error::Protocol(_) => "HTTP/3: ",
            Error::MakeService(_) => "MakService: ",
            Error::Service(_) => "App: ",
        };
        let mut out = String::from_str(words);
        out.append(cause);
        out
    }
}

/// The message of an error begins with the words for its kind, whatever error
/// it holds, and ends with the message of its cause, unchanged. Every error has
/// one.
pub proof fn law_a_message_names_the_kind_and_the_cause<P, M, S>(
    error: Error<P, M, S>,
    cause: &str,
    out: String,
)
    requires
        call_ensures(Error::<P, M, S>::message, (&error, cause), out),
    ensures
        call_requires(Error::<P, M, S>::message, (&error, cause)),
        error is Protocol ==> out@ == "HTTP/3: "@ + cause@,
        error is MakeService ==> out@ == "MakService: "@ + cause@,
        error is Service ==> out@ == "App: "@ + cause@,
{
}

/// Errors of one kind have the same message if and only if their causes do,
/// and errors of different kinds have different messages for the same cause.
pub proof fn law_messages_tell_errors_apart<P, M, S>(
    one: Error<P, M, S>,
    other: Error<P, M, S>,
    cause: &str,
    of_other: &str,
    out: String,
    out_of_other: String,
)
    requires
        call_ensures(Error::<P, M, S>::message, (&one, cause), out),
        call_ensures(Error::<P, M, S>::message, (&other, of_other), out_of_other),
    ensures
        (one is Protocol && other is Protocol) || (one is MakeService && other is MakeService) || (
        one is Service && other is Service) ==> (out@ == out_of_other@ <==> cause@ == of_other@),
        cause@ == of_other@ && out@ == out_of_other@ ==> {
            &&& one is Protocol <==> other is Protocol
            &&& one is MakeService <==> other is MakeService
            &&& one is Service <==> other is Service
        },
{
    reveal_strlit("HTTP/3: ");
    reveal_strlit("MakService: ");
    reveal_strlit("App: ");
    let n: int = out@.len() - cause@.len();
    assert(out@.skip(n) =~= cause@);
    let m: int = out_of_other@.len() - of_other@.len();
    assert(out_of_other@.skip(m) =~= of_other@);
}

/// An error is named after its kind, whatever it holds, and kinds have names
/// of their own.
pub proof fn law_a_name_is_that_of_the_kind<P, M, S>(error: Error<P, M, S>, out: &'static str)
    requires
        call_ensures(Error::<P, M, S>::name, (&error,), out),
    ensures
        call_requires(Error::<P, M, S>::name, (&error,)),
        error is Protocol <==> out@ == "Protocol"@,
        error is MakeService <==> out@ == "MakeService"@,
        error is Service <==> out@ == "Service"@,
{
    reveal_strlit("Protocol");
    reveal_strlit("MakeService");
    reveal_strlit("Service");
    assert("Protocol"@.len() == 8);
    assert("MakeService"@.len() == 11);
    assert("Service"@.len() == 7);
}

} // verus!
