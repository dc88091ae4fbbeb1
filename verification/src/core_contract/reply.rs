use vstd::prelude::*;

verus! {

/// The outcome of a sub-message, as the host reports it to `reply`: its
/// result data on success, or the error text on failure.
#[derive(Debug)]
pub enum SubMsgOutcome {
    Success { data: Option<Vec<u8>> },
    Failure(String),
}

/// Why the reply of an instantiation could not be read.
#[derive(Debug)]
pub enum ParseReplyError {
    SubMsgFailure(String),
    ParseFailure(String),
    BrokenUtf8,
}

/// Name for the contract address that `cw_utils::parse_instantiate_response_data`
/// decodes (protobuf field 1) from the data of an instantiation reply;
/// `None` when the data does not decode.
pub uninterp spec fn instantiated_address(data: Seq<u8>) -> Option<Seq<char>>;

/// `cw_utils::parse_reply_instantiate_data` on a reply with outcome
/// `outcome`: a failed sub-message gives `SubMsgFailure` with its error text,
/// a success without data gives `ParseFailure`, and otherwise the data is
/// decoded into the new contract's address (named `instantiated_address`),
/// a decoding failure giving `ParseFailure` or `BrokenUtf8`.
#[verifier::external_body]
pub(crate) fn parse_reply_instantiate_data(outcome: SubMsgOutcome) -> (r: Result<String, ParseReplyError>)
    ensures
        r is Ok <==> (outcome is Success && outcome->data is Some
            && instantiated_address(outcome->data->0@) is Some),
        r matches Ok(a) ==> a@ == instantiated_address(outcome->data->0@)->0,
        r matches Err(e) ==> match outcome {
            SubMsgOutcome::Failure(msg) => e matches ParseReplyError::SubMsgFailure(m) && m@ == msg@,
            SubMsgOutcome::Success { data } => match data {
                None => e is ParseFailure,
                Some(_) => e is ParseFailure || e is BrokenUtf8,
            },
        },
{
    let result = match outcome {
        SubMsgOutcome::Success { data } => cosmwasm_std::SubMsgResult::Ok(cosmwasm_std::SubMsgResponse {
            events: vec![],
            data: data.map(cosmwasm_std::Binary),
        }),
        SubMsgOutcome::Failure(msg) => cosmwasm_std::SubMsgResult::Err(msg),
    };
    match cw_utils::parse_reply_instantiate_data(cosmwasm_std::Reply { id: 0, result }) {
        Ok(resp) => Ok(resp.contract_address),
        Err(cw_utils::ParseReplyError::SubMsgFailure(m)) => Err(ParseReplyError::SubMsgFailure(m)),
        Err(cw_utils::ParseReplyError::ParseFailure(m)) => Err(ParseReplyError::ParseFailure(m)),
        Err(cw_utils::ParseReplyError::BrokenUtf8(_)) => Err(ParseReplyError::BrokenUtf8),
    }
}

} // verus!
