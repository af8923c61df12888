//! A client of the text protocol. It knows where the service is and what to
//! ask it; sending the request is left to the caller.
use vstd::prelude::*;
use lingua::Language;
use reqwest::Client;
use reqwest::Error as ReqwestError;
use crate::error::Error;
use crate::model::ConfidenceResponse;
use crate::model::DetectQuery;
use crate::model::DetectResponse;
use crate::text::chars_of;

verus! {

#[verifier::external_type_specification]
#[verifier::external_body]
pub struct ExClient(Client);

/// A text without the slashes at its end.
pub open spec fn without_trailing_slashes(text: Seq<char>) -> Seq<char>
    decreases text.len(),
{
    if text.len() > 0 && text.last() == '/' {
        without_trailing_slashes(text.drop_last())
    } else {
        text
    }
}

/// A client for the service at one address.
pub struct LanguageApiClient {
    client: Client,
    endpoint: String,
}

impl LanguageApiClient {
    /// The address of the service, without a slash at its end.
    pub closed spec fn address(&self) -> Seq<char> {
        self.endpoint@
    }

    /// The connection that requests are sent over.
    pub closed spec fn connection(&self) -> Client {
        self.client
    }

    /// A client for the service at `endpoint`, which may end in slashes.
    pub fn new(client: Client, endpoint: &str) -> (made: LanguageApiClient)
        ensures
            made.address() == without_trailing_slashes(endpoint@),
            made.connection() == client,
    {
        let chars = chars_of(endpoint);
        let mut end = chars.len();
        assert(chars@.take(end as int) =~= chars@);
        while end > 0 && chars[end - 1] == '/'
            invariant
                end <= chars@.len(),
                without_trailing_slashes(chars@) == without_trailing_slashes(
                    chars@.take(end as int),
                ),
            decreases end,
        {
            assert(chars@.take(end as int).drop_last() =~= chars@.take(end - 1));
            end -= 1;
        }
        assert(chars@.take(end as int) =~= endpoint@.subrange(0, end as int));
        LanguageApiClient { client, endpoint: endpoint.substring_char(0, end).to_owned() }
    }

    /// The address of the service.
    pub fn endpoint(&self) -> (address: &str)
        ensures
            address@ == self.address(),
    {
        self.endpoint.as_str()
    }

    /// The connection that requests are sent over.
    pub fn client(&self) -> (connection: &Client)
        ensures
            *connection == self.connection(),
    {
        &self.client
    }

    /// Where to post a text to learn its language.
    pub fn detect_url(&self) -> (url: String)
        ensures
            url@ == self.address() + "/detect"@,
    {
        self.endpoint.clone().concat("/detect")
    }

    /// Where to post a text to learn the confidence in each language.
    pub fn confidence_url(&self) -> (url: String)
        ensures
            url@ == self.address() + "/confidence"@,
    {
        self.endpoint.clone().concat("/confidence")
    }

    /// What to post to ask about `text`.
    pub fn query(&self, text: &str) -> (query: DetectQuery)
        ensures
            query.text@ == text@,
    {
        DetectQuery::new(text)
    }
}

/// What a call of `POST /detect` came to: the language that the reply
/// names, or the failure of the call.
pub fn detected(reply: Result<DetectResponse, ReqwestError>) -> (outcome: Result<
    Option<Language>,
    Error,
>)
    ensures
        outcome == match reply {
            Ok(response) => Ok::<Option<Language>, Error>(response.0),
            Err(failure) => Err(Error::Reqwest(failure)),
        },
{
    match reply {
        Ok(response) => Ok(response.0),
        Err(failure) => Err(Error::from(failure)),
    }
}

/// What a call of `POST /confidence` came to: the ranking that the reply
/// holds, or the failure of the call.
pub fn confidences(reply: Result<ConfidenceResponse, ReqwestError>) -> (outcome: Result<
    Vec<(Language, u64)>,
    Error,
>)
    ensures
        outcome == match reply {
            Ok(response) => Ok::<Vec<(Language, u64)>, Error>(response.0),
            Err(failure) => Err(Error::Reqwest(failure)),
        },
{
    match reply {
        Ok(response) => Ok(response.0),
        Err(failure) => Err(Error::from(failure)),
    }
}

} // verus!
