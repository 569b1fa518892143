//! Forwarding processed posts to the context service: the request that is
//! sent, and what its reply amounts to.

use crate::config::{base_url_of, Config, Credential};
use crate::error::{ServiceError, Upstream};
use crate::http::{bearer, decode_reply, decoded_reply, Reply, BEARER_PREFIX, CONTENT_TYPE_JSON};
use crate::models::{
    ContextDocument, ContextDocumentView, ContextMetadata, ContextMetadataView, ContextRequest,
    ContextRequestView, ContextResponse, ProcessedTweets, ProcessedTweetsView,
};
use vstd::prelude::*;
use vstd::string::*;
use vstd::utf8::encode_utf8;

verus! {

/// Where, under the context service's address, context is added.
pub const CONTEXT_PATH: &'static str = "/api/v1/context/add";

/// The tag under which this service adds context.
pub const SOURCE: &'static str = "twitter_podcast_ai";

/// What kind of context the processed posts are.
pub const CONTEXT_TYPE: &'static str = "resource";

/// For whom the context is meant.
pub const SCOPE: &'static str = "internal";

/// The type of the document that holds the processed posts.
pub const DOC_TYPE: &'static str = "text/plain";

/// The one modality of that document.
pub const MODALITY: &'static str = "text";

/// What follows the user's name in the name of the file that holds their
/// posts.
pub const FILE_SUFFIX: &'static str = "_tweets.txt";

/// The number of bytes that `text` takes in UTF-8.
pub open spec fn byte_length(text: Seq<char>) -> nat {
    encode_utf8(text).len()
}

/// The name of the file that holds the posts of `username`.
pub open spec fn file_name_of(username: Seq<char>) -> Seq<char> {
    username + FILE_SUFFIX@
}

/// The request that adds `processed` as context for `user_id`: one
/// document, which holds the processed text, of no organization, tagged
/// as an internal resource of this service.
pub open spec fn context_request_for(
    processed: ProcessedTweetsView,
    user_id: Seq<char>,
) -> ContextRequestView {
    ContextRequestView {
        user_id,
        organization_id: None,
        documents: seq![ContextDocumentView { content: processed.processed_text }],
        source: SOURCE@,
        context_type: CONTEXT_TYPE@,
        scope: SCOPE@,
        metadata: ContextMetadataView {
            file_name: file_name_of(processed.username),
            doc_type: DOC_TYPE@,
            modalities: seq![MODALITY@],
            size: byte_length(processed.processed_text) as u64,
        },
    }
}

/// Packages `processed` into the request that adds it as context for
/// `user_id`. The size it states is the processed text's length in bytes,
/// the file name is the user's name followed by `_tweets.txt`.
pub fn context_request(processed: &ProcessedTweets, user_id: &str) -> (request: ContextRequest)
    ensures
        request@ == context_request_for(processed@, user_id@),
        request.metadata.size == byte_length(processed.processed_text@),
        request.metadata.file_name@ == processed.username@ + FILE_SUFFIX@,
{
    let mut file_name = processed.username.clone();
    file_name.append(FILE_SUFFIX);
    let size = processed.processed_text.as_str().as_bytes().len() as u64;
    let request = ContextRequest {
        user_id: user_id.to_string(),
        organization_id: None,
        documents: vec![ContextDocument { content: processed.processed_text.clone() }],
        source: SOURCE.to_string(),
        context_type: CONTEXT_TYPE.to_string(),
        scope: SCOPE.to_string(),
        metadata: ContextMetadata {
            file_name,
            doc_type: DOC_TYPE.to_string(),
            modalities: vec![MODALITY.to_string()],
            size,
        },
    };
    assert(request.documents.deep_view() =~= seq![
        ContextDocumentView { content: processed.processed_text@ },
    ]);
    assert(request.metadata.modalities.deep_view() =~= seq![MODALITY@]);
    request
}

/// One call to the context service: a POST of `body` as JSON to `url`.
#[derive(Debug)]
pub struct ContextCall {
    pub url: String,
    pub authorization: String,
    pub content_type: String,
    pub body: ContextRequest,
}

/// A `ContextCall` with its strings as sequences of characters.
pub struct ContextCallView {
    pub url: Seq<char>,
    pub authorization: Seq<char>,
    pub content_type: Seq<char>,
    pub body: ContextRequestView,
}

impl View for ContextCall {
    type V = ContextCallView;

    open spec fn view(&self) -> ContextCallView {
        ContextCallView {
            url: self.url@,
            authorization: self.authorization@,
            content_type: self.content_type@,
            body: self.body@,
        }
    }
}

/// The call that forwards `processed` for `user_id`, authorized by `key`,
/// to the context service at `base_url`.
pub open spec fn context_call_for(
    base_url: Seq<char>,
    key: Seq<char>,
    processed: ProcessedTweetsView,
    user_id: Seq<char>,
) -> ContextCallView {
    ContextCallView {
        url: base_url + CONTEXT_PATH@,
        authorization: bearer(key),
        content_type: CONTENT_TYPE_JSON@,
        body: context_request_for(processed, user_id),
    }
}

/// Plans the call that forwards `processed` for `user_id`. It fails, with
/// nothing to send, exactly where the configuration holds no key for the
/// context service.
pub fn context_call(config: &Config, processed: &ProcessedTweets, user_id: &str) -> (r: Result<
    ContextCall,
    ServiceError,
>)
    ensures
        match config.alchemyst_api_key {
            Some(key) => r matches Ok(call) && call@ == context_call_for(
                base_url_of(*config),
                key@,
                processed@,
                user_id@,
            ),
            None => r == Err::<ContextCall, ServiceError>(
                ServiceError::ConfigError { missing: Credential::AlchemystApiKey },
            ),
        },
{
    match &config.alchemyst_api_key {
        None => Err(ServiceError::ConfigError { missing: Credential::AlchemystApiKey }),
        Some(key) => {
            let mut url = config.base_url().to_string();
            url.append(CONTEXT_PATH);
            let mut authorization = BEARER_PREFIX.to_string();
            authorization.append(key.as_str());
            Ok(
                ContextCall {
                    url,
                    authorization,
                    content_type: CONTENT_TYPE_JSON.to_string(),
                    body: context_request(processed, user_id),
                },
            )
        },
    }
}

/// What the context service's reply amounts to: its decoded answer, or the
/// failure that the reply stands for.
pub fn send_to_context_processor(reply: Reply<ContextResponse>) -> (r: Result<
    ContextResponse,
    ServiceError,
>)
    ensures
        r == decoded_reply(Upstream::Context, reply),
{
    decode_reply(Upstream::Context, reply)
}

} // verus!
