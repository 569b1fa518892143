//! The data that travels through the service, each type with its
//! mathematical view: strings as sequences of characters, vectors as
//! sequences, counts as they are.

use vstd::prelude::*;

verus! {

/// The engagement counters of a post.
#[derive(Debug, Clone)]
pub struct PublicMetrics {
    pub retweet_count: u64,
    pub reply_count: u64,
    pub like_count: u64,
    pub quote_count: u64,
    pub bookmark_count: u64,
    pub impression_count: u64,
}

impl View for PublicMetrics {
    type V = PublicMetrics;

    open spec fn view(&self) -> PublicMetrics {
        *self
    }
}

/// One post as the search endpoint returns it.
#[derive(Debug, Clone)]
pub struct Tweet {
    pub id: String,
    pub edit_history_tweet_ids: Vec<String>,
    pub created_at: String,
    pub text: String,
    pub public_metrics: PublicMetrics,
}

/// The view of a `Tweet`: its strings as sequences of characters.
pub struct TweetView {
    pub id: Seq<char>,
    pub edit_history_tweet_ids: Seq<Seq<char>>,
    pub created_at: Seq<char>,
    pub text: Seq<char>,
    pub public_metrics: PublicMetrics,
}

impl View for Tweet {
    type V = TweetView;

    open spec fn view(&self) -> TweetView {
        TweetView {
            id: self.id@,
            edit_history_tweet_ids: self.edit_history_tweet_ids.deep_view(),
            created_at: self.created_at@,
            text: self.text@,
            public_metrics: self.public_metrics,
        }
    }
}

impl DeepView for Tweet {
    type V = TweetView;

    open spec fn deep_view(&self) -> TweetView {
        self@
    }
}

/// The texts of `tweets`, in their order.
pub open spec fn texts_of(tweets: Seq<Tweet>) -> Seq<Seq<char>> {
    tweets.map_values(|tweet: Tweet| tweet.text@)
}

/// What the search endpoint says of the page it returned.
#[derive(Debug)]
pub struct TweetMeta {
    pub newest_id: String,
    pub oldest_id: String,
    pub result_count: u64,
}

/// The view of a `TweetMeta`: its strings as sequences of characters.
pub struct TweetMetaView {
    pub newest_id: Seq<char>,
    pub oldest_id: Seq<char>,
    pub result_count: u64,
}

impl View for TweetMeta {
    type V = TweetMetaView;

    open spec fn view(&self) -> TweetMetaView {
        TweetMetaView {
            newest_id: self.newest_id@,
            oldest_id: self.oldest_id@,
            result_count: self.result_count,
        }
    }
}

/// A decoded answer of the search endpoint.
#[derive(Debug)]
pub struct TwitterApiResponse {
    pub data: Vec<Tweet>,
    pub meta: TweetMeta,
}

/// The view of a `TwitterApiResponse`: its strings as sequences of characters.
pub struct TwitterApiResponseView {
    pub data: Seq<TweetView>,
    pub meta: TweetMetaView,
}

impl View for TwitterApiResponse {
    type V = TwitterApiResponseView;

    open spec fn view(&self) -> TwitterApiResponseView {
        TwitterApiResponseView { data: self.data.deep_view(), meta: self.meta@ }
    }
}

/// A user's posts folded into one text.
#[derive(Debug)]
pub struct ProcessedTweets {
    pub username: String,
    pub tweet_count: usize,
    pub processed_text: String,
}

/// The view of a `ProcessedTweets`: its strings as sequences of characters.
pub struct ProcessedTweetsView {
    pub username: Seq<char>,
    pub tweet_count: nat,
    pub processed_text: Seq<char>,
}

impl View for ProcessedTweets {
    type V = ProcessedTweetsView;

    open spec fn view(&self) -> ProcessedTweetsView {
        ProcessedTweetsView {
            username: self.username@,
            tweet_count: self.tweet_count as nat,
            processed_text: self.processed_text@,
        }
    }
}

/// One document of a context request.
#[derive(Debug)]
pub struct ContextDocument {
    pub content: String,
}

/// The view of a `ContextDocument`: its strings as sequences of characters.
pub struct ContextDocumentView {
    pub content: Seq<char>,
}

impl View for ContextDocument {
    type V = ContextDocumentView;

    open spec fn view(&self) -> ContextDocumentView {
        ContextDocumentView { content: self.content@ }
    }
}

impl DeepView for ContextDocument {
    type V = ContextDocumentView;

    open spec fn deep_view(&self) -> ContextDocumentView {
        self@
    }
}

/// What a context request says of its documents.
#[derive(Debug)]
pub struct ContextMetadata {
    pub file_name: String,
    pub doc_type: String,
    pub modalities: Vec<String>,
    pub size: u64,
}

/// The view of a `ContextMetadata`: its strings as sequences of characters.
pub struct ContextMetadataView {
    pub file_name: Seq<char>,
    pub doc_type: Seq<char>,
    pub modalities: Seq<Seq<char>>,
    pub size: u64,
}

impl View for ContextMetadata {
    type V = ContextMetadataView;

    open spec fn view(&self) -> ContextMetadataView {
        ContextMetadataView {
            file_name: self.file_name@,
            doc_type: self.doc_type@,
            modalities: self.modalities.deep_view(),
            size: self.size,
        }
    }
}

/// The body of a request to the context endpoint. `context_type` is one of
/// "resource", "conversation" and "instruction", `scope` one of "internal"
/// and "external".
#[derive(Debug)]
pub struct ContextRequest {
    pub user_id: String,
    pub organization_id: Option<String>,
    pub documents: Vec<ContextDocument>,
    pub source: String,
    pub context_type: String,
    pub scope: String,
    pub metadata: ContextMetadata,
}

/// The view of a `ContextRequest`: its strings as sequences of characters.
pub struct ContextRequestView {
    pub user_id: Seq<char>,
    pub organization_id: Option<Seq<char>>,
    pub documents: Seq<ContextDocumentView>,
    pub source: Seq<char>,
    pub context_type: Seq<char>,
    pub scope: Seq<char>,
    pub metadata: ContextMetadataView,
}

impl View for ContextRequest {
    type V = ContextRequestView;

    open spec fn view(&self) -> ContextRequestView {
        ContextRequestView {
            user_id: self.user_id@,
            organization_id: self.organization_id.deep_view(),
            documents: self.documents.deep_view(),
            source: self.source@,
            context_type: self.context_type@,
            scope: self.scope@,
            metadata: self.metadata@,
        }
    }
}

/// A decoded answer of the context endpoint.
#[derive(Debug)]
pub struct ContextResponse {
    pub success: bool,
    pub message: String,
}

/// The view of a `ContextResponse`: its strings as sequences of characters.
pub struct ContextResponseView {
    pub success: bool,
    pub message: Seq<char>,
}

impl View for ContextResponse {
    type V = ContextResponseView;

    open spec fn view(&self) -> ContextResponseView {
        ContextResponseView { success: self.success, message: self.message@ }
    }
}

/// What the service answers once a user's posts were added as context.
#[derive(Debug)]
pub struct ContextAdditionResponse {
    pub success: bool,
    pub message: String,
    pub username: String,
    pub tweet_count: usize,
    pub context_added: bool,
}

/// The view of a `ContextAdditionResponse`: its strings as sequences of characters.
pub struct ContextAdditionResponseView {
    pub success: bool,
    pub message: Seq<char>,
    pub username: Seq<char>,
    pub tweet_count: nat,
    pub context_added: bool,
}

impl View for ContextAdditionResponse {
    type V = ContextAdditionResponseView;

    open spec fn view(&self) -> ContextAdditionResponseView {
        ContextAdditionResponseView {
            success: self.success,
            message: self.message@,
            username: self.username@,
            tweet_count: self.tweet_count as nat,
            context_added: self.context_added,
        }
    }
}

/// What the service answers when a request failed.
#[derive(Debug)]
pub struct ErrorResponse {
    pub error: String,
}

/// The view of a `ErrorResponse`: its strings as sequences of characters.
pub struct ErrorResponseView {
    pub error: Seq<char>,
}

impl View for ErrorResponse {
    type V = ErrorResponseView;

    open spec fn view(&self) -> ErrorResponseView {
        ErrorResponseView { error: self.error@ }
    }
}

} // verus!
