//! What the router keeps of a request while it is served.
use vstd::prelude::*;
use crate::config::text_of;
use crate::router::PDRouter;
use crate::status::{create_error, ErrorReply, ErrorText, BAD_REQUEST};
use crate::text::occurs_in;

verus! {

/// The tokens of a request: of one prompt, or of a batch.
#[derive(Debug)]
pub enum InputIds {
    Single(Vec<i32>),
    Batch(Vec<Vec<i32>>),
}

/// One text or several.
#[derive(Debug)]
pub enum StringOrArray {
    String(String),
    Array(Vec<String>),
}

/// What routing reads of a generate request.
#[derive(Debug)]
pub struct GenerateRequest {
    pub text: Option<String>,
    pub input_ids: Option<InputIds>,
    pub stream: bool,
    pub return_logprob: Option<bool>,
}

/// What routing reads of a chat request.
#[derive(Debug)]
pub struct ChatCompletionRequest {
    pub n: Option<u32>,
    pub stream: bool,
    pub logprobs: bool,
    /// The text of the whole conversation: system prompt, prior turns, tool
    /// content and the current message.
    pub routing_text: String,
}

/// What routing reads of a completion request.
#[derive(Debug)]
pub struct CompletionRequest {
    pub prompt: StringOrArray,
    pub stream: bool,
    pub logprobs: Option<u32>,
}

/// What routing reads of a rerank request.
#[derive(Debug)]
pub struct RerankRequest {
    pub query: String,
}

/// What the router keeps of a request while it is served.
#[derive(Debug)]
pub struct PDRequestContext<'a> {
    pub route: &'static str,
    pub batch_size: Option<usize>,
    pub is_stream: bool,
    pub return_logprob: bool,
    pub request_text: Option<String>,
    pub model_id: Option<&'a str>,
}

/// What a request context says.
pub struct ContextView {
    pub route: Seq<char>,
    pub batch_size: Option<usize>,
    pub is_stream: bool,
    pub return_logprob: bool,
    pub request_text: Option<Seq<char>>,
    pub model_id: Option<Seq<char>>,
}

/// The text of an optional string.
pub open spec fn string_text(string: Option<String>) -> Option<Seq<char>> {
    match string {
        Some(string) => Some(string@),
        None => None,
    }
}

impl<'a> View for PDRequestContext<'a> {
    type V = ContextView;

    open spec fn view(&self) -> ContextView {
        ContextView {
            route: self.route@,
            batch_size: self.batch_size,
            is_stream: self.is_stream,
            return_logprob: self.return_logprob,
            request_text: string_text(self.request_text),
            model_id: text_of(self.model_id),
        }
    }
}

/// The items of a batch of tokens, where there are any.
pub open spec fn generate_batch(request: GenerateRequest) -> Option<usize> {
    match request.input_ids {
        Some(InputIds::Batch(batches)) => if batches@.len() > 0 {
            Some(batches.len())
        } else {
            None
        },
        _ => None,
    }
}

/// The choices that a chat request asks for, where it asks for more than one.
pub open spec fn chat_batch(request: ChatCompletionRequest) -> Option<usize> {
    match request.n {
        Some(n) => if n > 1 {
            Some(n as usize)
        } else {
            None
        },
        None => None,
    }
}

/// The prompts of a completion request that lists them, where there are any.
pub open spec fn completion_batch(request: CompletionRequest) -> Option<usize> {
    match request.prompt {
        StringOrArray::Array(prompts) => if prompts@.len() > 0 {
            Some(prompts.len())
        } else {
            None
        },
        _ => None,
    }
}

/// The text that a chat request is routed by: that of the whole conversation,
/// where it has any.
pub open spec fn chat_text(conversation: Seq<char>) -> Option<Seq<char>> {
    if conversation.len() == 0 {
        None
    } else {
        Some(conversation)
    }
}

/// The text that a completion request is routed by: its prompt, or the first of several.
pub open spec fn completion_text(request: CompletionRequest) -> Option<Seq<char>> {
    match request.prompt {
        StringOrArray::String(prompt) => Some(prompt@),
        StringOrArray::Array(prompts) => if prompts@.len() > 0 {
            Some(prompts@[0]@)
        } else {
            None
        },
    }
}

impl PDRouter {
    /// The size of the batch that a generate request is, where it is one.
    pub fn get_generate_batch_size(req: &GenerateRequest) -> (r: Option<usize>)
        ensures
            r == generate_batch(*req),
    {
        match &req.input_ids {
            Some(InputIds::Batch(batches)) => if batches.len() > 0 {
                Some(batches.len())
            } else {
                None
            },
            _ => None,
        }
    }

    /// The size of the batch that a chat request is, where it is one.
    pub fn get_chat_batch_size(req: &ChatCompletionRequest) -> (r: Option<usize>)
        ensures
            r == chat_batch(*req),
    {
        match req.n {
            Some(n) => if n > 1 {
                Some(n as usize)
            } else {
                None
            },
            None => None,
        }
    }

    /// The size of the batch that a completion request is, where it is one.
    pub fn get_completion_batch_size(req: &CompletionRequest) -> (r: Option<usize>)
        ensures
            r == completion_batch(*req),
    {
        match &req.prompt {
            StringOrArray::Array(prompts) => if prompts.len() > 0 {
                Some(prompts.len())
            } else {
                None
            },
            StringOrArray::String(_) => None,
        }
    }

    /// The text that a chat request is routed by, from that of its conversation.
    ///
    /// It is the text of the whole conversation, so that the worker is found
    /// that shares the longest prefix of it. A conversation without text gives
    /// no text rather than an empty one.
    pub fn build_chat_request_text(conversation: &str) -> (r: Option<String>)
        ensures
            string_text(r) == chat_text(conversation@),
    {
        if conversation.is_empty() {
            None
        } else {
            Some(conversation.to_string())
        }
    }

    /// Whether one of the two policies routes by the text of requests.
    pub fn policies_need_request_text(prefill_needs: bool, decode_needs: bool) -> (r: bool)
        ensures
            r == (prefill_needs || decode_needs),
    {
        prefill_needs || decode_needs
    }

    /// The context of a generate request.
    pub fn generate_context<'a>(
        body: &GenerateRequest,
        model_id: Option<&'a str>,
        need_text: bool,
    ) -> (r: PDRequestContext<'a>)
        ensures
            r@ == (ContextView {
                route: "/generate"@,
                batch_size: generate_batch(*body),
                is_stream: body.stream,
                return_logprob: body.return_logprob == Some(true),
                request_text: if need_text {
                    string_text(body.text)
                } else {
                    None
                },
                model_id: text_of(model_id),
            }),
    {
        let request_text = if need_text {
            body.text.clone()
        } else {
            None
        };
        let return_logprob = match body.return_logprob {
            Some(flag) => flag,
            None => false,
        };
        PDRequestContext {
            route: "/generate",
            batch_size: Self::get_generate_batch_size(body),
            is_stream: body.stream,
            return_logprob,
            request_text,
            model_id,
        }
    }

    /// The context of a chat request.
    pub fn chat_context<'a>(
        body: &ChatCompletionRequest,
        model_id: Option<&'a str>,
        need_text: bool,
    ) -> (r: PDRequestContext<'a>)
        ensures
            r@ == (ContextView {
                route: "/v1/chat/completions"@,
                batch_size: chat_batch(*body),
                is_stream: body.stream,
                return_logprob: body.logprobs,
                request_text: if need_text {
                    chat_text(body.routing_text@)
                } else {
                    None
                },
                model_id: text_of(model_id),
            }),
    {
        let request_text = if need_text {
            Self::build_chat_request_text(body.routing_text.as_str())
        } else {
            None
        };
        PDRequestContext {
            route: "/v1/chat/completions",
            batch_size: Self::get_chat_batch_size(body),
            is_stream: body.stream,
            return_logprob: body.logprobs,
            request_text,
            model_id,
        }
    }

    /// The context of a completion request.
    pub fn completion_context<'a>(
        body: &CompletionRequest,
        model_id: Option<&'a str>,
        need_text: bool,
    ) -> (r: PDRequestContext<'a>)
        ensures
            r@ == (ContextView {
                route: "/v1/completions"@,
                batch_size: completion_batch(*body),
                is_stream: body.stream,
                return_logprob: body.logprobs is Some,
                request_text: if need_text {
                    completion_text(*body)
                } else {
                    None
                },
                model_id: text_of(model_id),
            }),
    {
        let request_text = if need_text {
            match &body.prompt {
                StringOrArray::String(prompt) => Some(prompt.clone()),
                StringOrArray::Array(prompts) => if prompts.len() > 0 {
                    Some(prompts[0].clone())
                } else {
                    None
                },
            }
        } else {
            None
        };
        PDRequestContext {
            route: "/v1/completions",
            batch_size: Self::get_completion_batch_size(body),
            is_stream: body.stream,
            return_logprob: body.logprobs.is_some(),
            request_text,
            model_id,
        }
    }

    /// The context of a rerank request.
    pub fn rerank_context<'a>(
        body: &RerankRequest,
        model_id: Option<&'a str>,
        need_text: bool,
    ) -> (r: PDRequestContext<'a>)
        ensures
            r@ == (ContextView {
                route: "/v1/rerank"@,
                batch_size: None,
                is_stream: false,
                return_logprob: false,
                request_text: if need_text {
                    Some(body.query@)
                } else {
                    None
                },
                model_id: text_of(model_id),
            }),
    {
        let request_text = if need_text {
            Some(body.query.clone())
        } else {
            None
        };
        PDRequestContext {
            route: "/v1/rerank",
            batch_size: None,
            is_stream: false,
            return_logprob: false,
            request_text,
            model_id,
        }
    }

    /// The reply to a request for embeddings, which are not served.
    pub fn route_embeddings() -> (r: ErrorReply)
        ensures
            r@ == (ErrorText {
                status: BAD_REQUEST,
                code: "pd_unsupported_embeddings"@,
                message: "PD mode does not support /v1/embeddings"@,
            }),
    {
        create_error(
            BAD_REQUEST,
            "pd_unsupported_embeddings",
            "PD mode does not support /v1/embeddings".to_string(),
        )
    }

    /// The reply to a request for a classification, which is not served.
    pub fn route_classify() -> (r: ErrorReply)
        ensures
            r@ == (ErrorText {
                status: BAD_REQUEST,
                code: "pd_unsupported_classify"@,
                message: "PD mode does not support /v1/classify"@,
            }),
    {
        create_error(
            BAD_REQUEST,
            "pd_unsupported_classify",
            "PD mode does not support /v1/classify".to_string(),
        )
    }
}

/// A batch is never of size zero, and a chat request with one choice is none.
pub proof fn law_batches_are_not_empty(
    generate: GenerateRequest,
    chat: ChatCompletionRequest,
    completion: CompletionRequest,
)
    ensures
        generate_batch(generate) is Some ==> generate_batch(generate)->0 >= 1,
        chat_batch(chat) is Some ==> chat_batch(chat)->0 >= 2,
        completion_batch(completion) is Some ==> completion_batch(completion)->0 >= 1,
{
}

/// Whatever the text of a conversation holds, an earlier turn or a later one, the
/// text that the request is routed by holds.
pub proof fn law_routing_text_holds_every_message(conversation: Seq<char>, message: Seq<char>)
    requires
        message.len() > 0,
        occurs_in(message, conversation),
    ensures
        chat_text(conversation) is Some,
        occurs_in(message, chat_text(conversation)->0),
{
}

/// A conversation without text gives no text to route by, and only such a one.
pub proof fn law_no_text_gives_no_routing_text(conversation: Seq<char>)
    ensures
        chat_text(conversation) is None <==> conversation == Seq::<char>::empty(),
{
    if conversation.len() == 0 {
        assert(conversation =~= Seq::empty());
    }
}

} // verus!
