//! Laws on what is kept of a request.
use vstd::prelude::*;
use crate::context::{
    ChatCompletionRequest, CompletionRequest, GenerateRequest, InputIds, PDRequestContext,
    RerankRequest, StringOrArray,
};
use crate::router::PDRouter;
use crate::status::ErrorReply;

verus! {

/// Whether a request is routed by a text.
pub open spec fn is_routed_by(context: PDRequestContext<'_>, text: Option<Seq<char>>) -> bool {
    &&& context.request_text is Some <==> text is Some
    &&& text is Some ==> context.request_text->0@ == text->0
}

/// Whether a context names a model.
pub open spec fn names_model(context: PDRequestContext<'_>, model_id: Option<&str>) -> bool {
    &&& context.model_id is Some <==> model_id is Some
    &&& model_id is Some ==> context.model_id->0@ == model_id->0@
}

/// A text where it is asked for.
pub open spec fn if_needed(need_text: bool, text: Option<Seq<char>>) -> Option<Seq<char>> {
    if need_text {
        text
    } else {
        None
    }
}

/// Whether a size is that of a batch of so many items, and none where there is none.
pub open spec fn is_size(size: Option<usize>, is_batch: bool, items: nat) -> bool {
    &&& size is Some <==> is_batch && items >= 1
    &&& size is Some ==> size->0 == items
}

/// Whether a size is that of the batch of tokens of a generate request.
pub open spec fn is_generate_size(size: Option<usize>, body: GenerateRequest) -> bool {
    match body.input_ids {
        Some(InputIds::Batch(batches)) => is_size(size, true, batches@.len()),
        _ => size is None,
    }
}

/// Whether a size is that of the choices of a chat request.
pub open spec fn is_chat_size(size: Option<usize>, body: ChatCompletionRequest) -> bool {
    &&& size is Some <==> body.n is Some && body.n->0 >= 2
    &&& size is Some ==> size->0 == body.n->0
}

/// Whether a size is that of the prompts of a completion request.
pub open spec fn is_completion_size(size: Option<usize>, body: CompletionRequest) -> bool {
    match body.prompt {
        StringOrArray::Array(prompts) => is_size(size, true, prompts@.len()),
        StringOrArray::String(_) => size is None,
    }
}

/// The text of a conversation, where it has any.
pub open spec fn unless_empty(text: Seq<char>) -> Option<Seq<char>> {
    if text.len() == 0 {
        None
    } else {
        Some(text)
    }
}

/// The sizes of batches are those of their lists.
pub proof fn law_sizes_are_those_of_the_lists(
    generate: &GenerateRequest,
    chat: &ChatCompletionRequest,
    completion: &CompletionRequest,
    sizes: (Option<usize>, Option<usize>, Option<usize>),
)
    requires
        call_ensures(PDRouter::get_generate_batch_size, (generate,), sizes.0),
        call_ensures(PDRouter::get_chat_batch_size, (chat,), sizes.1),
        call_ensures(PDRouter::get_completion_batch_size, (completion,), sizes.2),
    ensures
        is_generate_size(sizes.0, *generate),
        is_chat_size(sizes.1, *chat),
        is_completion_size(sizes.2, *completion),
{
}

/// A chat is routed by the whole text of its conversation, and by none where it has none.
pub proof fn law_a_chat_is_routed_by_its_conversation(conversation: &str, r: Option<String>)
    requires
        call_ensures(PDRouter::build_chat_request_text, (conversation,), r),
    ensures
        r is None <==> conversation@.len() == 0,
        r is Some ==> r->0@ == conversation@,
{
}

/// Text is needed where one of the two policies needs it.
pub proof fn law_text_is_needed_by_either_policy(prefill: bool, decode: bool, r: bool)
    requires
        call_ensures(PDRouter::policies_need_request_text, (prefill, decode), r),
    ensures
        !r <==> !prefill && !decode,
{
}

/// What is kept of a generate request.
pub proof fn law_the_context_of_a_generate_request<'a>(
    body: &GenerateRequest,
    model_id: Option<&'a str>,
    need_text: bool,
    r: PDRequestContext<'a>,
)
    requires
        call_ensures(PDRouter::generate_context, (body, model_id, need_text), r),
    ensures
        r.route@ == "/generate"@,
        is_generate_size(r.batch_size, *body),
        r.is_stream == body.stream,
        r.return_logprob <==> body.return_logprob is Some && body.return_logprob->0,
        is_routed_by(
            r,
            if_needed(
                need_text,
                if body.text is Some {
                    Some(body.text->0@)
                } else {
                    None
                },
            ),
        ),
        names_model(r, model_id),
{
    assert(r@.route == r.route@);
}

/// What is kept of a chat request.
pub proof fn law_the_context_of_a_chat_request<'a>(
    body: &ChatCompletionRequest,
    model_id: Option<&'a str>,
    need_text: bool,
    r: PDRequestContext<'a>,
)
    requires
        call_ensures(PDRouter::chat_context, (body, model_id, need_text), r),
    ensures
        r.route@ == "/v1/chat/completions"@,
        is_chat_size(r.batch_size, *body),
        r.is_stream == body.stream,
        r.return_logprob == body.logprobs,
        is_routed_by(r, if_needed(need_text, unless_empty(body.routing_text@))),
        names_model(r, model_id),
{
    assert(r@.route == r.route@);
}

/// What is kept of a completion request.
pub proof fn law_the_context_of_a_completion_request<'a>(
    body: &CompletionRequest,
    model_id: Option<&'a str>,
    need_text: bool,
    r: PDRequestContext<'a>,
)
    requires
        call_ensures(PDRouter::completion_context, (body, model_id, need_text), r),
    ensures
        r.route@ == "/v1/completions"@,
        is_completion_size(r.batch_size, *body),
        r.is_stream == body.stream,
        r.return_logprob <==> body.logprobs is Some,
        is_routed_by(
            r,
            if_needed(
                need_text,
                match body.prompt {
                    StringOrArray::String(prompt) => Some(prompt@),
                    StringOrArray::Array(prompts) => if prompts@.len() == 0 {
                        None
                    } else {
                        Some(prompts@.first()@)
                    },
                },
            ),
        ),
        names_model(r, model_id),
{
    assert(r@.route == r.route@);
}

/// What is kept of a rerank request.
pub proof fn law_the_context_of_a_rerank_request<'a>(
    body: &RerankRequest,
    model_id: Option<&'a str>,
    need_text: bool,
    r: PDRequestContext<'a>,
)
    requires
        call_ensures(PDRouter::rerank_context, (body, model_id, need_text), r),
    ensures
        r.route@ == "/v1/rerank"@,
        r.batch_size is None,
        !r.is_stream,
        !r.return_logprob,
        is_routed_by(r, if_needed(need_text, Some(body.query@))),
        names_model(r, model_id),
{
    assert(r@.route == r.route@);
}

/// Embeddings and classifications are refused.
pub proof fn law_unsupported_routes_are_refused(embeddings: ErrorReply, classify: ErrorReply)
    requires
        call_ensures(PDRouter::route_embeddings, (), embeddings),
        call_ensures(PDRouter::route_classify, (), classify),
    ensures
        embeddings.status == 400,
        embeddings.code@ == "pd_unsupported_embeddings"@,
        embeddings.message@ == "PD mode does not support /v1/embeddings"@,
        classify.status == 400,
        classify.code@ == "pd_unsupported_classify"@,
        classify.message@ == "PD mode does not support /v1/classify"@,
{
    assert(embeddings@.status == embeddings.status);
    assert(classify@.status == classify.status);
}

} // verus!
