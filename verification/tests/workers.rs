use pd_router::config::EnvReading;
use pd_router::context::{
    ChatCompletionRequest, CompletionRequest, GenerateRequest, InputIds, RerankRequest,
    StringOrArray,
};
use pd_router::router::PDRouter;
use pd_router::worker::{available_workers, first_prefill_url, Role, Worker, WorkerType};

fn create_test_worker(url: &str, worker_type: WorkerType, healthy: bool) -> Worker {
    Worker {
        url: url.to_string(),
        base_url: url.to_string(),
        worker_type,
        bootstrap_host: "localhost".to_string(),
        dp_rank: None,
        body_refusal: "not an object".to_string(),
        available: healthy,
    }
}

const PREFILL: WorkerType = WorkerType::Prefill {
    bootstrap_port: None,
};

#[test]
fn test_select_healthy_prefill_worker() {
    let workers = vec![
        create_test_worker("http://unhealthy", PREFILL, false),
        create_test_worker("http://healthy", PREFILL, true),
        create_test_worker("http://decode", WorkerType::Decode, true),
    ];

    let pick = PDRouter::select_pd_pair(&workers);

    assert!(pick.is_ok());
    let pick = pick.unwrap();
    assert_eq!(pick.offered, vec![1]);
    let result = pick
        .chosen(Some(0), "round_robin", &workers)
        .and_then(|pick| pick.chosen(Some(0), "round_robin"));

    assert!(result.is_ok());
    let (prefill, _decode) = result.unwrap();

    assert_eq!(workers[prefill].url, "http://healthy");
    assert!(workers[prefill].available);
}

#[test]
fn test_empty_worker_lists() {
    let result = PDRouter::select_pd_pair(&vec![]);

    assert!(result.is_err());
    assert!(result
        .unwrap_err()
        .contains("No prefill workers available"));
}

#[test]
fn every_available_worker_of_a_role_is_offered_in_order() {
    let workers = vec![
        create_test_worker("http://d0", WorkerType::Decode, true),
        create_test_worker("http://p0", PREFILL, true),
        create_test_worker("http://r0", WorkerType::Regular, true),
        create_test_worker("http://d1", WorkerType::Decode, false),
        create_test_worker("http://p1", PREFILL, true),
        create_test_worker("http://d2", WorkerType::Decode, true),
    ];
    assert_eq!(available_workers(&workers, Role::Prefill), Ok(vec![1, 4]));
    assert_eq!(available_workers(&workers, Role::Decode), Ok(vec![0, 5]));
    let pick = PDRouter::select_pd_pair(&workers).unwrap();
    let pick = pick.chosen(Some(1), "p", &workers).unwrap();
    assert_eq!(pick.prefill, 4);
    assert_eq!(pick.offered, vec![0, 5]);
    assert_eq!(pick.chosen(Some(1), "d"), Ok((4, 5)));
}

#[test]
fn each_failure_to_choose_has_its_message() {
    let prefill = create_test_worker("http://p", PREFILL, true);
    assert_eq!(
        PDRouter::select_pd_pair(&vec![]).unwrap_err(),
        "No prefill workers available. Please check if prefill servers are configured and healthy."
    );
    assert_eq!(
        PDRouter::select_pd_pair(&vec![create_test_worker("http://p", PREFILL, false)]).unwrap_err(),
        "No available prefill workers (all circuits open or unhealthy)"
    );
    let workers = vec![prefill];
    assert_eq!(
        PDRouter::select_pd_pair(&workers)
            .unwrap()
            .chosen(None, "cache_aware", &workers)
            .unwrap_err(),
        "Policy cache_aware failed to select a prefill worker"
    );
    assert_eq!(
        PDRouter::select_pd_pair(&workers)
            .unwrap()
            .chosen(Some(0), "p", &workers)
            .unwrap_err(),
        "No decode workers available. Please check if decode servers are configured and healthy."
    );
    let workers = vec![
        create_test_worker("http://p", PREFILL, true),
        create_test_worker("http://d", WorkerType::Decode, true),
    ];
    assert_eq!(
        PDRouter::select_pd_pair(&workers)
            .unwrap()
            .chosen(Some(0), "p", &workers)
            .unwrap()
            .chosen(None, "random")
            .unwrap_err(),
        "Policy random failed to select a decode worker"
    );
}

#[test]
fn requests_are_proxied_to_the_first_prefill_worker() {
    let workers = vec![
        create_test_worker("http://p0", PREFILL, true),
        create_test_worker("http://p1", PREFILL, true),
    ];
    assert_eq!(
        first_prefill_url(&workers, "v1/models").ok(),
        Some("http://p0/v1/models".to_string())
    );
    let reply = first_prefill_url(&vec![], "v1/models").err().unwrap();
    assert_eq!(reply.status, 503);
    assert_eq!(reply.code, "no_prefill_servers");
    assert_eq!(reply.message, "No prefill servers available");
}

#[test]
fn models_narrow_the_choice_only_where_several_are_served() {
    for enable_igw in [false, true] {
        let router = PDRouter::new(
            None,
            enable_igw,
            EnvReading::NotPresent,
            EnvReading::NotPresent,
            EnvReading::NotPresent,
        )
        .unwrap();
        let expected = if enable_igw { Some("m") } else { None };
        assert_eq!(router.effective_model_id(Some("m")), expected);
        assert_eq!(router.effective_model_id(None), None);
    }
}

fn chat(n: Option<u32>, routing_text: &str) -> ChatCompletionRequest {
    ChatCompletionRequest {
        n,
        stream: true,
        logprobs: true,
        routing_text: routing_text.to_string(),
    }
}

#[test]
fn test_chat_request_text_uses_full_conversation() {
    let conversation = [
        "You are a helpful assistant.",
        "First question about apples.",
        "Apples are red.",
        "Follow up question about oranges.",
    ]
    .join(" ");

    let text = PDRouter::build_chat_request_text(&conversation)
        .expect("multi-message chat should produce routing text");

    assert!(
        text.contains("apples"),
        "routing text must include earlier turns, got: {text:?}"
    );
    assert!(
        text.contains("oranges"),
        "routing text must include later turns (not only the first message), got: {text:?}"
    );
    assert_eq!(text, conversation);
}

#[test]
fn test_chat_request_text_none_when_no_text() {
    assert!(
        PDRouter::build_chat_request_text("").is_none(),
        "empty conversation text should produce None, not Some(\"\")"
    );
    assert_eq!(
        PDRouter::chat_context(&chat(None, ""), None, true).request_text,
        None
    );
}

#[test]
fn batch_sizes_are_read_off_requests() {
    let generate = |input_ids: Option<InputIds>| GenerateRequest {
        text: Some("t".to_string()),
        input_ids,
        stream: false,
        return_logprob: None,
    };
    assert_eq!(PDRouter::get_generate_batch_size(&generate(None)), None);
    assert_eq!(
        PDRouter::get_generate_batch_size(&generate(Some(InputIds::Single(vec![1, 2])))),
        None
    );
    assert_eq!(
        PDRouter::get_generate_batch_size(&generate(Some(InputIds::Batch(vec![])))),
        None
    );
    assert_eq!(
        PDRouter::get_generate_batch_size(&generate(Some(InputIds::Batch(vec![vec![1]])))),
        Some(1)
    );
    assert_eq!(PDRouter::get_chat_batch_size(&chat(None, "")), None);
    assert_eq!(PDRouter::get_chat_batch_size(&chat(Some(0), "")), None);
    assert_eq!(PDRouter::get_chat_batch_size(&chat(Some(1), "")), None);
    assert_eq!(PDRouter::get_chat_batch_size(&chat(Some(2), "")), Some(2));
    let completion = |prompt: StringOrArray| CompletionRequest {
        prompt,
        stream: false,
        logprobs: None,
    };
    assert_eq!(
        PDRouter::get_completion_batch_size(&completion(StringOrArray::String("p".to_string()))),
        None
    );
    assert_eq!(
        PDRouter::get_completion_batch_size(&completion(StringOrArray::Array(vec![]))),
        None
    );
    assert_eq!(
        PDRouter::get_completion_batch_size(&completion(StringOrArray::Array(vec![
            "p".to_string()
        ]))),
        Some(1)
    );
}

#[test]
fn contexts_are_read_off_requests() {
    let generate = GenerateRequest {
        text: Some("prompt".to_string()),
        input_ids: Some(InputIds::Batch(vec![vec![1], vec![2]])),
        stream: true,
        return_logprob: Some(true),
    };
    let context = PDRouter::generate_context(&generate, Some("m"), true);
    assert_eq!(context.route, "/generate");
    assert_eq!(context.batch_size, Some(2));
    assert!(context.is_stream);
    assert!(context.return_logprob);
    assert_eq!(context.request_text.as_deref(), Some("prompt"));
    assert_eq!(context.model_id, Some("m"));
    assert_eq!(
        PDRouter::generate_context(&generate, None, false).request_text,
        None
    );

    let context = PDRouter::chat_context(&chat(Some(3), "a b"), None, true);
    assert_eq!(context.route, "/v1/chat/completions");
    assert_eq!(context.batch_size, Some(3));
    assert!(context.is_stream);
    assert!(context.return_logprob);
    assert_eq!(context.request_text.as_deref(), Some("a b"));

    let completion = CompletionRequest {
        prompt: StringOrArray::Array(vec!["first".to_string(), "second".to_string()]),
        stream: false,
        logprobs: Some(0),
    };
    let context = PDRouter::completion_context(&completion, None, true);
    assert_eq!(context.route, "/v1/completions");
    assert_eq!(context.batch_size, Some(2));
    assert!(!context.is_stream);
    assert!(context.return_logprob);
    assert_eq!(context.request_text.as_deref(), Some("first"));

    let rerank = RerankRequest {
        query: "q".to_string(),
    };
    let context = PDRouter::rerank_context(&rerank, None, true);
    assert_eq!(context.route, "/v1/rerank");
    assert_eq!(context.batch_size, None);
    assert!(!context.is_stream);
    assert!(!context.return_logprob);
    assert_eq!(context.request_text.as_deref(), Some("q"));

    assert!(PDRouter::policies_need_request_text(false, true));
    assert!(PDRouter::policies_need_request_text(true, false));
    assert!(!PDRouter::policies_need_request_text(false, false));
}

#[test]
fn unsupported_routes_are_refused() {
    let embeddings = PDRouter::route_embeddings();
    assert_eq!(embeddings.status, 400);
    assert_eq!(embeddings.code, "pd_unsupported_embeddings");
    assert_eq!(
        embeddings.message,
        "PD mode does not support /v1/embeddings"
    );
    let classify = PDRouter::route_classify();
    assert_eq!(classify.status, 400);
    assert_eq!(classify.code, "pd_unsupported_classify");
    assert_eq!(classify.message, "PD mode does not support /v1/classify");
}
